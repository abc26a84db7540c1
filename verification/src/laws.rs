//! What holds of the library as a whole.

use crate::env::{CallTxView, EnvView, CALL_GAS_LIMIT};
use crate::error::ForkCallErrorView;
use crate::evm::{arena_nodes, exec_result, fresh_db, only_loads, DbView, RefusalView, ReplyView};
use crate::fork::{
    after_call, at_height, can_answer, in_block, ran, tx_of, CallView, ForkIdView, ForkView,
};
use crate::forker::{
    active_is_there, answered, invalid_address, no_active_fork, rolled, selected, valid_addresses,
    with_fork, ForkerView,
};
use crate::replay::{
    earlier_tx, entered, mined_call, position, replayed, AwaitingParentFork, MinedTx,
    MinedTxView,
};
use crate::result::{InstructionResult, RawCallResultView};
use crate::typed::{typed_step, TypedStepView};
use vstd::prelude::*;

verus! {

/// A call with an address that is not 20 bytes long is refused as that, also where no fork is
/// active; one with good addresses is refused where no fork is active. Neither changes anything.
pub proof fn refused_call_changes_nothing(
    before: ForkerView,
    call: CallView,
    commit: bool,
    r: Result<RawCallResultView, ForkCallErrorView>,
    after: ForkerView,
)
    requires
        answered(before, call, commit, r, after),
        !valid_addresses(call) || before.active is None,
    ensures
        after == before,
        !valid_addresses(call) ==> r == Err::<RawCallResultView, _>(invalid_address()),
        valid_addresses(call) ==> r == Err::<RawCallResultView, _>(no_active_fork()),
{
}

/// A call leaves the selection, every fork but the active one, and of the active one all but its
/// state as they were.
pub proof fn call_touches_only_the_active_state(
    before: ForkerView,
    call: CallView,
    commit: bool,
    r: Result<RawCallResultView, ForkCallErrorView>,
    after: ForkerView,
    id: ForkIdView,
)
    requires
        answered(before, call, commit, r, after),
        active_is_there(before),
    ensures
        after.active == before.active,
        after.forks.dom() == before.forks.dom(),
        before.active != Some(id) ==> after.forks[id] == before.forks[id],
        after.forks[id].env == before.forks[id].env,
        after.forks[id].url == before.forks[id].url,
        after.forks[id].db.backend == before.forks[id].db.backend,
{
    assert(after.forks.dom() =~= before.forks.dom());
}

/// A call that is not committed, or that fails, leaves every entry of every fork's state as it was;
/// all that is new was loaded from the fork's backend.
pub proof fn uncommitted_call_keeps_the_state(
    before: ForkerView,
    call: CallView,
    commit: bool,
    r: Result<RawCallResultView, ForkCallErrorView>,
    after: ForkerView,
    id: ForkIdView,
)
    requires
        answered(before, call, commit, r, after),
        !commit || r is Err,
    ensures
        before.forks[id].db.contents.submap_of(after.forks[id].db.contents),
        only_loads(before.forks[id].db, after.forks[id].db),
{
}

/// What a committing call leaves is what the next call runs on: with both run, the second starts
/// from the fork that the first left, and each result is the EVM's answer.
pub proof fn commits_persist(
    start: ForkerView,
    first: CallView,
    first_r: Result<RawCallResultView, ForkCallErrorView>,
    middle: ForkerView,
    second: CallView,
    commit: bool,
    second_r: Result<RawCallResultView, ForkCallErrorView>,
    end: ForkerView,
) -> (runs: ((ReplyView, DbView), (ReplyView, DbView)))
    requires
        answered(start, first, true, first_r, middle),
        answered(middle, second, commit, second_r, end),
        valid_addresses(first),
        valid_addresses(second),
        start.active is Some,
    ensures
        ({
            let id = start.active->Some_0;
            let before = start.forks[id];
            let between = after_call(before, first, true, runs.0.0, runs.0.1);
            &&& can_answer(before, first, runs.0.0, runs.0.1)
            &&& first_r == exec_result(before.env, tx_of(before, first), runs.0.0)
            &&& can_answer(between, second, runs.1.0, runs.1.1)
            &&& second_r == exec_result(between.env, tx_of(between, second), runs.1.0)
            &&& end.forks[id] == after_call(between, second, commit, runs.1.0, runs.1.1)
        }),
{
    let id = start.active->Some_0;
    let before = start.forks[id];
    let between = middle.forks[id];
    let one = choose|reply: ReplyView, loaded: DbView|
        {
            &&& #[trigger] can_answer(before, first, reply, loaded)
            &&& first_r == exec_result(before.env, tx_of(before, first), reply)
            &&& between == after_call(before, first, true, reply, loaded)
        };
    let two = choose|reply: ReplyView, loaded: DbView|
        {
            &&& #[trigger] can_answer(between, second, reply, loaded)
            &&& second_r == exec_result(between.env, tx_of(between, second), reply)
            &&& end.forks[id] == after_call(between, second, commit, reply, loaded)
        };
    (one, two)
}

/// A committing call answers as a read-only one does: on the same forker, what one can give the
/// other can give too. They differ only in that the changes are kept.
pub proof fn commit_answers_as_a_read(
    forker: ForkerView,
    call: CallView,
    r: Result<RawCallResultView, ForkCallErrorView>,
)
    ensures
        (exists|after: ForkerView| #[trigger] answered(forker, call, true, r, after)) <==> (exists|
            after: ForkerView,
        | #[trigger]
            answered(forker, call, false, r, after)),
{
    if exists|after: ForkerView| #[trigger] answered(forker, call, true, r, after) {
        let after = choose|after: ForkerView| #[trigger] answered(forker, call, true, r, after);
        answer_without_regard_to_commit(forker, call, true, false, r, after);
    }
    if exists|after: ForkerView| #[trigger] answered(forker, call, false, r, after) {
        let after = choose|after: ForkerView| #[trigger] answered(forker, call, false, r, after);
        answer_without_regard_to_commit(forker, call, false, true, r, after);
    }
}

/// What a call can give with its changes kept or not, it can give the other way too.
proof fn answer_without_regard_to_commit(
    forker: ForkerView,
    call: CallView,
    commit: bool,
    other: bool,
    r: Result<RawCallResultView, ForkCallErrorView>,
    after: ForkerView,
)
    requires
        answered(forker, call, commit, r, after),
    ensures
        exists|end: ForkerView| #[trigger] answered(forker, call, other, r, end),
{
    if !valid_addresses(call) || forker.active is None {
        assert(answered(forker, call, other, r, forker));
    } else {
        let id = forker.active->Some_0;
        let fork = forker.forks[id];
        let (reply, loaded) = choose|reply: ReplyView, loaded: DbView|
            {
                &&& #[trigger] can_answer(fork, call, reply, loaded)
                &&& r == exec_result(fork.env, tx_of(fork, call), reply)
                &&& after.forks[id] == after_call(fork, call, commit, reply, loaded)
            };
        let left = after_call(fork, call, other, reply, loaded);
        assert(ran(fork, call, other, r, left));
        assert(answered(forker, call, other, r, with_fork(forker, id, left)));
    }
}

/// That the EVM did not fail: it ran the transaction, or found it invalid.
pub open spec fn decided(reply: ReplyView) -> bool {
    !(reply.outcome matches Err(RefusalView::Failed(_)))
}

/// That `call` on the forker `before`, with its changes kept or not as `commit` says, gives the
/// result `r` and leaves the forker `after`, where nothing fails on the way and the active fork's
/// state is `loaded` once all that is needed has been loaded.
pub open spec fn settles(
    before: ForkerView,
    call: CallView,
    commit: bool,
    loaded: DbView,
    r: Result<RawCallResultView, ForkCallErrorView>,
    after: ForkerView,
) -> bool {
    if !valid_addresses(call) || before.active is None {
        answered(before, call, commit, r, after)
    } else {
        let id = before.active->Some_0;
        let fork = before.forks[id];
        exists|reply: ReplyView|
            {
                &&& #[trigger] can_answer(fork, call, reply, loaded)
                &&& decided(reply)
                &&& r == exec_result(fork.env, tx_of(fork, call), reply)
                &&& after == with_fork(before, id, after_call(fork, call, commit, reply, loaded))
            }
    }
}

/// That `call` on the forker `before` can fail with the error `r` for want of something it needs,
/// once `loaded` has been loaded.
pub open spec fn fails(
    before: ForkerView,
    call: CallView,
    loaded: DbView,
    r: Result<RawCallResultView, ForkCallErrorView>,
) -> bool {
    &&& valid_addresses(call)
    &&& before.active matches Some(id) && exists|reply: ReplyView|
        {
            &&& #[trigger] can_answer(before.forks[id], call, reply, loaded)
            &&& !decided(reply)
            &&& r == exec_result(before.forks[id].env, tx_of(before.forks[id], call), reply)
        }
}

/// Every call settles or fails, and one that comes to an end settles.
pub proof fn calls_settle_or_fail(
    before: ForkerView,
    call: CallView,
    commit: bool,
    r: Result<RawCallResultView, ForkCallErrorView>,
    after: ForkerView,
) -> (loaded: DbView)
    requires
        answered(before, call, commit, r, after),
    ensures
        settles(before, call, commit, loaded, r, after) || fails(before, call, loaded, r),
        r is Ok ==> settles(before, call, commit, loaded, r, after),
        valid_addresses(call) && before.active is Some ==> only_loads(
            before.forks[before.active->Some_0].db,
            loaded,
        ),
        valid_addresses(call) && before.active is Some && !commit
            ==> after.forks[before.active->Some_0].db == loaded,
{
    if !valid_addresses(call) || before.active is None {
        arbitrary()
    } else {
        let id = before.active->Some_0;
        let fork = before.forks[id];
        let (reply, loaded) = choose|reply: ReplyView, loaded: DbView|
            {
                &&& #[trigger] can_answer(fork, call, reply, loaded)
                &&& r == exec_result(fork.env, tx_of(fork, call), reply)
                &&& after.forks[id] == after_call(fork, call, commit, reply, loaded)
            };
        assert(can_answer(fork, call, reply, loaded));
        loaded
    }
}

/// A call that settles is answered so.
pub proof fn settled_call_is_answered(
    before: ForkerView,
    call: CallView,
    commit: bool,
    loaded: DbView,
    r: Result<RawCallResultView, ForkCallErrorView>,
    after: ForkerView,
)
    requires
        settles(before, call, commit, loaded, r, after),
    ensures
        answered(before, call, commit, r, after),
{
    if valid_addresses(call) && before.active is Some {
        let id = before.active->Some_0;
        let fork = before.forks[id];
        let reply = choose|reply: ReplyView|
            {
                &&& #[trigger] can_answer(fork, call, reply, loaded)
                &&& decided(reply)
                &&& r == exec_result(fork.env, tx_of(fork, call), reply)
                &&& after == with_fork(before, id, after_call(fork, call, commit, reply, loaded))
            };
        assert(ran(fork, call, commit, r, after.forks[id]));
    }
}

/// Two calls with equal arguments on one forker that load the same, and on which nothing fails,
/// give equal results, refusals among them, whether they are committed or not; if both are
/// committed, or neither is, they also leave the same forker.
pub proof fn equal_calls_give_equal_results(
    before: ForkerView,
    call: CallView,
    loaded: DbView,
    commit: bool,
    first: Result<RawCallResultView, ForkCallErrorView>,
    first_after: ForkerView,
    other_commit: bool,
    second: Result<RawCallResultView, ForkCallErrorView>,
    second_after: ForkerView,
)
    requires
        settles(before, call, commit, loaded, first, first_after),
        settles(before, call, other_commit, loaded, second, second_after),
    ensures
        first == second,
        commit == other_commit ==> first_after == second_after,
{
}

/// A committing call gives what a read-only one gives: where it settles with the result `a`, there
/// is a state such that every read-only call that ends and leaves the active fork in that state
/// gives `a` too.
pub proof fn commit_gives_what_a_read_gives(
    before: ForkerView,
    call: CallView,
    a: RawCallResultView,
    after: ForkerView,
) -> (loaded: DbView)
    requires
        answered(before, call, true, Ok(a), after),
    ensures
        settles(before, call, true, loaded, Ok(a), after),
        forall|b: RawCallResultView, end: ForkerView|
            #[trigger] answered(before, call, false, Ok(b), end)
                && end.forks[before.active->Some_0].db == loaded ==> b == a,
{
    let loaded = calls_settle_or_fail(before, call, true, Ok(a), after);
    assert forall|b: RawCallResultView, end: ForkerView|
        #[trigger] answered(before, call, false, Ok(b), end)
            && end.forks[before.active->Some_0].db == loaded implies b == a by {
        calls_settle_or_fail(before, call, false, Ok(b), end);
        equal_calls_give_equal_results(
            before,
            call,
            loaded,
            true,
            Ok(a),
            after,
            false,
            Ok(b),
            end,
        );
    }
    loaded
}

/// Two read-only calls with equal arguments that come to an end and load the same entries give
/// equal results. That they load the same is up to the network.
pub proof fn equal_reads_give_equal_results(
    forker: ForkerView,
    call: CallView,
    first: RawCallResultView,
    second: RawCallResultView,
    after: ForkerView,
)
    requires
        answered(forker, call, false, Ok(first), after),
        answered(forker, call, false, Ok(second), after),
    ensures
        first == second,
{
}

/// A call that comes to an end carries its traces, with at least the root node in them, and the
/// environment it ran against: the fork's settings and block, and a transaction for the fork's
/// chain with free and all but unlimited gas.
pub proof fn result_carries_its_context(
    before: ForkerView,
    call: CallView,
    commit: bool,
    raw: RawCallResultView,
    after: ForkerView,
)
    requires
        answered(before, call, commit, Ok(raw), after),
    ensures
        before.active is Some,
        raw.traces matches Some(arena) && arena_nodes(arena) >= 1,
        raw.reverted == !raw.exit_reason.spec_is_ok(),
        ({
            let fork = before.forks[before.active->Some_0];
            &&& raw.env.cfg == fork.env.cfg
            &&& raw.env.block == fork.env.block
            &&& raw.env.tx == CallTxView {
                caller: call.from,
                kind: call.to,
                data: call.data,
                value: call.value,
                gas_price: 0,
                gas_limit: CALL_GAS_LIMIT,
                chain_id: Some(fork.env.cfg.chain_id),
            }
        }),
{
}

/// What the transaction in a fork's environment is makes no difference to a call.
pub proof fn environment_transaction_is_not_read(
    fork: ForkView,
    tx: CallTxView,
    call: CallView,
    commit: bool,
    r: Result<RawCallResultView, ForkCallErrorView>,
    after: ForkView,
)
    ensures
        ran(fork, call, commit, r, after) ==> ran(
            (ForkView { env: EnvView { tx, ..fork.env }, ..fork }),
            call,
            commit,
            r,
            (ForkView { env: EnvView { tx, ..after.env }, ..after }),
        ),
{
    if ran(fork, call, commit, r, after) {
        let other = ForkView { env: EnvView { tx, ..fork.env }, ..fork };
        let (reply, loaded) = choose|reply: ReplyView, loaded: DbView|
            {
                &&& #[trigger] can_answer(fork, call, reply, loaded)
                &&& r == exec_result(fork.env, tx_of(fork, call), reply)
                &&& after == after_call(fork, call, commit, reply, loaded)
            };
        assert(can_answer(other, call, reply, loaded));
    }
}

/// A fork that has been added is there and selected, so that adding it again finds it and changes
/// nothing; all other forks stay as they were.
pub proof fn added_fork_is_found(
    forker: ForkerView,
    id: ForkIdView,
    fork: ForkView,
    other: ForkIdView,
)
    ensures
        with_fork(forker, id, fork).forks.dom().contains(id),
        with_fork(forker, id, fork).forks[id] == fork,
        selected(with_fork(forker, id, fork), id) == with_fork(forker, id, fork),
        other != id ==> with_fork(forker, id, fork).forks[other] == forker.forks[other],
        other != id ==> with_fork(forker, id, fork).forks.dom().contains(other)
            == forker.forks.dom().contains(other),
{
}

/// Selecting a fork changes no fork, and only the last selection counts.
pub proof fn selecting_keeps_forks(forker: ForkerView, id: ForkIdView, then: ForkIdView)
    ensures
        selected(forker, id).forks == forker.forks,
        selected(forker, id).active == Some(id),
        selected(selected(forker, id), then) == selected(forker, then),
{
}

/// Rolling the active fork changes only the number of its block, to what was asked for; rolling it
/// nowhere changes nothing, and only the last height counts.
pub proof fn rolling_moves_only_the_height(
    forker: ForkerView,
    number: u64,
    then: u64,
    other: ForkIdView,
)
    requires
        active_is_there(forker),
        forker.active is Some,
    ensures
        rolled(forker, None) == forker,
        rolled(forker, Some(number)).active == forker.active,
        rolled(forker, Some(number)).forks.dom() == forker.forks.dom(),
        forker.active != Some(other) ==> rolled(forker, Some(number)).forks[other]
            == forker.forks[other],
        rolled(forker, Some(number)).forks[forker.active->Some_0] == at_height(
            forker.forks[forker.active->Some_0],
            number as nat,
        ),
        at_height(forker.forks[other], number as nat).db == forker.forks[other].db,
        at_height(forker.forks[other], number as nat).env.cfg == forker.forks[other].env.cfg,
        at_height(forker.forks[other], number as nat).env.block.number == number,
        rolled(rolled(forker, Some(number)), Some(then)) == rolled(forker, Some(then)),
{
    assert(rolled(forker, Some(number)).forks.dom() =~= forker.forks.dom());
    assert(rolled(rolled(forker, Some(number)), Some(then)) =~= rolled(forker, Some(then)));
}

/// A typed call gives return data to decode exactly where the call succeeded, and revert data to
/// decode exactly where the call plainly reverted and that was asked for; every other call that
/// came to an end fails with its raw result.
pub proof fn typed_call_decodes_what_it_should(raw: RawCallResultView, decode_error: bool)
    ensures
        typed_step(Ok(raw), decode_error) == Ok::<_, ForkCallErrorView>(
            TypedStepView::DecodeReturn(raw),
        ) <==> raw.exit_reason.spec_is_ok(),
        typed_step(Ok(raw), decode_error) == Ok::<_, ForkCallErrorView>(
            TypedStepView::DecodeError(raw),
        ) <==> decode_error && raw.exit_reason == InstructionResult::Revert,
        typed_step(Ok(raw), decode_error) == Err::<TypedStepView, _>(
            ForkCallErrorView::Failed(raw),
        ) <==> !raw.exit_reason.spec_is_ok() && !(decode_error && raw.exit_reason
            == InstructionResult::Revert),
{
}

/// The position of a transaction is that of the first one with its hash, and the number of
/// transactions where there is none.
pub proof fn position_is_first(txs: Seq<MinedTx>, hash: Seq<u8>)
    ensures
        0 <= position(txs, hash) <= txs.len(),
        forall|i: int| 0 <= i < position(txs, hash) ==> (#[trigger] txs[i])@.hash != hash,
        position(txs, hash) < txs.len() ==> txs[position(txs, hash)]@.hash == hash,
    decreases txs.len(),
{
    if txs.len() > 0 && txs[0]@.hash != hash {
        let rest = txs.drop_first();
        position_is_first(rest, hash);
        assert forall|i: int| 0 <= i < position(txs, hash) implies (#[trigger] txs[i])@.hash
            != hash by {
            if i > 0 {
                assert(rest[i - 1] == txs[i]);
            }
        }
    }
}

/// Every transaction mined ahead of the target, calls and contract creations alike, is committed in
/// order, each from its sender to its receiver with its calldata and value on what the one before
/// it left, and the target runs on what the last of them left, with its own calldata and value.
pub proof fn replay_runs_every_earlier_transaction(
    before: ForkerView,
    replay: AwaitingParentFork,
    states: Seq<ForkerView>,
    r: Result<RawCallResultView, ForkCallErrorView>,
)
    requires
        replayed(before, replay, states, r),
    ensures
        ({
            let txs = replay.block.transactions@;
            let n = position(txs, replay.tx_hash@);
            &&& states.len() == n + 1
            &&& states[0] == entered(before, replay.block_number, replay.block.header)
            &&& forall|i: int|
                0 <= i < n ==> earlier_tx(states[i], (#[trigger] txs[i])@, states[i + 1])
            &&& n < txs.len() ==> exists|after: ForkerView| #[trigger]
                answered(states[n], mined_call(txs[n]@), false, r, after)
        }),
{
    let txs = replay.block.transactions@;
    position_is_first(txs, replay.tx_hash@);
    assert forall|i: int| 0 <= i < position(txs, replay.tx_hash@) implies earlier_tx(
        states[i],
        (#[trigger] txs[i])@,
        states[i + 1],
    ) by {
        assert(earlier_tx(states[i], txs[i]@, states[i + 1]));
    }
}

/// The target of a replay runs without being committed: wherever in the block it is, the forker
/// ends as the transaction ahead of it left it, and where there is none, with the block entered and
/// nothing more.
pub proof fn replayed_target_leaves_nothing(
    before: ForkerView,
    replay: AwaitingParentFork,
    states: Seq<ForkerView>,
    r: Result<RawCallResultView, ForkCallErrorView>,
)
    requires
        replayed(before, replay, states, r),
        position(replay.block.transactions@, replay.tx_hash@) < replay.block.transactions@.len(),
    ensures
        ({
            let txs = replay.block.transactions@;
            let n = position(txs, replay.tx_hash@);
            &&& exists|after: ForkerView| #[trigger]
                answered(states.last(), mined_call(txs[n]@), false, r, after)
            &&& n == 0 ==> states.last() == entered(
                before,
                replay.block_number,
                replay.block.header,
            )
            &&& n > 0 ==> earlier_tx(states[n - 1], txs[n - 1]@, states.last())
        }),
{
    let txs = replay.block.transactions@;
    let n = position(txs, replay.tx_hash@);
    position_is_first(txs, replay.tx_hash@);
    if n > 0 {
        assert(earlier_tx(states[n - 1], txs[n - 1]@, states[n - 1 + 1]));
    }
}

/// A replay leaves the selection and every fork but the active one as they were, after each
/// transaction and at its end.
pub proof fn replay_touches_only_the_active_fork(
    before: ForkerView,
    replay: AwaitingParentFork,
    states: Seq<ForkerView>,
    r: Result<RawCallResultView, ForkCallErrorView>,
    i: int,
    id: ForkIdView,
)
    requires
        replayed(before, replay, states, r),
        0 <= i < states.len(),
    ensures
        states[i].active == before.active,
        states[i].forks.dom() == before.forks.dom(),
        before.active != Some(id) ==> states[i].forks[id] == before.forks[id],
    decreases i,
{
    if i == 0 {
        assert(states[0].forks.dom() =~= before.forks.dom());
    } else {
        replay_touches_only_the_active_fork(before, replay, states, r, i - 1, id);
        let tx = replay.block.transactions@[i - 1]@;
        assert(earlier_tx(states[i - 1], tx, states[i - 1 + 1]));
        let done = choose|done: Result<RawCallResultView, ForkCallErrorView>| #[trigger]
            answered(states[i - 1], mined_call(tx), true, done, states[i]);
        call_touches_only_the_active_state(
            states[i - 1],
            mined_call(tx),
            true,
            done,
            states[i],
            id,
        );
    }
}

/// Every replay runs on the fork at the block before the transaction's, and starts from the state
/// that this fork was forked with: nothing that was committed to it before, by calls or by an
/// earlier replay, is there.
pub proof fn replay_starts_from_the_forked_state(
    before: ForkerView,
    replay: AwaitingParentFork,
    states: Seq<ForkerView>,
    r: Result<RawCallResultView, ForkCallErrorView>,
    id: ForkIdView,
)
    requires
        replayed(before, replay, states, r),
        before.active == Some(id),
    ensures
        id == (ForkIdView { url: replay.fork_url@, block: Some(replay.prev_block) }),
        states[0].forks[id].db == fresh_db(before.forks[id].db.backend),
{
}

/// Every state of a replay, and the result of its target, carries the environment of the replayed
/// block: the fork's own settings, and the block of the replayed height and header. The target's
/// result also carries its sender, receiver, calldata and value.
pub proof fn replay_stays_in_its_block(
    before: ForkerView,
    replay: AwaitingParentFork,
    states: Seq<ForkerView>,
    r: Result<RawCallResultView, ForkCallErrorView>,
    i: int,
    id: ForkIdView,
)
    requires
        replayed(before, replay, states, r),
        before.active == Some(id),
        0 <= i < states.len(),
    ensures
        ({
            let env = in_block(before.forks[id], replay.block_number, replay.block.header).env;
            let txs = replay.block.transactions@;
            let n = position(txs, replay.tx_hash@);
            &&& states[i].forks[id].env == env
            &&& states[i].forks[id].url == before.forks[id].url
            &&& states[i].forks[id].db.backend == before.forks[id].db.backend
            &&& r matches Ok(raw) ==> n < txs.len() && raw.env.cfg == env.cfg && raw.env.block
                == env.block && raw.env.tx.caller == txs[n]@.from && raw.env.tx.kind
                == txs[n]@.kind && raw.env.tx.data == txs[n]@.input && raw.env.tx.value
                == txs[n]@.value
        }),
{
    replay_state_stays_in_its_block(before, replay, states, r, i, id);
    let txs = replay.block.transactions@;
    let n = position(txs, replay.tx_hash@);
    position_is_first(txs, replay.tx_hash@);
    replay_state_stays_in_its_block(before, replay, states, r, n, id);
    replay_touches_only_the_active_fork(before, replay, states, r, n, id);
    if let Ok(raw) = r {
        let after = choose|after: ForkerView| #[trigger]
            answered(states.last(), mined_call(txs[n]@), false, r, after);
        result_carries_its_context(states.last(), mined_call(txs[n]@), false, raw, after);
    }
}

/// Every state of a replay carries the environment of the replayed block.
proof fn replay_state_stays_in_its_block(
    before: ForkerView,
    replay: AwaitingParentFork,
    states: Seq<ForkerView>,
    r: Result<RawCallResultView, ForkCallErrorView>,
    i: int,
    id: ForkIdView,
)
    requires
        replayed(before, replay, states, r),
        before.active == Some(id),
        0 <= i < states.len(),
    ensures
        states[i].forks[id].env == in_block(
            before.forks[id],
            replay.block_number,
            replay.block.header,
        ).env,
        states[i].forks[id].url == before.forks[id].url,
        states[i].forks[id].db.backend == before.forks[id].db.backend,
    decreases i,
{
    if i > 0 {
        replay_state_stays_in_its_block(before, replay, states, r, i - 1, id);
        replay_touches_only_the_active_fork(before, replay, states, r, i - 1, id);
        let tx = replay.block.transactions@[i - 1]@;
        assert(earlier_tx(states[i - 1], tx, states[i - 1 + 1]));
        let done = choose|done: Result<RawCallResultView, ForkCallErrorView>| #[trigger]
            answered(states[i - 1], mined_call(tx), true, done, states[i]);
        call_touches_only_the_active_state(
            states[i - 1],
            mined_call(tx),
            true,
            done,
            states[i],
            id,
        );
    }
}

/// A replay made again gives what it could give the first time: it enters the block in the same
/// state, so that every way for it to go is one that it could have gone before.
pub proof fn replay_again_is_the_same(
    before: ForkerView,
    replay: AwaitingParentFork,
    states: Seq<ForkerView>,
    r: Result<RawCallResultView, ForkCallErrorView>,
    again: Seq<ForkerView>,
    again_r: Result<RawCallResultView, ForkCallErrorView>,
)
    requires
        replayed(before, replay, states, r),
    ensures
        entered(states.last(), replay.block_number, replay.block.header) == entered(
            before,
            replay.block_number,
            replay.block.header,
        ),
        replayed(states.last(), replay, again, again_r) <==> replayed(
            before,
            replay,
            again,
            again_r,
        ),
{
    let id = before.active->Some_0;
    let last = states.len() - 1;
    replay_state_stays_in_its_block(before, replay, states, r, last, id);
    replay_touches_only_the_active_fork(before, replay, states, r, last, id);
    let one = entered(before, replay.block_number, replay.block.header);
    let two = entered(states.last(), replay.block_number, replay.block.header);
    assert forall|other: ForkIdView| other != id implies states.last().forks[other]
        == before.forks[other] by {
        replay_touches_only_the_active_fork(before, replay, states, r, last, other);
    }
    assert(two.forks =~= one.forks);
}

/// That replaying `replay` takes the forker from `before` through `states` and gives `r`, where
/// nothing fails on the way and `loads` are the states of the fork once all that each transaction
/// needs has been loaded.
pub open spec fn replay_settles(
    before: ForkerView,
    replay: AwaitingParentFork,
    loads: Seq<DbView>,
    states: Seq<ForkerView>,
    r: Result<RawCallResultView, ForkCallErrorView>,
) -> bool {
    let txs = replay.block.transactions@;
    let n = position(txs, replay.tx_hash@);
    &&& before.active == Some(replay.spec_parent())
    &&& before.forks.dom().contains(replay.spec_parent())
    &&& n < txs.len()
    &&& states.len() == n + 1
    &&& loads.len() == n + 1
    &&& states[0] == entered(before, replay.block_number, replay.block.header)
    &&& forall|i: int|
        0 <= i < n ==> #[trigger] settled_tx(states[i], txs[i]@, loads[i], states[i + 1])
    &&& exists|after: ForkerView| #[trigger]
        settles(states[n], mined_call(txs[n]@), false, loads[n], r, after)
}

/// That committing `tx` takes the forker from `before` to `after`, where nothing fails on the way
/// and `loaded` is loaded.
pub open spec fn settled_tx(
    before: ForkerView,
    tx: MinedTxView,
    loaded: DbView,
    after: ForkerView,
) -> bool {
    exists|r: Result<RawCallResultView, ForkCallErrorView>| #[trigger]
        settles(before, mined_call(tx), true, loaded, r, after)
}

/// A replay that settles is one that goes so.
pub proof fn settled_replay_is_replayed(
    before: ForkerView,
    replay: AwaitingParentFork,
    loads: Seq<DbView>,
    states: Seq<ForkerView>,
    r: Result<RawCallResultView, ForkCallErrorView>,
)
    requires
        replay_settles(before, replay, loads, states, r),
    ensures
        replayed(before, replay, states, r),
{
    let txs = replay.block.transactions@;
    let n = position(txs, replay.tx_hash@);
    position_is_first(txs, replay.tx_hash@);
    assert forall|i: int| 0 <= i < states.len() - 1 implies #[trigger] earlier_tx(
        states[i],
        txs[i]@,
        states[i + 1],
    ) by {
        assert(settled_tx(states[i], txs[i]@, loads[i], states[i + 1]));
        let done = choose|done: Result<RawCallResultView, ForkCallErrorView>| #[trigger]
            settles(states[i], mined_call(txs[i]@), true, loads[i], done, states[i + 1]);
        settled_call_is_answered(
            states[i],
            mined_call(txs[i]@),
            true,
            loads[i],
            done,
            states[i + 1],
        );
    }
    let after = choose|after: ForkerView| #[trigger]
        settles(states[n], mined_call(txs[n]@), false, loads[n], r, after);
    settled_call_is_answered(states[n], mined_call(txs[n]@), false, loads[n], r, after);
    assert(answered(states.last(), mined_call(txs[n]@), false, r, after));
}

/// Two replays of one transaction that load the same go through the same states.
proof fn equal_loads_give_equal_states(
    before: ForkerView,
    replay: AwaitingParentFork,
    loads: Seq<DbView>,
    first: Seq<ForkerView>,
    first_r: Result<RawCallResultView, ForkCallErrorView>,
    second: Seq<ForkerView>,
    second_r: Result<RawCallResultView, ForkCallErrorView>,
    i: int,
)
    requires
        replay_settles(before, replay, loads, first, first_r),
        replay_settles(before, replay, loads, second, second_r),
        0 <= i < first.len(),
    ensures
        first[i] == second[i],
    decreases i,
{
    if i > 0 {
        let j = i - 1;
        equal_loads_give_equal_states(
            before,
            replay,
            loads,
            first,
            first_r,
            second,
            second_r,
            j,
        );
        let tx = replay.block.transactions@[j]@;
        assert(settled_tx(first[j], tx, loads[j], first[j + 1]));
        assert(settled_tx(second[j], tx, loads[j], second[j + 1]));
        let one = choose|done: Result<RawCallResultView, ForkCallErrorView>| #[trigger]
            settles(first[j], mined_call(tx), true, loads[j], done, first[j + 1]);
        let two = choose|done: Result<RawCallResultView, ForkCallErrorView>| #[trigger]
            settles(second[j], mined_call(tx), true, loads[j], done, second[j + 1]);
        equal_calls_give_equal_results(
            first[j],
            mined_call(tx),
            loads[j],
            true,
            one,
            first[j + 1],
            true,
            two,
            second[j + 1],
        );
    }
}

/// Two replays of one transaction from one forker that load the same, and on which nothing fails,
/// go through the same states and give equal results.
pub proof fn equal_replays_give_equal_results(
    before: ForkerView,
    replay: AwaitingParentFork,
    loads: Seq<DbView>,
    first: Seq<ForkerView>,
    first_r: Result<RawCallResultView, ForkCallErrorView>,
    second: Seq<ForkerView>,
    second_r: Result<RawCallResultView, ForkCallErrorView>,
)
    requires
        replay_settles(before, replay, loads, first, first_r),
        replay_settles(before, replay, loads, second, second_r),
    ensures
        first == second,
        first_r == second_r,
{
    assert forall|i: int| 0 <= i < first.len() implies first[i] == second[i] by {
        equal_loads_give_equal_states(
            before,
            replay,
            loads,
            first,
            first_r,
            second,
            second_r,
            i,
        );
    }
    assert(first =~= second);
    let txs = replay.block.transactions@;
    let n = position(txs, replay.tx_hash@);
    let one = choose|after: ForkerView| #[trigger]
        settles(first[n], mined_call(txs[n]@), false, loads[n], first_r, after);
    let two = choose|after: ForkerView| #[trigger]
        settles(second[n], mined_call(txs[n]@), false, loads[n], second_r, after);
    equal_calls_give_equal_results(
        first[n],
        mined_call(txs[n]@),
        loads[n],
        false,
        first_r,
        one,
        false,
        second_r,
        two,
    );
}

/// A replay made again where all that is read is the same gives the same result: the second one
/// starts where the first one ended, goes through the same states and gives what the first one
/// gave.
pub proof fn repeated_replay_gives_the_same(
    before: ForkerView,
    replay: AwaitingParentFork,
    loads: Seq<DbView>,
    first: Seq<ForkerView>,
    first_r: Result<RawCallResultView, ForkCallErrorView>,
    second: Seq<ForkerView>,
    second_r: Result<RawCallResultView, ForkCallErrorView>,
)
    requires
        replay_settles(before, replay, loads, first, first_r),
        replay_settles(first.last(), replay, loads, second, second_r),
    ensures
        selected(first.last(), replay.spec_parent()) == first.last(),
        second == first,
        second_r == first_r,
{
    settled_replay_is_replayed(before, replay, loads, first, first_r);
    replay_again_is_the_same(before, replay, first, first_r, second, second_r);
    equal_replays_give_equal_results(before, replay, loads, first, first_r, second, second_r);
}

/// Two replays through the same states whose targets come to an end and leave the same behind give
/// equal results.
pub proof fn replays_through_equal_states_give_equal_results(
    before: ForkerView,
    replay: AwaitingParentFork,
    states: Seq<ForkerView>,
    first: RawCallResultView,
    second: RawCallResultView,
    after: ForkerView,
)
    requires
        replayed(before, replay, states, Ok(first)),
        replayed(before, replay, states, Ok(second)),
        ({
            let txs = replay.block.transactions@;
            let target = mined_call(txs[position(txs, replay.tx_hash@)]@);
            &&& answered(states.last(), target, false, Ok(first), after)
            &&& answered(states.last(), target, false, Ok(second), after)
        }),
    ensures
        first == second,
{
}

} // verus!
