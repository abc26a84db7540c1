//! The multi-fork EVM.

use crate::create::{invalid_url, parsed_url, AwaitingBackend, AwaitingChainId};
use crate::env::{CallTarget, CallTargetView, Env};
use crate::error::{executor_error, ForkCallError, ForkCallErrorView};
use crate::evm::result_view;
use crate::fork::{
    at_height, ran, CallView, Fork, ForkId, ForkIdView, ForkView, NewForkedEvm,
};
use crate::primitives::{address_from_slice, Address, ADDRESS_LEN, U256};
use crate::result::{RawCallResult, RawCallResultView};
use crate::typed::{decode_typed, step_view, typed_step, TypedStep};
use foundry_fork_db::backend::SharedBackend;
use vstd::prelude::*;

verus! {

/// A fork under its identifier.
struct ForkEntry {
    id: ForkId,
    fork: Fork,
}

/// Thin multi-fork EVM wrapper providing read/write calls, tracing, and historical transaction
/// replay over revm and foundry-fork-db.
pub struct Forker {
    forks: Vec<ForkEntry>,
    active: Option<ForkId>,
}

/// What a [`Forker`] holds.
#[verifier::ext_equal]
pub struct ForkerView {
    /// The forks, each under its identifier.
    pub forks: Map<ForkIdView, ForkView>,
    /// The fork that calls go to, if one is selected.
    pub active: Option<ForkIdView>,
}

/// Whether the entry at `i` is the one of `id`.
spec fn is_at(entries: Seq<ForkEntry>, id: ForkIdView, i: int) -> bool {
    0 <= i < entries.len() && entries[i].id@ == id
}

/// The forks that `entries` list, each under its identifier.
spec fn forks_map(entries: Seq<ForkEntry>) -> Map<ForkIdView, ForkView> {
    Map::new(
        |id: ForkIdView| exists|i: int| is_at(entries, id, i),
        |id: ForkIdView| entries[choose|i: int| is_at(entries, id, i)].fork@,
    )
}

/// No identifier is listed twice.
spec fn distinct(entries: Seq<ForkEntry>) -> bool {
    forall|i: int, j: int|
        0 <= i < j < entries.len() ==> (#[trigger] entries[i]).id@ != (#[trigger] entries[j]).id@
}

/// What an optional identifier holds.
pub open spec fn id_view(id: Option<ForkId>) -> Option<ForkIdView> {
    match id {
        Some(id) => Some(id@),
        None => None,
    }
}

impl View for Forker {
    type V = ForkerView;

    closed spec fn view(&self) -> ForkerView {
        ForkerView { forks: forks_map(self.forks@), active: id_view(self.active) }
    }
}

/// The entry at `i` is what the map has under its identifier.
proof fn forks_map_at(entries: Seq<ForkEntry>, i: int)
    requires
        distinct(entries),
        0 <= i < entries.len(),
    ensures
        forks_map(entries).dom().contains(entries[i].id@),
        forks_map(entries)[entries[i].id@] == entries[i].fork@,
{
    let id = entries[i].id@;
    assert(is_at(entries, id, i));
    let j = choose|j: int| is_at(entries, id, j);
    assert(is_at(entries, id, j));
    assert(i == j);
}

/// A list with one entry more lists one fork more.
proof fn forks_map_push(entries: Seq<ForkEntry>, entry: ForkEntry)
    requires
        distinct(entries),
        !forks_map(entries).dom().contains(entry.id@),
    ensures
        distinct(entries.push(entry)),
        forks_map(entries.push(entry)) == forks_map(entries).insert(entry.id@, entry.fork@),
{
    let more = entries.push(entry);
    assert forall|i: int, j: int| 0 <= i < j < more.len() implies (#[trigger] more[i]).id@ != (
    #[trigger] more[j]).id@ by {
        if j == entries.len() {
            assert(is_at(entries, entries[i].id@, i));
        }
    }
    assert forall|id: ForkIdView|
        forks_map(more).dom().contains(id) == forks_map(entries).insert(
            entry.id@,
            entry.fork@,
        ).dom().contains(id) by {
        if forks_map(more).dom().contains(id) {
            let i = choose|i: int| is_at(more, id, i);
            if i < entries.len() {
                assert(is_at(entries, id, i));
            }
        }
        if forks_map(entries).dom().contains(id) {
            let i = choose|i: int| is_at(entries, id, i);
            assert(is_at(more, id, i));
        }
        assert(is_at(more, entry.id@, entries.len() as int));
    }
    assert forall|id: ForkIdView| #[trigger] forks_map(more).dom().contains(id) implies forks_map(
        more,
    )[id] == forks_map(entries).insert(entry.id@, entry.fork@)[id] by {
        let i = choose|i: int| is_at(more, id, i);
        forks_map_at(more, i);
        if i < entries.len() {
            forks_map_at(entries, i);
        }
    }
    assert(forks_map(more) =~= forks_map(entries).insert(entry.id@, entry.fork@));
}

/// A list whose entry at `i` changes its fork lists the new fork in place of the old one.
proof fn forks_map_update(entries: Seq<ForkEntry>, i: int, entry: ForkEntry)
    requires
        distinct(entries),
        0 <= i < entries.len(),
        entry.id@ == entries[i].id@,
    ensures
        distinct(entries.update(i, entry)),
        forks_map(entries.update(i, entry)) == forks_map(entries).insert(entry.id@, entry.fork@),
{
    let other = entries.update(i, entry);
    assert(forall|j: int| 0 <= j < entries.len() ==> (#[trigger] other[j]).id@ == entries[j].id@);
    assert forall|id: ForkIdView|
        forks_map(other).dom().contains(id) == forks_map(entries).insert(
            entry.id@,
            entry.fork@,
        ).dom().contains(id) by {
        if forks_map(other).dom().contains(id) {
            let j = choose|j: int| is_at(other, id, j);
            assert(is_at(entries, id, j));
        }
        if forks_map(entries).dom().contains(id) {
            let j = choose|j: int| is_at(entries, id, j);
            assert(is_at(other, id, j));
        }
        assert(is_at(other, entry.id@, i));
    }
    assert forall|id: ForkIdView| #[trigger] forks_map(other).dom().contains(id) implies forks_map(
        other,
    )[id] == forks_map(entries).insert(entry.id@, entry.fork@)[id] by {
        let j = choose|j: int| is_at(other, id, j);
        forks_map_at(other, j);
        forks_map_at(entries, j);
    }
    assert(forks_map(other) =~= forks_map(entries).insert(entry.id@, entry.fork@));
}

/// A forker that has no fork.
pub open spec fn empty_forker() -> ForkerView {
    ForkerView { forks: Map::empty(), active: None }
}

/// The forker with `fork` put under `id` and selected.
pub open spec fn with_fork(forker: ForkerView, id: ForkIdView, fork: ForkView) -> ForkerView {
    ForkerView { forks: forker.forks.insert(id, fork), active: Some(id) }
}

/// The forker with the fork `id` selected.
pub open spec fn selected(forker: ForkerView, id: ForkIdView) -> ForkerView {
    ForkerView { active: Some(id), ..forker }
}

/// The forker with the active fork at the height `number`, if one is given.
pub open spec fn rolled(forker: ForkerView, number: Option<u64>) -> ForkerView {
    match (forker.active, number) {
        (Some(id), Some(number)) => with_fork(
            forker,
            id,
            at_height(forker.forks[id], number as nat),
        ),
        _ => forker,
    }
}

/// Whether the active fork, if one is selected, is there.
pub open spec fn active_is_there(forker: ForkerView) -> bool {
    forker.active matches Some(id) ==> forker.forks.dom().contains(id)
}

/// Whether a call's addresses are as long as addresses are.
pub open spec fn valid_addresses(call: CallView) -> bool {
    &&& call.from.len() == ADDRESS_LEN
    &&& call.to matches CallTargetView::Call(to) ==> to.len() == ADDRESS_LEN
}

/// The error of a call with an address that is not 20 bytes long.
pub open spec fn invalid_address() -> ForkCallErrorView {
    ForkCallErrorView::ExecutorError("invalid address!"@)
}

/// The error where no fork is selected.
pub open spec fn no_active_fork() -> ForkCallErrorView {
    ForkCallErrorView::ExecutorError("no active fork!"@)
}

/// That `call` on the forker `before`, with its changes kept or not as `commit` says, can give the
/// result `r` and leave the forker `after`. The addresses are looked at first; then the call runs
/// on the active fork, and only that fork changes.
pub open spec fn answered(
    before: ForkerView,
    call: CallView,
    commit: bool,
    r: Result<RawCallResultView, ForkCallErrorView>,
    after: ForkerView,
) -> bool {
    if !valid_addresses(call) {
        r == Err::<RawCallResultView, _>(invalid_address()) && after == before
    } else {
        match before.active {
            None => r == Err::<RawCallResultView, _>(no_active_fork()) && after == before,
            Some(id) => {
                &&& ran(before.forks[id], call, commit, r, after.forks[id])
                &&& after == with_fork(before, id, after.forks[id])
            },
        }
    }
}

/// Validates that both addresses are exactly 20 bytes and converts them.
pub fn validate_addresses(from: &[u8], to: &[u8]) -> (r: Result<(Address, Address), ForkCallError>)
    ensures
        r is Ok <==> from@.len() == ADDRESS_LEN && to@.len() == ADDRESS_LEN,
        r matches Ok((f, t)) ==> f@ == from@ && t@ == to@,
        r matches Err(error) ==> error@ == invalid_address(),
{
    if from.len() != ADDRESS_LEN || to.len() != ADDRESS_LEN {
        return Err(executor_error("invalid address!"));
    }
    Ok((address_from_slice(from), address_from_slice(to)))
}

/// The active fork of a well-formed forker is always there, so that it can be called.
pub proof fn active_fork_is_there(forker: Forker)
    requires
        forker.wf(),
    ensures
        active_is_there(forker@),
{
    if let Some(id) = forker.active {
        let i = choose|i: int| is_at(forker.forks@, id@, i);
        forks_map_at(forker.forks@, i);
    }
}

/// No fork is active exactly when there are no forks.
pub proof fn no_active_fork_iff_no_forks(forker: Forker)
    requires
        forker.wf(),
    ensures
        forker@.active is None <==> forker@.forks == Map::<ForkIdView, ForkView>::empty(),
{
    if forker.forks@.len() == 0 {
        assert(forker@.forks =~= Map::empty());
    } else {
        forks_map_at(forker.forks@, 0);
    }
}

impl Default for Forker {
    fn default() -> (r: Forker)
        ensures
            r.wf(),
            r@ == empty_forker(),
    {
        Forker::new_empty()
    }
}

impl Forker {
    /// No fork is listed twice, each fork is well formed, the selected fork is there, and one is
    /// selected as soon as there is one.
    pub closed spec fn wf(&self) -> bool {
        &&& distinct(self.forks@)
        &&& forall|i: int| 0 <= i < self.forks@.len() ==> (#[trigger] self.forks@[i]).fork.wf()
        &&& self.active matches Some(id) ==> exists|i: int| is_at(self.forks@, id@, i)
        &&& self.active is None <==> self.forks@.len() == 0
    }

    /// Creates a new empty `Forker` with no forks.
    pub fn new() -> (r: Result<Forker, ForkCallError>)
        ensures
            r matches Ok(forker) && forker.wf() && forker@ == empty_forker(),
    {
        Ok(Forker::new_empty())
    }

    fn new_empty() -> (r: Forker)
        ensures
            r.wf(),
            r@ == empty_forker(),
    {
        let r = Forker { forks: Vec::new(), active: None };
        assert(forks_map(r.forks@) =~= Map::empty());
        r
    }

    /// Where the entry of `id` is, if there is one.
    fn find(&self, id: &ForkId) -> (r: Option<usize>)
        ensures
            match r {
                Some(i) => is_at(self.forks@, id@, i as int),
                None => forall|i: int| !is_at(self.forks@, id@, i),
            },
    {
        let mut i: usize = 0;
        while i < self.forks.len()
            invariant
                i <= self.forks@.len(),
                forall|j: int| 0 <= j < i ==> !is_at(self.forks@, id@, j),
            decreases self.forks@.len() - i,
        {
            if self.forks[i].id.same(id) {
                return Some(i);
            }
            i += 1;
        }
        None
    }

    /// Selects the fork `id`, if it is there.
    pub(crate) fn select(&mut self, id: ForkId) -> (r: bool)
        requires
            old(self).wf(),
        ensures
            final(self).wf(),
            r == old(self)@.forks.dom().contains(id@),
            r ==> final(self)@ == selected(old(self)@, id@),
            !r ==> final(self)@ == old(self)@,
    {
        match self.find(&id) {
            Some(i) => {
                assert(is_at(self.forks@, id@, i as int));
                self.active = Some(id);
                true
            },
            None => false,
        }
    }

    /// Creates a `Forker` with a single active fork, once a backend for it has been made.
    pub fn new_with_fork(pending: AwaitingBackend, backend: SharedBackend) -> (r: Forker)
        ensures
            r.wf(),
            r@ == with_fork(
                empty_forker(),
                pending.args.spec_id(),
                pending.spec_finish(backend),
            ),
    {
        let mut forker = Forker::new_empty();
        forker.add(pending, backend);
        forker
    }

    /// Adds the fork that `pending` describes, once a backend for it has been made, and selects it.
    /// A fork that is already there is kept and selected.
    pub fn add(&mut self, pending: AwaitingBackend, backend: SharedBackend)
        requires
            old(self).wf(),
        ensures
            final(self).wf(),
            final(self)@ == if old(self)@.forks.dom().contains(pending.args.spec_id()) {
                selected(old(self)@, pending.args.spec_id())
            } else {
                with_fork(old(self)@, pending.args.spec_id(), pending.spec_finish(backend))
            },
    {
        let id = pending.args.id();
        if !self.select(id.copy()) {
            let entry = ForkEntry { id: id.copy(), fork: pending.finish(backend) };
            proof {
                forks_map_push(self.forks@, entry);
            }
            self.forks.push(entry);
            assert(is_at(self.forks@, id@, self.forks@.len() - 1));
            self.active = Some(id);
        }
    }

    /// Adds a new fork and selects it, or selects it if it already exists. Where the fork has yet
    /// to be made, the first step towards it is given back and nothing is changed; the last step
    /// hands it to [`Forker::add`].
    pub fn add_or_select(&mut self, args: NewForkedEvm, env: Option<Env>) -> (r: Result<
        Option<AwaitingChainId>,
        ForkCallError,
    >)
        requires
            old(self).wf(),
        ensures
            final(self).wf(),
            if old(self)@.forks.dom().contains(args.spec_id()) {
                &&& r matches Ok(None)
                &&& final(self)@ == selected(old(self)@, args.spec_id())
                &&& final(self)@.forks == old(self)@.forks
                &&& final(self)@.active == Some(
                    ForkIdView { url: args.fork_url@, block: args.fork_block_number },
                )
            } else {
                &&& final(self)@ == old(self)@
                &&& match parsed_url(args.fork_url@) {
                    Ok(endpoint) => r matches Ok(Some(next)) && next.args == args && next.env == env
                        && next.endpoint@ == endpoint,
                    Err(text) => r matches Err(error) && error@ == invalid_url(text),
                }
            },
    {
        if self.select(args.id()) {
            return Ok(None);
        }
        match AwaitingChainId::start(args, env) {
            Ok(next) => Ok(Some(next)),
            Err(error) => Err(error),
        }
    }

    /// The fork that calls go to.
    pub(crate) fn active_fork(&self) -> (r: Result<&Fork, ForkCallError>)
        requires
            self.wf(),
        ensures
            match self@.active {
                Some(id) => r matches Ok(fork) && fork.wf() && fork@ == self@.forks[id],
                None => r matches Err(error) && error@ == no_active_fork(),
            },
    {
        let id = match &self.active {
            Some(id) => id,
            None => {
                return Err(executor_error("no active fork!"));
            },
        };
        match self.find(id) {
            Some(i) => {
                proof {
                    forks_map_at(self.forks@, i as int);
                }
                Ok(&self.forks[i].fork)
            },
            None => Err(executor_error("no active fork!")),
        }
    }

    /// The fork that calls go to, to be changed in place.
    pub(crate) fn active_fork_mut(&mut self) -> (r: Result<&mut Fork, ForkCallError>)
        requires
            old(self).wf(),
        ensures
            match old(self)@.active {
                Some(id) => {
                    &&& r matches Ok(fork)
                    &&& fork.wf()
                    &&& fork@ == old(self)@.forks[id]
                    &&& final(self)@ == with_fork(old(self)@, id, final(fork)@)
                    &&& final(fork).wf() ==> final(self).wf()
                },
                None => {
                    &&& r matches Err(error)
                    &&& error@ == no_active_fork()
                    &&& *final(self) == *old(self)
                },
            },
    {
        let id = match &self.active {
            Some(id) => id.copy(),
            None => {
                return Err(executor_error("no active fork!"));
            },
        };
        match self.find(&id) {
            Some(i) => {
                proof {
                    forks_map_at(self.forks@, i as int);
                    let entries = self.forks@;
                    assert forall|entry: ForkEntry| entry.id == entries[i as int].id implies {
                        &&& distinct(#[trigger] entries.update(i as int, entry))
                        &&& forks_map(entries.update(i as int, entry)) == forks_map(entries).insert(
                            entry.id@,
                            entry.fork@,
                        )
                        &&& is_at(entries.update(i as int, entry), id@, i as int)
                    } by {
                        forks_map_update(entries, i as int, entry);
                    }
                }
                Ok(&mut self.forks[i].fork)
            },
            None => Err(executor_error("no active fork!")),
        }
    }

    /// Runs a call on the active fork without committing it.
    pub(crate) fn read(&self, from: Address, kind: CallTarget, calldata: &[u8], value: U256) -> (r:
        Result<RawCallResult, ForkCallError>)
        requires
            self.wf(),
        ensures
            exists|after: ForkerView| #[trigger]
                answered(
                    self@,
                    CallView { from: from@, to: kind@, data: calldata@, value: value@ },
                    false,
                    result_view(r),
                    after,
                ),
    {
        let ghost call = CallView { from: from@, to: kind@, data: calldata@, value: value@ };
        let fork = match self.active_fork() {
            Ok(fork) => fork,
            Err(error) => {
                let r: Result<RawCallResult, ForkCallError> = Err(error);
                assert(answered(self@, call, false, result_view(r), self@));
                return r;
            },
        };
        let r = fork.call(from, kind, calldata, value);
        proof {
            let after = choose|after: ForkView| #[trigger]
                ran(fork@, call, false, result_view(r), after);
            let id = self@.active->Some_0;
            assert(answered(self@, call, false, result_view(r), with_fork(self@, id, after)));
        }
        r
    }

    /// Runs a call on the active fork and commits it.
    pub(crate) fn write(
        &mut self,
        from: Address,
        kind: CallTarget,
        calldata: &[u8],
        value: U256,
    ) -> (r: Result<RawCallResult, ForkCallError>)
        requires
            old(self).wf(),
        ensures
            final(self).wf(),
            answered(
                old(self)@,
                CallView { from: from@, to: kind@, data: calldata@, value: value@ },
                true,
                result_view(r),
                final(self)@,
            ),
    {
        match self.active_fork_mut() {
            Ok(fork) => fork.call_committing(from, kind, calldata, value),
            Err(error) => Err(error),
        }
    }

    /// Performs a read-only call against the current fork state (not committed).
    pub fn call(&self, from_address: &[u8], to_address: &[u8], calldata: &[u8]) -> (r: Result<
        RawCallResult,
        ForkCallError,
    >)
        requires
            self.wf(),
        ensures
            exists|after: ForkerView| #[trigger]
                answered(
                    self@,
                    CallView {
                        from: from_address@,
                        to: CallTargetView::Call(to_address@),
                        data: calldata@,
                        value: 0,
                    },
                    false,
                    result_view(r),
                    after,
                ),
            r matches Ok(raw) ==> {
                &&& raw@.env.tx.caller == from_address@
                &&& raw@.env.tx.kind == CallTargetView::Call(to_address@)
                &&& raw@.env.tx.data == calldata@
                &&& raw@.env.tx.value == 0
                &&& self@.active matches Some(id) && raw@.env.block == self@.forks[id].env.block
            },
    {
        let ghost call = CallView {
            from: from_address@,
            to: CallTargetView::Call(to_address@),
            data: calldata@,
            value: 0,
        };
        match validate_addresses(from_address, to_address) {
            Ok((from, to)) => self.read(from, CallTarget::Call(to), calldata, U256::zero()),
            Err(error) => {
                let r: Result<RawCallResult, ForkCallError> = Err(error);
                assert(answered(self@, call, false, result_view(r), self@));
                r
            },
        }
    }

    /// Performs a state-committing call against the current fork.
    pub fn call_committing(
        &mut self,
        from_address: &[u8],
        to_address: &[u8],
        calldata: &[u8],
        value: U256,
    ) -> (r: Result<RawCallResult, ForkCallError>)
        requires
            old(self).wf(),
        ensures
            final(self).wf(),
            answered(
                old(self)@,
                CallView {
                    from: from_address@,
                    to: CallTargetView::Call(to_address@),
                    data: calldata@,
                    value: value@,
                },
                true,
                result_view(r),
                final(self)@,
            ),
            r matches Ok(raw) ==> {
                &&& raw@.env.tx.caller == from_address@
                &&& raw@.env.tx.kind == CallTargetView::Call(to_address@)
                &&& raw@.env.tx.data == calldata@
                &&& raw@.env.tx.value == value@
                &&& old(self)@.active matches Some(id) && raw@.env.block
                    == old(self)@.forks[id].env.block
            },
            final(self)@.active == old(self)@.active,
    {
        match validate_addresses(from_address, to_address) {
            Ok((from, to)) => self.write(from, CallTarget::Call(to), calldata, value),
            Err(error) => Err(error),
        }
    }

    /// Calls the forked EVM without committing; `calldata` is the encoded typed call.
    pub fn alloy_call(
        &self,
        from_address: Address,
        to_address: Address,
        calldata: &[u8],
        decode_error: bool,
    ) -> (r: Result<TypedStep, ForkCallError>)
        requires
            self.wf(),
        ensures
            exists|raw: Result<RawCallResultView, ForkCallErrorView>, after: ForkerView|
                {
                    &&& #[trigger] answered(
                        self@,
                        CallView {
                            from: from_address@,
                            to: CallTargetView::Call(to_address@),
                            data: calldata@,
                            value: 0,
                        },
                        false,
                        raw,
                        after,
                    )
                    &&& step_view(r) == typed_step(raw, decode_error)
                },
    {
        match self.call(&from_address, &to_address, calldata) {
            Ok(raw) => decode_typed(raw, decode_error),
            Err(error) => Err(error),
        }
    }

    /// Writes to the forked EVM; `calldata` is the encoded typed call.
    pub fn alloy_call_committing(
        &mut self,
        from_address: Address,
        to_address: Address,
        calldata: &[u8],
        value: U256,
        decode_error: bool,
    ) -> (r: Result<TypedStep, ForkCallError>)
        requires
            old(self).wf(),
        ensures
            final(self).wf(),
            exists|raw: Result<RawCallResultView, ForkCallErrorView>|
                {
                    &&& #[trigger] answered(
                        old(self)@,
                        CallView {
                            from: from_address@,
                            to: CallTargetView::Call(to_address@),
                            data: calldata@,
                            value: value@,
                        },
                        true,
                        raw,
                        final(self)@,
                    )
                    &&& step_view(r) == typed_step(raw, decode_error)
                },
    {
        match self.call_committing(&from_address, &to_address, calldata, value) {
            Ok(raw) => decode_typed(raw, decode_error),
            Err(error) => Err(error),
        }
    }

    /// Rolls the active fork to a given block number (or leaves it unchanged if not provided),
    /// updating the block environment.
    pub fn roll_fork(&mut self, block_number: Option<u64>, _env: Option<Env>) -> (r: Result<
        (),
        ForkCallError,
    >)
        requires
            old(self).wf(),
        ensures
            final(self).wf(),
            match old(self)@.active {
                Some(id) => {
                    &&& r is Ok
                    &&& final(self)@ == rolled(old(self)@, block_number)
                    &&& final(self)@.active == Some(id)
                    &&& block_number matches Some(n) ==> final(self)@.forks[id].env.block.number
                        == n
                    &&& block_number is None ==> final(self)@ == old(self)@
                },
                None => {
                    &&& r matches Err(error)
                    &&& error@ == no_active_fork()
                    &&& final(self)@ == old(self)@
                },
            },
    {
        let fork = match self.active_fork_mut() {
            Ok(fork) => fork,
            Err(error) => {
                return Err(error);
            },
        };
        if let Some(block_number) = block_number {
            fork.set_block_number(block_number);
        }
        Ok(())
    }
}

} // verus!
