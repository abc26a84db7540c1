//! Replaying a historical transaction in its real context.

use crate::env::{CallTarget, CallTargetView};
use crate::error::{
    executor_error, ForkCallError, ForkCallErrorView, ReplayTransactionError,
    ReplayTransactionErrorView,
};
use crate::evm::result_view;
use crate::fork::{in_block, BlockHeader, CallView, ForkIdView, NewForkedEvm};
use crate::forker::{answered, no_active_fork, selected, with_fork, Forker, ForkerView};
use crate::primitives::{hash_eq, Address, B256, U256};
use crate::result::{RawCallResult, RawCallResultView};
use crate::text::{decimal_text, hash_text, hex_text, number_text};
use foundry_fork_db::backend::SharedBackend;
use foundry_fork_db::error::DatabaseError;
use vstd::prelude::*;

verus! {

/// What is read of a mined transaction.
#[derive(Debug, Clone, PartialEq, Eq)]
pub struct MinedTx {
    /// Hash of the transaction.
    pub hash: B256,
    /// The sender.
    pub from: Address,
    /// What it was sent to.
    pub kind: CallTarget,
    /// Calldata.
    pub input: Vec<u8>,
    /// Value sent along.
    pub value: U256,
}

/// What a [`MinedTx`] holds.
pub struct MinedTxView {
    /// Hash of the transaction.
    pub hash: Seq<u8>,
    /// The sender.
    pub from: Seq<u8>,
    /// What it was sent to.
    pub kind: CallTargetView,
    /// Calldata.
    pub input: Seq<u8>,
    /// Value sent along.
    pub value: nat,
}

impl View for MinedTx {
    type V = MinedTxView;

    open spec fn view(&self) -> MinedTxView {
        MinedTxView {
            hash: self.hash@,
            from: self.from@,
            kind: self.kind@,
            input: self.input@,
            value: self.value@,
        }
    }
}

/// What is read of a mined block.
#[derive(Debug, Clone)]
pub struct MinedBlock {
    /// Header of the block.
    pub header: BlockHeader,
    /// Its transactions, in the order they were mined in.
    pub transactions: Vec<MinedTx>,
}

/// A replay that waits for its transaction.
pub struct AwaitingTransaction {
    /// Hash of the transaction to replay.
    pub tx_hash: B256,
    /// URL of the fork that the transaction is looked up on.
    pub fork_url: String,
    /// The backend to ask.
    pub backend: SharedBackend,
}

/// A replay that waits for the block its transaction is in.
pub struct AwaitingMinedBlock {
    /// Hash of the transaction to replay.
    pub tx_hash: B256,
    /// URL of the fork that the transaction is looked up on.
    pub fork_url: String,
    /// The backend to ask.
    pub backend: SharedBackend,
    /// Height of the block to ask for.
    pub block_number: u64,
    /// Height of the block before it.
    pub prev_block: u64,
}

/// A replay that waits for a fork at the block before its transaction's.
pub struct AwaitingParentFork {
    /// Hash of the transaction to replay.
    pub tx_hash: B256,
    /// URL of the fork that the transaction is looked up on.
    pub fork_url: String,
    /// Height of the block the transaction is in.
    pub block_number: u64,
    /// Height of the block before it.
    pub prev_block: u64,
    /// The block the transaction is in.
    pub block: MinedBlock,
}

/// The error of a replay.
pub open spec fn replay_error(error: ReplayTransactionErrorView) -> ForkCallErrorView {
    ForkCallErrorView::ReplayTransactionError(error)
}

impl AwaitingTransaction {
    /// Goes on with the backend's answer to which block the transaction is in.
    pub fn transaction(self, found: Result<Option<u64>, DatabaseError>) -> (r: Result<
        AwaitingMinedBlock,
        ForkCallError,
    >)
        ensures
            match found {
                Ok(Some(number)) => if number == 0 {
                    r matches Err(error) && error@ == replay_error(
                        ReplayTransactionErrorView::GenesisBlockReplay(
                            hex_text(self.tx_hash@),
                            self.fork_url@,
                        ),
                    )
                } else {
                    r matches Ok(next) && next.tx_hash == self.tx_hash && next.fork_url
                        == self.fork_url && next.backend == self.backend && next.block_number
                        == number && next.prev_block == number - 1
                },
                Ok(None) => r matches Err(error) && error@ == replay_error(
                    ReplayTransactionErrorView::NoBlockNumberFound(
                        hex_text(self.tx_hash@),
                        self.fork_url@,
                    ),
                ),
                Err(cause) => r matches Err(error) && error@ == replay_error(
                    ReplayTransactionErrorView::DatabaseError(
                        hex_text(self.tx_hash@),
                        self.fork_url@,
                        cause,
                    ),
                ),
            },
    {
        let mined_in = match found {
            Ok(mined_in) => mined_in,
            Err(cause) => {
                return Err(
                    ForkCallError::ReplayTransactionError(
                        ReplayTransactionError::DatabaseError(
                            hash_text(&self.tx_hash),
                            self.fork_url,
                            cause,
                        ),
                    ),
                );
            },
        };
        let block_number = match mined_in {
            Some(block_number) => block_number,
            None => {
                return Err(
                    ForkCallError::ReplayTransactionError(
                        ReplayTransactionError::NoBlockNumberFound(
                            hash_text(&self.tx_hash),
                            self.fork_url,
                        ),
                    ),
                );
            },
        };
        match block_number.checked_sub(1) {
            Some(prev_block) => Ok(
                AwaitingMinedBlock {
                    tx_hash: self.tx_hash,
                    fork_url: self.fork_url,
                    backend: self.backend,
                    block_number,
                    prev_block,
                },
            ),
            None => Err(
                ForkCallError::ReplayTransactionError(
                    ReplayTransactionError::GenesisBlockReplay(
                        hash_text(&self.tx_hash),
                        self.fork_url,
                    ),
                ),
            ),
        }
    }
}

impl AwaitingMinedBlock {
    /// Goes on with the backend's answer to what the block holds.
    pub fn block(self, found: Result<MinedBlock, DatabaseError>) -> (r: Result<
        AwaitingParentFork,
        ForkCallError,
    >)
        ensures
            match found {
                Ok(block) => r matches Ok(next) && next.tx_hash == self.tx_hash && next.fork_url
                    == self.fork_url && next.block_number == self.block_number && next.prev_block
                    == self.prev_block && next.block == block,
                Err(cause) => r matches Err(error) && error@ == replay_error(
                    ReplayTransactionErrorView::DatabaseError(
                        decimal_text(self.block_number as nat),
                        self.fork_url@,
                        cause,
                    ),
                ),
            },
    {
        match found {
            Ok(block) => Ok(
                AwaitingParentFork {
                    tx_hash: self.tx_hash,
                    fork_url: self.fork_url,
                    block_number: self.block_number,
                    prev_block: self.prev_block,
                    block,
                },
            ),
            Err(cause) => Err(
                ForkCallError::ReplayTransactionError(
                    ReplayTransactionError::DatabaseError(
                        number_text(self.block_number),
                        self.fork_url,
                        cause,
                    ),
                ),
            ),
        }
    }
}

impl AwaitingParentFork {
    /// The identifier of the fork that the block is replayed on: the one at the block before.
    pub open spec fn spec_parent(&self) -> ForkIdView {
        ForkIdView { url: self.fork_url@, block: Some(self.prev_block) }
    }

    /// The fork to add or select before the block is replayed.
    pub fn parent(&self) -> (r: NewForkedEvm)
        ensures
            r.spec_id() == self.spec_parent(),
    {
        NewForkedEvm {
            fork_url: self.fork_url.clone(),
            fork_block_number: Some(self.prev_block),
        }
    }
}

/// The call that a mined transaction is: from its sender to its receiver, or of a new contract,
/// with its calldata and value.
pub open spec fn mined_call(tx: MinedTxView) -> CallView {
    CallView { from: tx.from, to: tx.kind, data: tx.input, value: tx.value }
}

/// That replaying `tx` ahead of the target can take the forker from `before` to `after`: it is
/// committed, whatever comes of it.
pub open spec fn earlier_tx(before: ForkerView, tx: MinedTxView, after: ForkerView) -> bool {
    exists|r: Result<RawCallResultView, ForkCallErrorView>| #[trigger]
        answered(before, mined_call(tx), true, r, after)
}

/// Where the transaction with the hash `hash` first is among `txs`, or their number if it is not.
pub open spec fn position(txs: Seq<MinedTx>, hash: Seq<u8>) -> int
    decreases txs.len(),
{
    if txs.len() == 0 {
        0
    } else if txs[0]@.hash == hash {
        0
    } else {
        1 + position(txs.drop_first(), hash)
    }
}

/// That `states` can be the states a forker goes through while the first transactions of `txs` are
/// replayed one after the other: one state more than there are transactions replayed.
pub open spec fn replays(states: Seq<ForkerView>, txs: Seq<MinedTx>) -> bool {
    &&& 1 <= states.len() <= txs.len() + 1
    &&& forall|i: int|
        0 <= i < states.len() - 1 ==> #[trigger] earlier_tx(states[i], txs[i]@, states[i + 1])
}

/// The forker with its active fork taken into the block of height `number` with the header
/// `header`, on the state that it was forked with.
pub open spec fn entered(forker: ForkerView, number: u64, header: BlockHeader) -> ForkerView {
    match forker.active {
        Some(id) => with_fork(forker, id, in_block(forker.forks[id], number, header)),
        None => forker,
    }
}

/// That replaying `replay` can take the forker from `before`, with the fork at the block before
/// selected, to the last of `states` and give `r`: the block is entered, the transactions ahead of
/// the target are replayed in order, and the target, if the block has it, runs on what they left,
/// without leaving anything itself.
pub open spec fn replayed(
    before: ForkerView,
    replay: AwaitingParentFork,
    states: Seq<ForkerView>,
    r: Result<RawCallResultView, ForkCallErrorView>,
) -> bool {
    let txs = replay.block.transactions@;
    let n = position(txs, replay.tx_hash@);
    &&& before.active == Some(replay.spec_parent())
    &&& before.forks.dom().contains(replay.spec_parent())
    &&& replays(states, txs)
    &&& states.len() == n + 1
    &&& states[0] == entered(before, replay.block_number, replay.block.header)
    &&& if n < txs.len() {
        exists|after: ForkerView| #[trigger]
            answered(states.last(), mined_call(txs[n]@), false, r, after)
    } else {
        r == Err::<RawCallResultView, _>(
            replay_error(
                ReplayTransactionErrorView::TransactionNotFound(
                    hex_text(replay.tx_hash@),
                    replay.fork_url@,
                ),
            ),
        )
    }
}

/// Where a transaction is that the ones ahead of it are not.
proof fn position_at(txs: Seq<MinedTx>, hash: Seq<u8>, n: int)
    requires
        0 <= n <= txs.len(),
        forall|i: int| 0 <= i < n ==> (#[trigger] txs[i])@.hash != hash,
        n < txs.len() ==> txs[n]@.hash == hash,
    ensures
        position(txs, hash) == n,
    decreases n,
{
    if n > 0 {
        let rest = txs.drop_first();
        assert forall|i: int| 0 <= i < n - 1 implies (#[trigger] rest[i])@.hash != hash by {
            assert(rest[i] == txs[i + 1]);
        }
        position_at(rest, hash, n - 1);
    }
}

impl Forker {
    /// Starts to replay a historical transaction: it is first looked up on the active fork.
    pub fn replay_transaction(&self, tx_hash: B256) -> (r: Result<
        AwaitingTransaction,
        ForkCallError,
    >)
        requires
            self.wf(),
        ensures
            match self@.active {
                Some(id) => r matches Ok(next) && next.tx_hash == tx_hash && next.fork_url@
                    == self@.forks[id].url && next.backend == self@.forks[id].db.backend,
                None => r matches Err(error) && error@ == no_active_fork(),
            },
    {
        match self.active_fork() {
            Ok(fork) => Ok(
                AwaitingTransaction {
                    tx_hash,
                    fork_url: fork.url().clone(),
                    backend: fork.backend(),
                },
            ),
            Err(error) => Err(error),
        }
    }

    /// Ends a replay, once the fork at the block before the transaction's has been added: selects
    /// that fork, takes it, on the state it was forked with, into the block the transaction is in,
    /// replays every transaction mined before it, and executes it. What calls had committed to that
    /// fork is dropped. Where the fork is not there, nothing is changed.
    pub fn replay_block(&mut self, replay: AwaitingParentFork) -> (r: Result<
        RawCallResult,
        ForkCallError,
    >)
        requires
            old(self).wf(),
            replay.prev_block + 1 == replay.block_number,
        ensures
            final(self).wf(),
            if old(self)@.forks.dom().contains(replay.spec_parent()) {
                exists|states: Seq<ForkerView>|
                    {
                        &&& #[trigger] replayed(
                            selected(old(self)@, replay.spec_parent()),
                            replay,
                            states,
                            result_view(r),
                        )
                        &&& final(self)@ == states.last()
                    }
            } else {
                &&& r matches Err(error)
                &&& error@ == no_active_fork()
                &&& final(self)@ == old(self)@
            },
    {
        if !self.select(replay.parent().id()) {
            return Err(executor_error("no active fork!"));
        }
        let ghost before = self@;
        match self.active_fork_mut() {
            Ok(fork) => fork.enter_block(replay.block_number, &replay.block.header),
            Err(error) => {
                return Err(error);
            },
        }
        let txs = &replay.block.transactions;
        let ghost mut states: Seq<ForkerView> = seq![self@];
        let mut i: usize = 0;
        while i < txs.len()
            invariant
                i <= txs@.len(),
                txs@ == replay.block.transactions@,
                self.wf(),
                before == selected(old(self)@, replay.spec_parent()),
                old(self)@.forks.dom().contains(replay.spec_parent()),
                states.len() == i + 1,
                states.last() == self@,
                states[0] == entered(before, replay.block_number, replay.block.header),
                replays(states, txs@),
                forall|j: int| 0 <= j < i ==> (#[trigger] txs@[j])@.hash != replay.tx_hash@,
            decreases txs@.len() - i,
        {
            let tx = &txs[i];
            if hash_eq(&tx.hash, &replay.tx_hash) {
                let r = self.read(tx.from, tx.kind, tx.input.as_slice(), tx.value);
                proof {
                    position_at(txs@, replay.tx_hash@, i as int);
                    assert(replayed(before, replay, states, result_view(r)));
                }
                return r;
            }
            let ghost start = self@;
            let done = self.write(tx.from, tx.kind, tx.input.as_slice(), tx.value);
            proof {
                assert(answered(start, mined_call(tx@), true, result_view(done), self@));
                assert(earlier_tx(start, tx@, self@));
                let more = states.push(self@);
                assert forall|j: int| 0 <= j < more.len() - 1 implies #[trigger] earlier_tx(
                    more[j],
                    txs@[j]@,
                    more[j + 1],
                ) by {
                    if j < states.len() - 1 {
                        assert(earlier_tx(states[j], txs@[j]@, states[j + 1]));
                    }
                }
                states = more;
            }
            i += 1;
        }
        let text = hash_text(&replay.tx_hash);
        let fork_url = replay.fork_url.clone();
        let r: Result<RawCallResult, ForkCallError> = Err(
            ForkCallError::ReplayTransactionError(
                ReplayTransactionError::TransactionNotFound(text, fork_url),
            ),
        );
        proof {
            position_at(txs@, replay.tx_hash@, i as int);
            assert(replayed(before, replay, states, result_view(r)));
        }
        r
    }
}

} // verus!
