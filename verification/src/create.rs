//! Creating a fork, step by step: each step takes what the network answered and says what to ask
//! next.

use crate::env::{idle_tx, BlockContext, CallTx, ChainConfig, Env, EnvView};
use crate::error::{executor_error, ForkCallError, ForkCallErrorView};
use crate::fork::{
    fork_block, fork_cfg, fresh_fork, BlockHeader, BlockTag, Fork, ForkView, NewForkedEvm,
};
use foundry_fork_db::backend::SharedBackend;
use vstd::prelude::*;
use vstd::string::StringExecFns;

verus! {

/// What the `url` crate makes of a text: the URL it spells, or the text of the parse error.
pub uninterp spec fn parsed_url(text: Seq<char>) -> Result<Seq<char>, Seq<char>>;

/// Parses a URL with `Url::from_str` and gives it back in its normal spelling.
#[verifier::external_body]
fn parse_url(text: &str) -> (r: Result<String, String>)
    ensures
        text_result(r) == parsed_url(text@),
{
    text.parse::<url::Url>().map(String::from).map_err(|e| e.to_string())
}

/// What a text or the text of an error holds.
pub open spec fn text_result(r: Result<String, String>) -> Result<Seq<char>, Seq<char>> {
    match r {
        Ok(text) => Ok(text@),
        Err(text) => Err(text@),
    }
}

/// The error of a text that spells no URL, `text` being the parser's.
pub open spec fn invalid_url(text: Seq<char>) -> ForkCallErrorView {
    ForkCallErrorView::ExecutorError("invalid fork url: "@ + text)
}

/// A fork that waits for the network's chain id.
#[derive(Debug)]
pub struct AwaitingChainId {
    /// What is to be forked.
    pub args: NewForkedEvm,
    /// The environment to run calls against, if it is given.
    pub env: Option<Env>,
    /// The URL to connect to.
    pub endpoint: String,
}

/// A fork that waits for the block to fork from.
#[derive(Debug)]
pub struct AwaitingBlock {
    /// What is to be forked.
    pub args: NewForkedEvm,
    /// The environment to run calls against, if it is given.
    pub env: Option<Env>,
    /// Chain id of the network.
    pub chain_id: u64,
    /// The block to ask for.
    pub tag: BlockTag,
}

/// A fork that waits for a backend to load state from.
#[derive(Debug)]
pub struct AwaitingBackend {
    /// What is forked.
    pub args: NewForkedEvm,
    /// Height of the block to pin the backend at.
    pub block_number: u64,
    /// The block that the backend is made for.
    pub block: BlockContext,
    /// The environment to run calls against.
    pub env: Env,
}

/// The block to ask for: the newest one unless a height is given.
pub open spec fn block_tag(number: Option<u64>) -> BlockTag {
    match number {
        Some(n) => BlockTag::Number(n),
        None => BlockTag::Latest,
    }
}

/// What an optional environment holds.
pub open spec fn env_view(env: Option<Env>) -> Option<EnvView> {
    match env {
        Some(env) => Some(env@),
        None => None,
    }
}

/// The environment of a fork of the chain `chain_id` at the block with the header `header`: the one
/// that is given, or else the block's own.
pub open spec fn fork_env(given: Option<EnvView>, chain_id: u64, header: BlockHeader) -> EnvView {
    match given {
        Some(env) => env,
        None => EnvView { cfg: fork_cfg(chain_id), block: fork_block(header), tx: idle_tx() },
    }
}

impl AwaitingChainId {
    /// Starts to fork the network that `args` names: fails if its URL is none.
    pub fn start(args: NewForkedEvm, env: Option<Env>) -> (r: Result<
        AwaitingChainId,
        ForkCallError,
    >)
        ensures
            match parsed_url(args.fork_url@) {
                Ok(endpoint) => r matches Ok(next) && next.args == args && next.env == env
                    && next.endpoint@ == endpoint,
                Err(text) => r matches Err(error) && error@ == invalid_url(text),
            },
    {
        let parsed = parse_url(args.fork_url.as_str());
        AwaitingChainId::with_parsed(args, env, parsed)
    }

    /// Starts to fork the network that `args` names, given what parsing its URL gave.
    pub fn with_parsed(args: NewForkedEvm, env: Option<Env>, parsed: Result<String, String>) -> (r:
        Result<AwaitingChainId, ForkCallError>)
        ensures
            match parsed {
                Ok(endpoint) => r matches Ok(next) && next.args == args && next.env == env
                    && next.endpoint == endpoint,
                Err(text) => r matches Err(error) && error@ == invalid_url(text@),
            },
    {
        match parsed {
            Ok(endpoint) => Ok(AwaitingChainId { args, env, endpoint }),
            Err(text) => Err(
                ForkCallError::ExecutorError(
                    "invalid fork url: ".to_owned().concat(text.as_str()),
                ),
            ),
        }
    }

    /// Goes on with the network's answer to what its chain id is.
    pub fn chain_id(self, reply: Result<u64, String>) -> (r: Result<AwaitingBlock, ForkCallError>)
        ensures
            match reply {
                Ok(chain_id) => r matches Ok(next) && next.args == self.args && next.env
                    == self.env && next.chain_id == chain_id && next.tag == block_tag(
                    self.args.fork_block_number,
                ),
                Err(text) => r matches Err(error) && error@ == ForkCallErrorView::ExecutorError(
                    text@,
                ),
            },
    {
        let tag = match self.args.fork_block_number {
            Some(n) => BlockTag::Number(n),
            None => BlockTag::Latest,
        };
        match reply {
            Ok(chain_id) => Ok(
                AwaitingBlock { args: self.args, env: self.env, chain_id, tag },
            ),
            Err(text) => Err(ForkCallError::ExecutorError(text)),
        }
    }
}

impl AwaitingBlock {
    /// Goes on with the network's answer to what the block to fork from is.
    pub fn block(self, reply: Result<Option<BlockHeader>, String>) -> (r: Result<
        AwaitingBackend,
        ForkCallError,
    >)
        ensures
            match reply {
                Ok(Some(header)) => r matches Ok(next) && next.args == self.args
                    && next.block_number == header.number && next.block@ == fork_block(header)
                    && next.env@ == fork_env(env_view(self.env), self.chain_id, header),
                Ok(None) => r matches Err(error) && error@ == ForkCallErrorView::ExecutorError(
                    "fork block not found"@,
                ),
                Err(text) => r matches Err(error) && error@ == ForkCallErrorView::ExecutorError(
                    text@,
                ),
            },
            reply matches Ok(Some(header)) ==> r matches Ok(next) && {
                &&& self.env matches Some(given) ==> next.env == given && next.env@ == given@
                &&& self.env is None ==> next.env.block == next.block && next.env.cfg.chain_id
                    == self.chain_id
                &&& next.block.number@ == header.number
                &&& next.block.beneficiary == header.beneficiary
                &&& next.block.timestamp@ == header.timestamp
                &&& next.block.gas_limit == header.gas_limit
                &&& header.base_fee_per_gas matches Some(fee) ==> next.block.basefee == fee
                &&& header.base_fee_per_gas is None ==> next.block.basefee == 0
                &&& next.block.difficulty == header.difficulty
                &&& next.block.prevrandao == header.mix_hash
            },
    {
        let header = match reply {
            Ok(Some(header)) => header,
            Ok(None) => {
                return Err(executor_error("fork block not found"));
            },
            Err(text) => {
                return Err(ForkCallError::ExecutorError(text));
            },
        };
        let block = header.block_context();
        let env = match self.env {
            Some(env) => env,
            None => Env {
                cfg: ChainConfig::for_fork(self.chain_id),
                block,
                tx: CallTx::default(),
            },
        };
        Ok(AwaitingBackend { args: self.args, block_number: header.number, block, env })
    }
}

impl AwaitingBackend {
    /// The fork that loads its state from `backend`.
    pub open spec fn spec_finish(&self, backend: SharedBackend) -> ForkView {
        fresh_fork(backend, self.env@, self.args.fork_url@)
    }

    /// Puts the fork together on the backend that was made for it.
    pub fn finish(self, backend: SharedBackend) -> (r: Fork)
        ensures
            r.wf(),
            r@ == self.spec_finish(backend),
    {
        Fork::new(backend, self.env, self.args.fork_url)
    }
}

} // verus!
