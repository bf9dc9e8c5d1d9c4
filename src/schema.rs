//! The shapes of the log-indexing service's requests and answers.

use vstd::prelude::*;

verus! {

/// A position in the chain: a block number or one of the named positions.
#[derive(Clone, Debug, PartialEq, Eq)]
pub enum BlockTag {
    Number(u128),
    Latest,
    Earliest,
    Pending,
    Safe,
    Finalized,
}

/// One position of a topic filter: any of these topics matches.
pub type Topic = Vec<String>;

/// The set of providers that a query is sent to.
#[derive(Clone, Debug, PartialEq, Eq)]
pub enum RpcServices {
    EthMainnet,
    EthSepolia,
    ArbitrumOne,
    BaseMainnet,
    OptimismMainnet,
    Custom { chain_id: u64, services: Vec<String> },
}

/// One provider among those a query went to.
#[derive(Clone, Debug, PartialEq, Eq)]
pub enum RpcService {
    Provider(u64),
    Custom(String),
}

/// One emitted event, as the indexing service describes it.
#[derive(Clone, Debug, PartialEq, Eq)]
pub struct LogEntry {
    pub address: String,
    pub topics: Vec<String>,
    pub data: String,
    pub block_number: Option<u128>,
    pub block_hash: Option<String>,
    pub transaction_hash: Option<String>,
    pub transaction_index: Option<u128>,
    pub log_index: Option<u128>,
    pub removed: bool,
}

/// The query of one poll: which addresses, which blocks, which topics.
#[derive(Clone, Debug, PartialEq, Eq)]
pub struct GetLogsArgs {
    pub addresses: Vec<String>,
    pub from_block: Option<BlockTag>,
    pub to_block: Option<BlockTag>,
    pub topics: Option<Vec<Topic>>,
}

/// An error that the service itself reports for a query.
#[derive(Clone, Debug, PartialEq, Eq)]
pub enum RpcError {
    ProviderError(String),
    HttpOutcallError(String),
    JsonRpcError { code: i64, message: String },
    ValidationError(String),
}

/// What one provider, or all providers together, answered.
pub type GetLogsResult = Result<Vec<LogEntry>, RpcError>;

/// The service's answer over all providers asked.
#[derive(Debug, PartialEq, Eq)]
pub enum MultiGetLogsResult {
    /// Enough providers agreed on this one result.
    Consistent(GetLogsResult),
    /// The providers disagreed; each one's own result.
    Inconsistent(Vec<(RpcService, GetLogsResult)>),
}

/// A failure of the remote round trip itself: a rejection code and its message.
#[derive(Clone, Debug, PartialEq, Eq)]
pub struct TransportError {
    pub code: i32,
    pub message: String,
}

} // verus!
