//! The indexer's records and the decisions taken on them.

use vstd::prelude::*;
use vstd::string::*;
use crate::text::{decimal, decimal_digits, trim_end_slashes, trim_start_slashes,
    trim_leading_slashes, trim_trailing_slashes};

verus! {

/// How many transactions one page request asks for.
pub const PAGE_SIZE: u64 = 20;

/// A quantity of one token held in a box.
#[derive(Debug, Clone)]
pub struct TokenAmount {
    pub token_id: String,
    pub amount: u64,
}

/// One output of a transaction. `address` names who may spend it and
/// `value` is counted in the smallest unit of the coin.
#[derive(Debug, Clone)]
pub struct ErgoBox {
    pub value: u64,
    pub address: String,
    pub ergo_tree: String,
    pub assets: Vec<TokenAmount>,
    pub creation_height: u32,
    pub transaction_id: String,
    pub index: u16,
}

/// One page of a paginated answer, with the total the indexer reports.
#[derive(Debug, Clone)]
pub struct NodeAPIResponse<T> {
    pub items: T,
    pub total: u32,
}

/// A transaction as the indexer reports it. `id` identifies it.
#[derive(Debug, Clone)]
pub struct ErgoTransaction {
    pub id: String,
    pub inputs: Vec<ErgoBox>,
    pub outputs: Vec<ErgoBox>,
    pub num_confirmations: u32,
    pub inclusion_height: Option<u32>,
}

/// How far the indexer has come (`indexed_height`) and where the chain
/// tip stands (`full_height`).
#[derive(Debug, Clone, Copy)]
pub struct IndexedHeightResponse {
    pub indexed_height: u64,
    pub full_height: u64,
}

/// The sum of the values of those `outputs` that belong to `address`.
pub open spec fn incoming_value(outputs: Seq<ErgoBox>, address: Seq<char>) -> nat
    decreases outputs.len(),
{
    if outputs.len() == 0 {
        0
    } else {
        incoming_value(outputs.drop_last(), address) + if outputs.last().address@ == address {
            outputs.last().value as nat
        } else {
            0
        }
    }
}

/// `n` where it fits in 64 bits, else the largest 64-bit value.
pub open spec fn saturated(n: nat) -> u64 {
    if n <= u64::MAX {
        n as u64
    } else {
        u64::MAX
    }
}

/// What `tx` pays to `address`: the sum of the values of its outputs owned
/// by `address`, held at `u64::MAX` should the sum exceed it.
pub fn calc_incoming_value(tx: &ErgoTransaction, address: &String) -> (total: u64)
    ensures
        total == saturated(incoming_value(tx.outputs@, address@)),
        total == 0 <==> incoming_value(tx.outputs@, address@) == 0,
{
    let mut total: u64 = 0;
    let mut i: usize = 0;
    while i < tx.outputs.len()
        invariant
            i <= tx.outputs.len(),
            total == saturated(incoming_value(tx.outputs@.take(i as int), address@)),
        decreases tx.outputs.len() - i,
    {
        assert(tx.outputs@.take(i + 1).drop_last() =~= tx.outputs@.take(i as int));
        if tx.outputs[i].address == *address {
            let value: u64 = tx.outputs[i].value;
            total = if total > u64::MAX - value {
                u64::MAX
            } else {
                total + value
            };
        }
        i += 1;
    }
    assert(tx.outputs@.take(i as int) =~= tx.outputs@);
    total
}

/// `base` and `endpoint` joined by exactly one `/`.
pub open spec fn url_of(base: Seq<char>, endpoint: Seq<char>) -> Seq<char> {
    trim_end_slashes(base) + seq!['/'] + trim_start_slashes(endpoint)
}

/// Joins `base` and `endpoint` with a single `/` between them, whatever
/// slashes `base` ends with or `endpoint` begins with.
pub fn build_url(base: &str, endpoint: &str) -> (url: String)
    ensures
        url@ == url_of(base@, endpoint@),
{
    proof {
        reveal_strlit("/");
    }
    let mut url = String::from_str(trim_trailing_slashes(base));
    url.append("/");
    url.append(trim_leading_slashes(endpoint));
    assert(url@ =~= url_of(base@, endpoint@));
    url
}

/// The endpoint, under the indexer's base, that reports its heights.
pub open spec fn height_endpoint() -> Seq<char> {
    "blockchain/indexedHeight"@
}

/// The endpoint that lists an address's transactions from `offset` on,
/// `limit` at a time.
pub open spec fn transactions_endpoint(offset: u64, limit: u64) -> Seq<char> {
    "blockchain/transaction/byAddress?offset="@ + decimal_digits(offset as nat) + "&limit="@
        + decimal_digits(limit as nat)
}

/// The URL to ask for the indexer's heights.
pub fn indexed_height_url(base: &str) -> (url: String)
    ensures
        url@ == url_of(base@, height_endpoint()),
{
    build_url(base, "blockchain/indexedHeight")
}

/// The URL to ask for one page of an address's transactions.
pub fn transactions_url(base: &str, offset: u64, limit: u64) -> (url: String)
    ensures
        url@ == url_of(base@, transactions_endpoint(offset, limit)),
{
    let mut endpoint = String::from_str("blockchain/transaction/byAddress?offset=");
    let offset_text = decimal(offset);
    endpoint.append(offset_text.as_str());
    endpoint.append("&limit=");
    let limit_text = decimal(limit);
    endpoint.append(limit_text.as_str());
    build_url(base, endpoint.as_str())
}

/// Why a request to the indexer gave no answer to work with.
#[derive(Debug, Clone, Copy, PartialEq, Eq, Structural)]
pub enum FetchError {
    /// The request did not complete.
    Transport,
    /// The answer could not be read as the expected record.
    Decode,
}

/// Why the indexer is not fit to be watched.
#[derive(Debug, Clone, Copy, PartialEq, Eq, Structural)]
pub enum NodeError {
    /// Its heights could not be fetched.
    Fetch(FetchError),
    /// It has not caught up with the chain tip.
    NotFullyIndexed { indexed_height: u64, full_height: u64 },
}

/// The indexed height to act on: the reported one, or 0 where the request
/// failed. Height 0 tells the watcher to skip the cycle.
pub fn get_last_indexed_height(response: Result<IndexedHeightResponse, FetchError>) -> (height: u64)
    ensures
        height == match response {
            Ok(heights) => heights.indexed_height,
            Err(_) => 0,
        },
{
    match response {
        Ok(heights) => heights.indexed_height,
        Err(_) => 0,
    }
}

/// Accepts the indexer exactly when its heights were fetched and the
/// indexed height equals the full height.
pub fn check_node_index_status(response: Result<IndexedHeightResponse, FetchError>) -> (status:
    Result<(), NodeError>)
    ensures
        status == match response {
            Err(e) => Err::<(), NodeError>(NodeError::Fetch(e)),
            Ok(heights) => if heights.indexed_height == heights.full_height {
                Ok::<(), NodeError>(())
            } else {
                Err::<(), NodeError>(
                    (NodeError::NotFullyIndexed {
                        indexed_height: heights.indexed_height,
                        full_height: heights.full_height,
                    }),
                )
            },
        },
{
    match response {
        Err(e) => Err(NodeError::Fetch(e)),
        Ok(heights) => {
            if heights.indexed_height != heights.full_height {
                Err(
                    NodeError::NotFullyIndexed {
                        indexed_height: heights.indexed_height,
                        full_height: heights.full_height,
                    },
                )
            } else {
                Ok(())
            }
        },
    }
}

/// The text that reports `error`.
pub open spec fn node_error_text(error: NodeError) -> Seq<char> {
    match error {
        NodeError::Fetch(FetchError::Transport) => "Request to the node failed"@,
        NodeError::Fetch(FetchError::Decode) => "Answer of the node could not be decoded"@,
        NodeError::NotFullyIndexed { indexed_height, full_height } =>
            "Node is not fully indexed. Indexed height: "@ + decimal_digits(indexed_height as nat)
                + ", Full height: "@ + decimal_digits(full_height as nat),
    }
}

impl NodeError {
    /// A line for the operator that says what went wrong.
    pub fn message(&self) -> (text: String)
        ensures
            text@ == node_error_text(*self),
    {
        match self {
            NodeError::Fetch(FetchError::Transport) => String::from_str(
                "Request to the node failed",
            ),
            NodeError::Fetch(FetchError::Decode) => String::from_str(
                "Answer of the node could not be decoded",
            ),
            NodeError::NotFullyIndexed { indexed_height, full_height } => {
                let mut text = String::from_str("Node is not fully indexed. Indexed height: ");
                let indexed = decimal(*indexed_height);
                text.append(indexed.as_str());
                text.append(", Full height: ");
                let full = decimal(*full_height);
                text.append(full.as_str());
                text
            },
        }
    }
}

} // verus!
