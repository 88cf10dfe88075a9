//! Immutable snapshots observed from the node and the fee service, and the
//! client handle that names where they come from.
//!
//! Each fetch produces a fresh value; nothing here is mutated in place. The
//! transport that obtains these values lives outside the library: the
//! pollers receive them as plain data.

use vstd::prelude::*;

verus! {

/// Snapshot of the node's current chain state. `height` is the best-known
/// block height; `verification_progress_ppm` is the node's sync progress in
/// parts per million (auxiliary, never consulted by the pollers).
#[derive(Clone, Copy, PartialEq, Eq, Structural, Debug)]
pub struct ChainState {
    pub height: u64,
    pub verification_progress_ppm: u64,
}

/// Aggregate statistics for one specific block, keyed by the height that
/// produced it. `total_fee` and `txs` are representative aggregates.
#[derive(Clone, Copy, PartialEq, Eq, Structural, Debug)]
pub struct BlockStats {
    pub height: u64,
    pub total_fee: u64,
    pub txs: u64,
}

/// Recommended fee rates bucketed by desired confirmation speed. All tiers
/// are non-negative fee rates; no ordering between tiers is enforced here.
#[derive(Clone, Copy, PartialEq, Eq, Structural, Debug)]
pub struct RecommendedFee {
    pub fastest_fee: u64,
    pub half_hour_fee: u64,
    pub hour_fee: u64,
    pub economy_fee: u64,
    pub minimum_fee: u64,
}

/// Envelope of a JSON-RPC reply: the payload together with the remote
/// error text and request id, as the node reports them.
pub struct BitcoinRpcResponse<T> {
    pub result: T,
    pub error: Option<String>,
    pub id: Option<String>,
}

impl<T> BitcoinRpcResponse<T> {
    /// Unwrap the envelope: the payload is taken as-is, whatever the
    /// remote error field holds.
    pub fn into_result(self) -> (r: T)
        ensures
            r == self.result,
    {
        self.result
    }
}

/// Handle naming the node's RPC endpoint. The transport that uses it is an
/// external collaborator; the core only carries the address.
#[derive(Clone)]
pub struct BitcoinClient {
    pub rpc_url: String,
}

impl BitcoinClient {
    /// A client for the given RPC endpoint.
    pub fn new(rpc_url: &str) -> (c: Self)
        ensures
            c.rpc_url@ == rpc_url@,
    {
        BitcoinClient { rpc_url: rpc_url.to_owned() }
    }
}

} // verus!
