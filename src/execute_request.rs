//! A request to the contract runtime to execute the deploys of a block.

use crate::types::{Digest, ProtocolVersion};
use vstd::prelude::*;

verus! {

/// A request to execute deploys on top of a state. `D` is a deploy item, `X` the execution
/// result that stands in for a deploy that could not be turned into one, and `K` the proposer's
/// public key.
#[derive(Debug)]
pub struct ExecuteRequest<D, X, K> {
    pub parent_state_hash: Digest,
    pub block_time: u64,
    pub deploys: Vec<Result<D, X>>,
    pub protocol_version: ProtocolVersion,
    pub proposer: K,
}

impl<D, X, K> ExecuteRequest<D, X, K> {
    pub fn new(
        parent_state_hash: Digest,
        block_time: u64,
        deploys: Vec<Result<D, X>>,
        protocol_version: ProtocolVersion,
        proposer: K,
    ) -> (r: Self)
        ensures
            r.parent_state_hash == parent_state_hash,
            r.block_time == block_time,
            r.deploys@ == deploys@,
            r.protocol_version == protocol_version,
            r.proposer == proposer,
    {
        ExecuteRequest { parent_state_hash, block_time, deploys, protocol_version, proposer }
    }

    /// Takes the deploys out of the request, leaving none.
    pub fn take_deploys(&mut self) -> (r: Vec<Result<D, X>>)
        ensures
            r@ == old(self).deploys@,
            final(self).deploys@.len() == 0,
            final(self).parent_state_hash == old(self).parent_state_hash,
            final(self).block_time == old(self).block_time,
            final(self).protocol_version == old(self).protocol_version,
            final(self).proposer == old(self).proposer,
    {
        let mut taken: Vec<Result<D, X>> = Vec::new();
        std::mem::swap(&mut self.deploys, &mut taken);
        taken
    }
}

} // verus!
