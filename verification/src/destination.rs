//! Where settled proceeds go.

use vstd::prelude::*;
use crate::math::Decimal;

verus! {

/// One recipient of a vault's proceeds: an address, the fraction of each
/// settlement it receives, and an optional forwarding instruction. When the
/// instruction is present, the share is handed to the address as a contract
/// call carrying that payload verbatim; when it is absent, the share is sent
/// as a plain transfer.
#[derive(Debug, PartialEq, Eq)]
pub struct Destination {
    pub address: String,
    pub allocation: Decimal,
    pub msg: Option<String>,
}

impl Clone for Destination {
    fn clone(&self) -> (r: Destination)
        ensures
            r == *self,
    {
        Destination {
            address: self.address.clone(),
            allocation: self.allocation,
            msg: match &self.msg {
                Some(m) => Some(m.clone()),
                None => None,
            },
        }
    }
}

/// Copies a destination list; the copy holds the same values.
pub fn clone_destinations(destinations: &Vec<Destination>) -> (r: Vec<Destination>)
    ensures
        r@ == destinations@,
{
    let mut out: Vec<Destination> = Vec::new();
    let mut i: usize = 0;
    while i < destinations.len()
        invariant
            i <= destinations.len(),
            out@ == destinations@.subrange(0, i as int),
        decreases destinations.len() - i,
    {
        out.push(destinations[i].clone());
        proof {
            assert(out@ =~= destinations@.subrange(0, i + 1));
        }
        i = i + 1;
    }
    proof {
        assert(out@ =~= destinations@);
    }
    out
}

} // verus!
