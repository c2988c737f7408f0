use vstd::prelude::*;

verus! {

/// The one failure the pool itself reports: a swap whose payout exceeds the
/// available balance of the asset being paid out. Storage and transport
/// failures belong to the host and are not modelled here.
#[derive(Clone, Copy, Debug, PartialEq, Eq, Structural)]
pub enum ContractError {
    Unauthorized,
}

} // verus!
