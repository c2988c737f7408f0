use vstd::prelude::*;

verus! {

/// The mathematical model of the pool: the two asset identifiers and the two
/// balances, as a sequence of characters and unbounded integers each.
#[verifier::ext_equal]
pub ghost struct PoolModel {
    pub token1: Seq<char>,
    pub token2: Seq<char>,
    pub amount1: int,
    pub amount2: int,
}

/// The sole persistent entity: two asset identifiers fixed at creation and
/// the current balance of each asset.
pub struct State {
    pub token1: String,
    pub token2: String,
    pub amount1: i32,
    pub amount2: i32,
}

impl View for State {
    type V = PoolModel;

    open spec fn view(&self) -> PoolModel {
        PoolModel {
            token1: self.token1@,
            token2: self.token2@,
            amount1: self.amount1 as int,
            amount2: self.amount2 as int,
        }
    }
}

} // verus!
