use vstd::prelude::*;

use crate::error::ContractError;
use crate::msg::{AttrModel, ExecuteMsg, InstantiateMsg, PoolResponse, QueryMsg, Response};
use crate::state::{PoolModel, State};

verus! {

/// The pool created by initialization: exactly the identifiers and amounts of
/// the request.
pub open spec fn init_model(msg: InstantiateMsg) -> PoolModel {
    msg@
}

/// The snapshot returned by a read: the pool exactly as it stands.
pub open spec fn read_model(pool: PoolModel) -> PoolModel {
    pool
}

/// A swap crediting `token1` is allowed when the payout (equal to `amount` at
/// the fixed 1:1 rate) does not exceed the `token2` balance being paid out.
pub open spec fn swap_1_for_2_allowed(pool: PoolModel, amount: int) -> bool {
    amount <= pool.amount2
}

/// The pool after a swap crediting `token1`: the `token1` balance grows by
/// `amount`, the `token2` balance shrinks by the same payout; the identifiers
/// never change.
pub open spec fn swap_1_for_2_model(pool: PoolModel, amount: int) -> PoolModel {
    PoolModel {
        token1: pool.token1,
        token2: pool.token2,
        amount1: pool.amount1 + amount,
        amount2: pool.amount2 - amount,
    }
}

/// A swap crediting `token2` is allowed when the payout does not exceed the
/// `token1` balance being paid out.
pub open spec fn swap_2_for_1_allowed(pool: PoolModel, amount: int) -> bool {
    amount <= pool.amount1
}

/// The pool after a swap crediting `token2`.
pub open spec fn swap_2_for_1_model(pool: PoolModel, amount: int) -> PoolModel {
    PoolModel {
        token1: pool.token1,
        token2: pool.token2,
        amount1: pool.amount1 - amount,
        amount2: pool.amount2 + amount,
    }
}

/// Both updated balances of a swap crediting `token1` stay within `i32`.
/// Nothing restricts the sign of `amount`, so this is a genuine machine
/// limit, not a rule of the pool.
pub open spec fn swap_1_for_2_fits(pool: PoolModel, amount: int) -> bool {
    &&& i32::MIN <= pool.amount1 + amount <= i32::MAX
    &&& i32::MIN <= pool.amount2 - amount <= i32::MAX
}

/// Both updated balances of a swap crediting `token2` stay within `i32`.
pub open spec fn swap_2_for_1_fits(pool: PoolModel, amount: int) -> bool {
    &&& i32::MIN <= pool.amount1 - amount <= i32::MAX
    &&& i32::MIN <= pool.amount2 + amount <= i32::MAX
}

/// The response metadata of a mutating operation: the single `method`
/// attribute naming the operation.
pub open spec fn method_attrs(name: Seq<char>) -> Seq<AttrModel> {
    seq![AttrModel { key: "method"@, value: name }]
}

/// The response metadata of initialization: the `method` marker and the
/// identity of the deploying caller, recorded for host-level auditing.
pub open spec fn instantiate_attrs(sender: Seq<char>) -> Seq<AttrModel> {
    seq![
        AttrModel { key: "method"@, value: "instantiate"@ },
        AttrModel { key: "owner"@, value: sender },
    ]
}

/// Everything a swap crediting `token1` promises: success exactly when the
/// payout is covered, the exact balance movement on success, and an
/// `Unauthorized` failure that leaves the pool untouched otherwise.
pub open spec fn swap_1_for_2_post(
    before: PoolModel,
    after: PoolModel,
    r: Result<Response, ContractError>,
    amount: int,
) -> bool {
    &&& swap_1_for_2_allowed(before, amount) ==> {
        &&& r is Ok
        &&& (r->Ok_0)@ == method_attrs("GetToken1for2"@)
        &&& after == swap_1_for_2_model(before, amount)
    }
    &&& !swap_1_for_2_allowed(before, amount) ==> {
        &&& r == Err::<Response, ContractError>(ContractError::Unauthorized)
        &&& after == before
    }
}

/// Everything a swap crediting `token2` promises; the mirror image of
/// `swap_1_for_2_post`.
pub open spec fn swap_2_for_1_post(
    before: PoolModel,
    after: PoolModel,
    r: Result<Response, ContractError>,
    amount: int,
) -> bool {
    &&& swap_2_for_1_allowed(before, amount) ==> {
        &&& r is Ok
        &&& (r->Ok_0)@ == method_attrs("GetToken2for1"@)
        &&& after == swap_2_for_1_model(before, amount)
    }
    &&& !swap_2_for_1_allowed(before, amount) ==> {
        &&& r == Err::<Response, ContractError>(ContractError::Unauthorized)
        &&& after == before
    }
}

/// Creates the pool record from the request, without validating sign or
/// equality of the identifiers, and reports the method marker and the
/// deploying caller as response metadata.
pub fn instantiate(msg: InstantiateMsg, sender: String) -> (r: (State, Response))
    ensures
        r.0@ == init_model(msg),
        r.1@ == instantiate_attrs(sender@),
{
    let ghost requested: PoolModel = msg@;
    let ghost requester: Seq<char> = sender@;
    let InstantiateMsg { token1, token2, amount1, amount2 } = msg;
    let state = State { token1, token2, amount1, amount2 };
    let response = Response::new()
        .add_attribute(String::from_str("method"), String::from_str("instantiate"))
        .add_attribute(String::from_str("owner"), sender);
    proof {
        assert(state@ =~= requested);
        assert(response@ =~= instantiate_attrs(requester));
    }
    (state, response)
}

/// Dispatches a swap request to the operation it names.
pub fn execute(state: &mut State, msg: ExecuteMsg) -> (r: Result<Response, ContractError>)
    requires
        msg matches ExecuteMsg::GetToken1for2 { token1 } ==> (swap_1_for_2_allowed(
            old(state)@,
            token1 as int,
        ) ==> swap_1_for_2_fits(old(state)@, token1 as int)),
        msg matches ExecuteMsg::GetToken2for1 { token2 } ==> (swap_2_for_1_allowed(
            old(state)@,
            token2 as int,
        ) ==> swap_2_for_1_fits(old(state)@, token2 as int)),
    ensures
        msg matches ExecuteMsg::GetToken1for2 { token1 } ==> swap_1_for_2_post(
            old(state)@,
            final(state)@,
            r,
            token1 as int,
        ),
        msg matches ExecuteMsg::GetToken2for1 { token2 } ==> swap_2_for_1_post(
            old(state)@,
            final(state)@,
            r,
            token2 as int,
        ),
{
    match msg {
        ExecuteMsg::GetToken1for2 { token1 } => Get_Token1for2(state, token1),
        ExecuteMsg::GetToken2for1 { token2 } => Get_Token2for1(state, token2),
    }
}

/// Swaps `amount` units of `token2` liquidity for `token1` credit: the
/// `token1` balance grows by `amount`, the `token2` balance pays out the same
/// amount at the fixed 1:1 rate. Fails with `Unauthorized`, leaving the pool
/// untouched, when the payout exceeds the `token2` balance. A successful swap
/// preserves the sum of the two balances and never touches the identifiers.
#[allow(non_snake_case)]
pub fn Get_Token1for2(state: &mut State, amount: i32) -> (r: Result<Response, ContractError>)
    requires
        swap_1_for_2_allowed(old(state)@, amount as int) ==> swap_1_for_2_fits(
            old(state)@,
            amount as int,
        ),
    ensures
        swap_1_for_2_post(old(state)@, final(state)@, r, amount as int),
        final(state)@.amount1 + final(state)@.amount2 == old(state)@.amount1 + old(state)@.amount2,
        final(state)@.token1 == old(state)@.token1,
        final(state)@.token2 == old(state)@.token2,
{
    let exchange_rate: i32 = 1;
    let pool_amount: i32 = amount;
    let return_amount: i32 = pool_amount * exchange_rate;
    if return_amount > state.amount2 {
        return Err(ContractError::Unauthorized);
    }
    state.amount1 = state.amount1 + amount;
    state.amount2 = state.amount2 - return_amount;
    let response = Response::new().add_attribute(
        String::from_str("method"),
        String::from_str("GetToken1for2"),
    );
    proof {
        assert(state@ =~= swap_1_for_2_model(old(state)@, amount as int));
        assert(response@ =~= method_attrs("GetToken1for2"@));
    }
    Ok(response)
}

/// Swaps `amount` units of `token1` liquidity for `token2` credit; the mirror
/// image of `Get_Token1for2`, failing with `Unauthorized` and leaving the
/// pool untouched when the payout exceeds the `token1` balance.
#[allow(non_snake_case)]
pub fn Get_Token2for1(state: &mut State, amount: i32) -> (r: Result<Response, ContractError>)
    requires
        swap_2_for_1_allowed(old(state)@, amount as int) ==> swap_2_for_1_fits(
            old(state)@,
            amount as int,
        ),
    ensures
        swap_2_for_1_post(old(state)@, final(state)@, r, amount as int),
        final(state)@.amount1 + final(state)@.amount2 == old(state)@.amount1 + old(state)@.amount2,
        final(state)@.token1 == old(state)@.token1,
        final(state)@.token2 == old(state)@.token2,
{
    let exchange_rate: i32 = 1;
    let pool_amount: i32 = amount;
    let return_amount: i32 = pool_amount * exchange_rate;
    if return_amount > state.amount1 {
        return Err(ContractError::Unauthorized);
    }
    state.amount2 = state.amount2 + amount;
    state.amount1 = state.amount1 - return_amount;
    let response = Response::new().add_attribute(
        String::from_str("method"),
        String::from_str("GetToken2for1"),
    );
    proof {
        assert(state@ =~= swap_2_for_1_model(old(state)@, amount as int));
        assert(response@ =~= method_attrs("GetToken2for1"@));
    }
    Ok(response)
}

/// Answers a read request with a snapshot of the pool.
pub fn query(state: &State, msg: QueryMsg) -> (r: PoolResponse)
    ensures
        r@ == read_model(state@),
{
    match msg {
        QueryMsg::GetPool {} => getPool(state),
    }
}

/// Pure read: the identifiers and current amounts of both assets, exactly as
/// the pool holds them.
#[allow(non_snake_case)]
pub fn getPool(state: &State) -> (r: PoolResponse)
    ensures
        r@ == read_model(state@),
{
    let r = PoolResponse {
        token1: state.token1.clone(),
        token2: state.token2.clone(),
        amount1: state.amount1,
        amount2: state.amount2,
    };
    proof {
        assert(r@ =~= read_model(state@));
    }
    r
}

/// Reading the pool immediately after initialization returns exactly the
/// identifiers and amounts that the initialization request supplied.
pub proof fn law_init_then_read(msg: InstantiateMsg)
    ensures
        read_model(init_model(msg)) == msg@,
{
}

/// Two swaps in opposite directions with the same amount are inverses: either
/// composition restores the pool to its pre-swap state.
pub proof fn law_swaps_inverse(pool: PoolModel, amount: int)
    ensures
        swap_2_for_1_model(swap_1_for_2_model(pool, amount), amount) == pool,
        swap_1_for_2_model(swap_2_for_1_model(pool, amount), amount) == pool,
{
    assert(swap_2_for_1_model(swap_1_for_2_model(pool, amount), amount) =~= pool);
    assert(swap_1_for_2_model(swap_2_for_1_model(pool, amount), amount) =~= pool);
}

/// A swap in either direction moves the two balances together: the sum
/// `amount1 + amount2` is invariant across every successful swap.
pub proof fn law_swap_preserves_sum(pool: PoolModel, amount: int)
    ensures
        swap_1_for_2_model(pool, amount).amount1 + swap_1_for_2_model(pool, amount).amount2
            == pool.amount1 + pool.amount2,
        swap_2_for_1_model(pool, amount).amount1 + swap_2_for_1_model(pool, amount).amount2
            == pool.amount1 + pool.amount2,
{
}

} // verus!
