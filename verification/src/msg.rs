use vstd::prelude::*;

use crate::state::PoolModel;

verus! {

/// Request to create the pool: the two asset identifiers and the starting
/// balance of each.
pub struct InstantiateMsg {
    pub token1: String,
    pub token2: String,
    pub amount1: i32,
    pub amount2: i32,
}

impl View for InstantiateMsg {
    type V = PoolModel;

    open spec fn view(&self) -> PoolModel {
        PoolModel {
            token1: self.token1@,
            token2: self.token2@,
            amount1: self.amount1 as int,
            amount2: self.amount2 as int,
        }
    }
}

/// The two swap requests. The field carries the amount of the asset the
/// caller pays in; the pool pays the other asset out at a 1:1 rate.
#[derive(Clone, Copy, Debug, PartialEq, Eq, Structural)]
pub enum ExecuteMsg {
    GetToken1for2 { token1: i32 },
    GetToken2for1 { token2: i32 },
}

/// The one read request: a snapshot of the pool.
#[derive(Clone, Copy, Debug, PartialEq, Eq, Structural)]
pub enum QueryMsg {
    GetPool {},
}

/// Snapshot of the pool returned by a read: the identifiers and the current
/// balance of both assets.
pub struct PoolResponse {
    pub token1: String,
    pub token2: String,
    pub amount1: i32,
    pub amount2: i32,
}

impl View for PoolResponse {
    type V = PoolModel;

    open spec fn view(&self) -> PoolModel {
        PoolModel {
            token1: self.token1@,
            token2: self.token2@,
            amount1: self.amount1 as int,
            amount2: self.amount2 as int,
        }
    }
}

/// The model of one response attribute: a key and a value.
#[verifier::ext_equal]
pub ghost struct AttrModel {
    pub key: Seq<char>,
    pub value: Seq<char>,
}

/// One key-value pair of response metadata, recorded for host-level auditing.
#[derive(Debug)]
pub struct Attribute {
    pub key: String,
    pub value: String,
}

impl View for Attribute {
    type V = AttrModel;

    open spec fn view(&self) -> AttrModel {
        AttrModel { key: self.key@, value: self.value@ }
    }
}

/// The successful result of a mutating operation: only response metadata, as
/// the pool sends no messages of its own.
#[derive(Debug)]
pub struct Response {
    pub attributes: Vec<Attribute>,
}

impl View for Response {
    type V = Seq<AttrModel>;

    open spec fn view(&self) -> Seq<AttrModel> {
        self.attributes@.map_values(|a: Attribute| a@)
    }
}

impl Response {
    /// An empty response, carrying no attributes yet.
    pub fn new() -> (r: Response)
        ensures
            r@ == Seq::<AttrModel>::empty(),
    {
        let r = Response { attributes: Vec::new() };
        proof {
            assert(r@ =~= Seq::<AttrModel>::empty());
        }
        r
    }

    /// Appends one key-value attribute to the response metadata.
    pub fn add_attribute(self, key: String, value: String) -> (r: Response)
        ensures
            r@ == self@.push(AttrModel { key: key@, value: value@ }),
    {
        let ghost prior = self@;
        let ghost pushed = AttrModel { key: key@, value: value@ };
        let mut attributes = self.attributes;
        attributes.push(Attribute { key, value });
        let r = Response { attributes };
        proof {
            assert(r@ =~= prior.push(pushed));
        }
        r
    }
}

} // verus!
