use vstd::prelude::*;

verus! {

/// What `instantiate` is given: nothing.
#[derive(Clone, Copy, Debug, PartialEq, Eq, Structural)]
pub struct InstantiateMsg {}

/// The calls that a user can make on the contract.
#[derive(Clone, Debug, PartialEq, Eq)]
pub enum ExecuteMsg {
    /// Issue two fungible tokens that share `precision` and `amount`.
    Issue { symbol: String, subunit: String, precision: u32, amount: u128 },
}

/// The questions that the contract answers.
#[derive(Clone, Debug, PartialEq, Eq)]
pub enum QueryMsg {
    /// The number of reply callbacks since the last issue.
    GetCount {},
    /// The issuer of a token, as the asset module knows it.
    GetInfo { denom: String },
}

#[derive(Clone, Copy, Debug, PartialEq, Eq, Structural)]
pub struct CountResponse {
    pub count: i32,
}

#[derive(Clone, Debug, PartialEq, Eq)]
pub struct InfoResponse {
    pub issuer: String,
}

/// A message for the asset module.
#[derive(Clone, Debug, PartialEq, Eq)]
pub enum AssetMsg {
    AssetFTMsgIssue { symbol: String, subunit: String, precision: u32, initial_amount: u128 },
}

/// A query for the asset module.
#[derive(Clone, Debug, PartialEq, Eq)]
pub enum AssetQuery {
    AssetFTGetToken { denom: String },
}

/// What the asset module answers to `AssetFTGetToken`.
#[derive(Clone, Debug, PartialEq, Eq)]
pub struct FungibleTokenResponse {
    pub issuer: String,
}

/// When the host is to call back `reply` after running a submessage.
#[derive(Clone, Copy, Debug, PartialEq, Eq, Structural)]
pub enum ReplyOn {
    Always,
    Error,
    Success,
    Never,
}

/// A message handed to the host to run on the contract's behalf.
#[derive(Clone, Debug, PartialEq, Eq)]
pub struct SubMsg {
    pub id: u64,
    pub msg: AssetMsg,
    pub reply_on: ReplyOn,
}

/// A key and a value that a response reports.
#[derive(Clone, Debug, PartialEq, Eq)]
pub struct Attribute {
    pub key: String,
    pub value: String,
}

/// What an entry point hands back to the host.
#[derive(Clone, Debug, PartialEq, Eq)]
pub struct Response {
    pub attributes: Vec<Attribute>,
    pub messages: Vec<SubMsg>,
}

/// The host's notice that a submessage has finished. Its content is not read.
#[derive(Clone, Copy, Debug, PartialEq, Eq, Structural)]
pub struct Reply {
    pub id: u64,
    pub succeeded: bool,
}

impl Response {
    pub fn new() -> (r: Response)
        ensures
            r.attributes@.len() == 0,
            r.messages@.len() == 0,
    {
        Response { attributes: Vec::new(), messages: Vec::new() }
    }

    pub fn add_attribute(self, key: &str, value: String) -> (r: Response)
        ensures
            r.attributes@.len() == self.attributes@.len() + 1,
            r.attributes@.drop_last() == self.attributes@,
            r.attributes@.last().key@ == key@,
            r.attributes@.last().value == value,
            r.messages@ == self.messages@,
    {
        let mut r = self;
        r.attributes.push(Attribute { key: String::from_str(key), value });
        r
    }

    pub fn add_submessage(self, m: SubMsg) -> (r: Response)
        ensures
            r.attributes@ == self.attributes@,
            r.messages@ == self.messages@.push(m),
    {
        let mut r = self;
        r.messages.push(m);
        r
    }
}

} // verus!
