//! Plain value types shared across the contract core.
//!
//! The host runtime owns the real token transfers and the wire
//! encoding; these types carry the same information as plain values
//! so the handlers can be specified and verified over them.

use vstd::prelude::*;
use vstd::string::StringExecFns;

verus! {

/// Compare two strings by their character sequences.
pub fn string_eq(a: &String, b: &String) -> (r: bool)
    ensures
        r == (a@ == b@),
{
    a.eq(b)
}

/// Compare a string against a literal.
pub fn string_matches(s: &String, lit: &str) -> (r: bool)
    ensures
        r == (s@ == lit@),
{
    let other = String::from_str(lit);
    s.eq(&other)
}

/// A quantity of one native token: `amount` units of `denom`.
#[derive(Clone, Debug, PartialEq, Eq)]
pub struct Coin {
    pub denom: String,
    pub amount: u128,
}

impl Coin {
    pub fn new(amount: u128, denom: &str) -> (c: Coin)
        ensures
            c.amount == amount,
            c.denom@ == denom@,
    {
        Coin { denom: String::from_str(denom), amount }
    }
}

/// One observability key/value pair attached to a response.
#[derive(Clone, Debug, PartialEq, Eq)]
pub struct Attribute {
    pub key: String,
    pub value: String,
}

impl Attribute {
    pub fn new(key: &str, value: String) -> (a: Attribute)
        ensures
            a.key@ == key@,
            a.value == value,
    {
        Attribute { key: String::from_str(key), value }
    }
}

/// Holds when an attribute carries exactly this key and value.
pub open spec fn attr_is(a: Attribute, key: Seq<char>, value: Seq<char>) -> bool {
    a.key@ == key && a.value@ == value
}

/// An outbound instruction returned to the host, executed by it after
/// this call commits.  The core never performs transfers itself.
#[derive(Clone, Debug, PartialEq, Eq)]
pub enum OutMsg {
    /// Transfer `amount` to `to_address`.
    BankSend { to_address: String, amount: Vec<Coin> },
    /// Call the parent program's own donate handler, attaching `funds`.
    DonateToParent { contract_addr: String, funds: Vec<Coin> },
}

/// What a handler returns to the host: outbound instructions plus
/// observability attributes.
#[derive(Clone, Debug, PartialEq, Eq)]
pub struct Response {
    pub messages: Vec<OutMsg>,
    pub attributes: Vec<Attribute>,
}

impl Response {
    pub fn new() -> (r: Response)
        ensures
            r.messages@.len() == 0,
            r.attributes@.len() == 0,
    {
        Response { messages: Vec::new(), attributes: Vec::new() }
    }
}

/// Holds when a response carries no instruction and no attribute.
pub open spec fn response_empty(r: Response) -> bool {
    r.messages@.len() == 0 && r.attributes@.len() == 0
}

/// The version record the host keeps for this program: the program's
/// identity and the schema version its stored records follow.
#[derive(Clone, Debug, PartialEq, Eq)]
pub struct ContractVersion {
    pub contract: String,
    pub version: String,
}

} // verus!
