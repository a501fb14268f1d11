use vstd::prelude::*;

use crate::error::SSEError;

verus! {

#[verifier::external_type_specification]
#[verifier::external_body]
pub struct ExJsonValue(serde_json::Value);

#[verifier::external_type_specification]
#[verifier::external_body]
pub struct ExJsonError(serde_json::Error);

/// The document that serde_json reads from `text`, if `text` is JSON.
pub uninterp spec fn parsed_json(text: Seq<char>) -> Option<serde_json::Value>;

/// The member named `key` of the JSON value `v`, if `v` is an object that has one.
pub uninterp spec fn json_member(v: serde_json::Value, key: Seq<char>) -> Option<serde_json::Value>;

/// The text of the JSON value `v`, if `v` is a string.
pub uninterp spec fn json_string(v: serde_json::Value) -> Option<Seq<char>>;

/// Relies on serde_json::from_str::<Value>: parses a whole JSON text, and
/// fails exactly when the text is not JSON.
#[verifier::external_body]
fn parse_json(text: &str) -> (r: Result<serde_json::Value, serde_json::Error>)
    ensures
        r is Ok <==> parsed_json(text@) is Some,
        r is Ok ==> parsed_json(text@) == Some(r->Ok_0),
{
    serde_json::from_str::<serde_json::Value>(text)
}

/// Relies on serde_json::Value::get with a string key: the member of that
/// name when the value is an object that has it, `None` otherwise.
#[verifier::external_body]
fn member<'a>(v: &'a serde_json::Value, key: &str) -> (r: Option<&'a serde_json::Value>)
    ensures
        r is None <==> json_member(*v, key@) is None,
        r is Some ==> json_member(*v, key@) == Some(*r->Some_0),
{
    v.get(key)
}

/// Relies on serde_json::Value::as_str: the text of a JSON string, `None` for
/// every other kind of value.
#[verifier::external_body]
fn string_of<'a>(v: &'a serde_json::Value) -> (r: Option<&'a str>)
    ensures
        r is None <==> json_string(*v) is None,
        r is Some ==> json_string(*v) == Some(r->Some_0@),
{
    v.as_str()
}

/// Name of the config member that holds the service's `host:port`.
pub const ADDRESS_KEY: &'static str = "address";

/// What the config text `text` says the service's address is: its JSON
/// document's `address` member, which must be a string.
pub open spec fn address_in(text: Seq<char>) -> Result<Seq<char>, SSEError> {
    match parsed_json(text) {
        None => Err(SSEError::JSonError),
        Some(doc) => match json_member(doc, ADDRESS_KEY@) {
            None => Err(SSEError::NoAddress),
            Some(member) => match json_string(member) {
                None => Err(SSEError::NoStringAddress),
                Some(address) => Ok(address),
            },
        },
    }
}

/// Reads the service's address out of the text of its config file.
pub fn address_from_config(text: &str) -> (r: Result<String, SSEError>)
    ensures
        r matches Ok(a) ==> address_in(text@) == Ok::<Seq<char>, SSEError>(a@),
        r matches Err(e) ==> address_in(text@) == Err::<Seq<char>, SSEError>(e),
{
    let doc = match parse_json(text) {
        Ok(doc) => doc,
        Err(_) => {
            return Err(SSEError::JSonError);
        },
    };
    let field = match member(&doc, ADDRESS_KEY) {
        Some(field) => field,
        None => {
            return Err(SSEError::NoAddress);
        },
    };
    match string_of(field) {
        Some(address) => Ok(address.to_owned()),
        None => Err(SSEError::NoStringAddress),
    }
}

/// The address last read from the service's config file.
pub struct AddressCache {
    pub address: String,
}

impl AddressCache {
    /// A cache that holds no address yet.
    pub fn new() -> (r: AddressCache)
        ensures
            r.address@ == Seq::<char>::empty(),
    {
        AddressCache { address: String::new() }
    }

    /// Reads the address out of `text` and keeps it. Returns whether it
    /// differs from the one held before; on an error the cache is unchanged.
    pub fn update(&mut self, text: &str) -> (r: Result<bool, SSEError>)
        ensures
            match address_in(text@) {
                Ok(a) => r == Ok::<bool, SSEError>(a != old(self).address@) && final(self).address@ == a,
                Err(e) => r == Err::<bool, SSEError>(e) && final(self).address@ == old(self).address@,
            },
    {
        match address_from_config(text) {
            Ok(address) => {
                let changed = !(self.address == address);
                if changed {
                    self.address = address;
                }
                Ok(changed)
            },
            Err(e) => Err(e),
        }
    }
}

} // verus!
