//! The liveness endpoint: a boolean view of one status-check exchange.

use crate::get::{carries_credential, classified, get_request, query, Exchange, Method, Request};
use crate::json::{json_of_text, opt_field, opt_ok, opt_is, value_is_object, FromJson,
    JsonModel};
use vstd::prelude::*;

verus! {

/// The typed shape of a status-check response; every field is optional.
#[derive(Debug)]
pub struct Ping {
    pub expiration: Option<String>,
    pub message: Option<String>,
    pub offering: Option<String>,
}

impl FromJson for Ping {
    open spec fn decodable(m: JsonModel) -> bool {
        &&& m is Obj
        &&& opt_ok::<String>(m, "expiration"@)
        &&& opt_ok::<String>(m, "message"@)
        &&& opt_ok::<String>(m, "offering"@)
    }

    open spec fn decodes(m: JsonModel, t: Ping) -> bool {
        &&& Self::decodable(m)
        &&& opt_is::<String>(m, "expiration"@, t.expiration)
        &&& opt_is::<String>(m, "message"@, t.message)
        &&& opt_is::<String>(m, "offering"@, t.offering)
    }

    fn from_value(v: &serde_json::Value) -> (r: Option<Ping>) {
        if !value_is_object(v) {
            return None;
        }
        let expiration = match opt_field::<String>(v, "expiration") {
            Some(x) => x,
            None => {
                return None;
            },
        };
        let message = match opt_field::<String>(v, "message") {
            Some(x) => x,
            None => {
                return None;
            },
        };
        let offering = match opt_field::<String>(v, "offering") {
            Some(x) => x,
            None => {
                return None;
            },
        };
        Some(Ping { expiration, message, offering })
    }
}

pub const PING_URL: &'static str = "https://api.greynoise.io/ping";

/// The status-check URL; it takes no parameters.
pub fn ping_url() -> (r: String)
    ensures
        r@ == PING_URL@,
{
    PING_URL.to_owned()
}

/// Build the status-check request: a GET of the fixed liveness URL, with
/// the credential attached when given and no body.
pub fn ping_request(key: Option<&str>) -> (r: Request)
    ensures
        r.method == Method::Get,
        r.url@ == PING_URL@,
        r.body is None,
        carries_credential(r, key),
{
    get_request(ping_url(), key)
}

/// A status-check exchange succeeds when the status is the success status
/// and the body deserializes into the expected shape.
pub open spec fn ping_ok(e: Exchange) -> bool {
    &&& classified(e) matches Ok(b)
    &&& json_of_text(classified(e)->Ok_0) matches Some(m)
    &&& Ping::decodable(json_of_text(classified(e)->Ok_0)->Some_0)
}

/// The liveness check: `true` exactly when the underlying GET exchange
/// yields a typed value.  The specific failure reason — a status error or a
/// transport failure — is deliberately discarded here, and nowhere else.
pub fn ping(e: &Exchange) -> (r: bool)
    ensures
        r <==> ping_ok(*e),
{
    match query::<Ping>(e) {
        Ok(_) => true,
        Err(_) => false,
    }
}

} // verus!
