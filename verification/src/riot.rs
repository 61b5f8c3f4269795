//! The RIOT endpoint: lookups against the dataset of known benign services.

use crate::get::{carries_credential, get_request, interpreted, query, Exchange, ErrorKind,
    Method, Request};
use crate::json::{req_field, req_ok, req_is, value_is_object, FromJson, JsonModel};
use vstd::prelude::*;
use vstd::string::StringExecFns;

verus! {

/// The typed shape of a RIOT lookup response.
#[derive(Debug)]
pub struct RIOT {
    pub ip: String,
    pub riot: bool,
    pub category: String,
    pub name: String,
    pub description: String,
    pub explanation: String,
    pub last_updated: String,
    pub reference: String,
    pub trust_level: String,
}

impl FromJson for RIOT {
    open spec fn decodable(m: JsonModel) -> bool {
        &&& m is Obj
        &&& req_ok::<String>(m, "ip"@)
        &&& req_ok::<bool>(m, "riot"@)
        &&& req_ok::<String>(m, "category"@)
        &&& req_ok::<String>(m, "name"@)
        &&& req_ok::<String>(m, "description"@)
        &&& req_ok::<String>(m, "explanation"@)
        &&& req_ok::<String>(m, "last_updated"@)
        &&& req_ok::<String>(m, "reference"@)
        &&& req_ok::<String>(m, "trust_level"@)
    }

    open spec fn decodes(m: JsonModel, t: RIOT) -> bool {
        &&& Self::decodable(m)
        &&& req_is::<String>(m, "ip"@, t.ip)
        &&& req_is::<bool>(m, "riot"@, t.riot)
        &&& req_is::<String>(m, "category"@, t.category)
        &&& req_is::<String>(m, "name"@, t.name)
        &&& req_is::<String>(m, "description"@, t.description)
        &&& req_is::<String>(m, "explanation"@, t.explanation)
        &&& req_is::<String>(m, "last_updated"@, t.last_updated)
        &&& req_is::<String>(m, "reference"@, t.reference)
        &&& req_is::<String>(m, "trust_level"@, t.trust_level)
    }

    fn from_value(v: &serde_json::Value) -> (r: Option<RIOT>) {
        if !value_is_object(v) {
            return None;
        }
        let ip = match req_field::<String>(v, "ip") {
            Some(x) => x,
            None => {
                return None;
            },
        };
        let riot = match req_field::<bool>(v, "riot") {
            Some(x) => x,
            None => {
                return None;
            },
        };
        let category = match req_field::<String>(v, "category") {
            Some(x) => x,
            None => {
                return None;
            },
        };
        let name = match req_field::<String>(v, "name") {
            Some(x) => x,
            None => {
                return None;
            },
        };
        let description = match req_field::<String>(v, "description") {
            Some(x) => x,
            None => {
                return None;
            },
        };
        let explanation = match req_field::<String>(v, "explanation") {
            Some(x) => x,
            None => {
                return None;
            },
        };
        let last_updated = match req_field::<String>(v, "last_updated") {
            Some(x) => x,
            None => {
                return None;
            },
        };
        let reference = match req_field::<String>(v, "reference") {
            Some(x) => x,
            None => {
                return None;
            },
        };
        let trust_level = match req_field::<String>(v, "trust_level") {
            Some(x) => x,
            None => {
                return None;
            },
        };
        Some(
            RIOT {
                ip,
                riot,
                category,
                name,
                description,
                explanation,
                last_updated,
                reference,
                trust_level,
            },
        )
    }
}

pub const RIOT_URL: &'static str = "https://api.greynoise.io/v2/riot";

/// The RIOT lookup URL for one IP: the base URL with the IP appended as the
/// final path segment.
pub fn riot_url(ip: &str) -> (r: String)
    ensures
        r@ == RIOT_URL@ + "/"@ + ip@,
{
    let mut u: String = RIOT_URL.to_owned();
    u.append("/");
    u.append(ip);
    u
}

/// Build the RIOT lookup request: a GET of the lookup URL for the IP, with
/// the credential attached when given and no body.
pub fn riot_request(ip: &str, key: Option<&str>) -> (r: Request)
    ensures
        r.method == Method::Get,
        r.url@ == RIOT_URL@ + "/"@ + ip@,
        r.body is None,
        carries_credential(r, key),
{
    get_request(riot_url(ip), key)
}

/// Interpret one exchange with the RIOT endpoint.
pub fn riot(e: &Exchange) -> (r: Result<RIOT, ErrorKind>)
    ensures
        interpreted::<RIOT>(*e, r),
{
    query::<RIOT>(e)
}

} // verus!
