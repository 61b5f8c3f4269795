//! The IP quick-check endpoints: one IP per GET, or many IPs per POST.

use crate::get::{carries_credential, get_request, interpreted, ips_body_spec, post_request,
    query, Exchange, ErrorKind, Method, Request};
use crate::json::{req_field, req_ok, req_is, value_is_object, FromJson, JsonModel};
use vstd::prelude::*;
use vstd::string::StringExecFns;

verus! {

/// The bulk lookup returns one entry per looked-up IP; the service chooses
/// the order, so callers correlate entries by their `ip` field.
pub type MultiQuickCheck = Vec<QuickCheck>;

/// The typed shape of one quick-check result.
#[derive(Debug)]
pub struct QuickCheck {
    pub ip: String,
    pub noise: bool,
    pub riot: bool,
    pub code: String,
}

impl FromJson for QuickCheck {
    open spec fn decodable(m: JsonModel) -> bool {
        &&& m is Obj
        &&& req_ok::<String>(m, "ip"@)
        &&& req_ok::<bool>(m, "noise"@)
        &&& req_ok::<bool>(m, "riot"@)
        &&& req_ok::<String>(m, "code"@)
    }

    open spec fn decodes(m: JsonModel, t: QuickCheck) -> bool {
        &&& Self::decodable(m)
        &&& req_is::<String>(m, "ip"@, t.ip)
        &&& req_is::<bool>(m, "noise"@, t.noise)
        &&& req_is::<bool>(m, "riot"@, t.riot)
        &&& req_is::<String>(m, "code"@, t.code)
    }

    fn from_value(v: &serde_json::Value) -> (r: Option<QuickCheck>) {
        if !value_is_object(v) {
            return None;
        }
        let ip = match req_field::<String>(v, "ip") {
            Some(x) => x,
            None => {
                return None;
            },
        };
        let noise = match req_field::<bool>(v, "noise") {
            Some(x) => x,
            None => {
                return None;
            },
        };
        let riot = match req_field::<bool>(v, "riot") {
            Some(x) => x,
            None => {
                return None;
            },
        };
        let code = match req_field::<String>(v, "code") {
            Some(x) => x,
            None => {
                return None;
            },
        };
        Some(QuickCheck { ip, noise, riot, code })
    }
}

/// The bulk result has exactly one entry per entry of the response array,
/// whatever order the service chose for them.
pub proof fn lemma_multi_quick_check_len(m: JsonModel, t: MultiQuickCheck)
    requires
        <MultiQuickCheck as FromJson>::decodes(m, t),
    ensures
        m matches JsonModel::Arr(elems) && t@.len() == elems.len(),
{
}

pub const QUICK_CHECK_CONTEXT_URL: &'static str = "https://api.greynoise.io/v2/noise/quick";

pub const MULTI_QUICK_CHECK_CONTEXT_URL: &'static str =
    "https://api.greynoise.io/v2/noise/multi/quick";

/// The quick-check URL for one IP: the base URL with the IP appended as the
/// final path segment.
pub fn quick_check_url(ip: &str) -> (r: String)
    ensures
        r@ == QUICK_CHECK_CONTEXT_URL@ + "/"@ + ip@,
{
    let mut u: String = QUICK_CHECK_CONTEXT_URL.to_owned();
    u.append("/");
    u.append(ip);
    u
}

/// The bulk quick-check URL; the IPs travel in the request body instead.
pub fn multi_quick_check_url() -> (r: String)
    ensures
        r@ == MULTI_QUICK_CHECK_CONTEXT_URL@,
{
    MULTI_QUICK_CHECK_CONTEXT_URL.to_owned()
}

/// Build the quick-check request: a GET of the lookup URL for the IP, with
/// the credential attached when given and no body.
pub fn quick_check_request(ip: &str, key: Option<&str>) -> (r: Request)
    ensures
        r.method == Method::Get,
        r.url@ == QUICK_CHECK_CONTEXT_URL@ + "/"@ + ip@,
        r.body is None,
        carries_credential(r, key),
{
    get_request(quick_check_url(ip), key)
}

/// Build the bulk quick-check request: a POST of the fixed bulk URL whose
/// payload wraps the IPs, in order, in the single array field `ips`.
pub fn multi_quick_check_request(ips: &Vec<String>, key: Option<&str>) -> (r: Request)
    ensures
        r.method == Method::Post,
        r.url@ == MULTI_QUICK_CHECK_CONTEXT_URL@,
        r.body matches Some(b) && b@ == ips_body_spec(ips@.map_values(|s: String| s@)),
        carries_credential(r, key),
{
    post_request(multi_quick_check_url(), ips, key)
}

/// Interpret one exchange with the quick-check endpoint.
pub fn quick_check(e: &Exchange) -> (r: Result<QuickCheck, ErrorKind>)
    ensures
        interpreted::<QuickCheck>(*e, r),
{
    query::<QuickCheck>(e)
}

/// Interpret one exchange with the bulk quick-check endpoint: the body must
/// be an array, and every entry must decode; the result has exactly one
/// entry per entry of the response array.
pub fn multi_quick_check(e: &Exchange) -> (r: Result<MultiQuickCheck, ErrorKind>)
    ensures
        interpreted::<MultiQuickCheck>(*e, r),
{
    query::<MultiQuickCheck>(e)
}

} // verus!
