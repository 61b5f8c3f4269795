//! The community endpoint: a free single-IP lookup.

use crate::get::{carries_credential, get_request, interpreted, query, Exchange, ErrorKind,
    Method, Request};
use crate::json::{field_of, req_field, req_ok, req_is, value_is_object, FromJson, JsonModel};
use vstd::prelude::*;
use vstd::string::StringExecFns;

verus! {

/// The typed shape of a community lookup response.
#[derive(Debug)]
pub struct Community {
    pub ip: String,
    pub noise: bool,
    pub riot: bool,
    pub classification: String,
    pub name: String,
    pub link: String,
    pub last_seen: String,
    pub message: String,
}

impl FromJson for Community {
    open spec fn decodable(m: JsonModel) -> bool {
        &&& m is Obj
        &&& req_ok::<String>(m, "ip"@)
        &&& req_ok::<bool>(m, "noise"@)
        &&& req_ok::<bool>(m, "riot"@)
        &&& req_ok::<String>(m, "classification"@)
        &&& req_ok::<String>(m, "name"@)
        &&& req_ok::<String>(m, "link"@)
        &&& req_ok::<String>(m, "last_seen"@)
        &&& req_ok::<String>(m, "message"@)
    }

    open spec fn decodes(m: JsonModel, t: Community) -> bool {
        &&& Self::decodable(m)
        &&& req_is::<String>(m, "ip"@, t.ip)
        &&& req_is::<bool>(m, "noise"@, t.noise)
        &&& req_is::<bool>(m, "riot"@, t.riot)
        &&& req_is::<String>(m, "classification"@, t.classification)
        &&& req_is::<String>(m, "name"@, t.name)
        &&& req_is::<String>(m, "link"@, t.link)
        &&& req_is::<String>(m, "last_seen"@, t.last_seen)
        &&& req_is::<String>(m, "message"@, t.message)
    }

    fn from_value(v: &serde_json::Value) -> (r: Option<Community>) {
        if !value_is_object(v) {
            return None;
        }
        let ip = match req_field::<String>(v, "ip") {
            Some(x) => x,
            None => {
                return None;
            },
        };
        let noise = match req_field::<bool>(v, "noise") {
            Some(x) => x,
            None => {
                return None;
            },
        };
        let riot = match req_field::<bool>(v, "riot") {
            Some(x) => x,
            None => {
                return None;
            },
        };
        let classification = match req_field::<String>(v, "classification") {
            Some(x) => x,
            None => {
                return None;
            },
        };
        let name = match req_field::<String>(v, "name") {
            Some(x) => x,
            None => {
                return None;
            },
        };
        let link = match req_field::<String>(v, "link") {
            Some(x) => x,
            None => {
                return None;
            },
        };
        let last_seen = match req_field::<String>(v, "last_seen") {
            Some(x) => x,
            None => {
                return None;
            },
        };
        let message = match req_field::<String>(v, "message") {
            Some(x) => x,
            None => {
                return None;
            },
        };
        Some(Community { ip, noise, riot, classification, name, link, last_seen, message })
    }
}

/// For a single-IP lookup whose response body echoes the looked-up IP in
/// its `ip` field — as the service does for every valid lookup — the
/// returned value's IP field equals that IP exactly.
pub proof fn lemma_ip_echoed(m: JsonModel, t: Community, ip: Seq<char>)
    requires
        Community::decodes(m, t),
        field_of(m, "ip"@) == Some(JsonModel::Str(ip)),
    ensures
        t.ip@ == ip,
{
}

/// Idempotence of the decoded fields: any two values decoded from the same
/// JSON tree carry byte-equivalent field values, so repeating a lookup
/// against an unchanged response body cannot change what the caller sees.
pub proof fn lemma_community_fields_determined(m: JsonModel, t1: Community, t2: Community)
    requires
        Community::decodes(m, t1),
        Community::decodes(m, t2),
    ensures
        t1.ip@ == t2.ip@,
        t1.noise == t2.noise,
        t1.riot == t2.riot,
        t1.classification@ == t2.classification@,
        t1.name@ == t2.name@,
        t1.link@ == t2.link@,
        t1.last_seen@ == t2.last_seen@,
        t1.message@ == t2.message@,
{
}

pub const COMMUNITY_URL: &'static str = "https://api.greynoise.io/v3/community";

/// The community lookup URL for one IP: the base URL with the IP appended
/// as the final path segment.
pub fn community_url(ip: &str) -> (r: String)
    ensures
        r@ == COMMUNITY_URL@ + "/"@ + ip@,
{
    let mut u: String = COMMUNITY_URL.to_owned();
    u.append("/");
    u.append(ip);
    u
}

/// Build the community lookup request: a GET of the lookup URL for the IP,
/// with the credential attached when given and no body.
pub fn community_request(ip: &str, key: Option<&str>) -> (r: Request)
    ensures
        r.method == Method::Get,
        r.url@ == COMMUNITY_URL@ + "/"@ + ip@,
        r.body is None,
        carries_credential(r, key),
{
    get_request(community_url(ip), key)
}

/// Interpret one exchange with the community endpoint: the typed value on a
/// success status and a well-shaped body, a classified error otherwise.
pub fn community(e: &Exchange) -> (r: Result<Community, ErrorKind>)
    ensures
        interpreted::<Community>(*e, r),
{
    query::<Community>(e)
}

} // verus!
