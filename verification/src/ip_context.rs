//! The IP context endpoint: the full record the service holds on one IP.

use crate::get::{carries_credential, get_request, interpreted, query, Exchange, ErrorKind,
    Method, Request};
use crate::json::{field_of, opt_field, opt_ok, opt_is, req_field, req_ok, req_is,
    value_is_object, FromJson, JsonModel};
use vstd::prelude::*;
use vstd::string::StringExecFns;

verus! {

/// The typed shape of an IP context response.
#[derive(Debug)]
pub struct IPContext {
    pub ip: String,
    pub first_seen: Option<String>,
    pub last_seen: Option<String>,
    pub seen: bool,
    pub tags: Option<Vec<String>>,
    pub actor: Option<String>,
    pub spoofable: Option<bool>,
    pub classification: Option<String>,
    pub cve: Option<Vec<String>>,
    pub bot: Option<bool>,
    pub vpn: Option<bool>,
    pub vpn_service: Option<String>,
    pub metadata: Option<Metadata>,
    pub raw_data: Option<RawData>,
}

/// Network and geography metadata attached to an IP context record.
#[derive(Debug)]
pub struct Metadata {
    pub asn: Option<String>,
    pub city: Option<String>,
    pub country: Option<String>,
    pub country_code: Option<String>,
    pub organization: Option<String>,
    pub category: Option<String>,
    pub tor: Option<bool>,
    pub rdns: Option<String>,
    pub os: Option<String>,
    pub region: Option<String>,
}

/// Raw observation data attached to an IP context record.
#[derive(Debug)]
pub struct RawData {
    pub scan: Option<Vec<Scan>>,
    pub web: Option<Web>,
    pub ja3: Option<Vec<Option<JA3>>>,
    pub hassh: Option<Vec<Option<HASSH>>>,
}

/// One observed port scan.
#[derive(Debug)]
pub struct Scan {
    pub port: Option<i64>,
    pub protocol: Option<String>,
}

/// Observed web request data.  The wire name of `paths` is `scan`, as the
/// service sends it.
#[derive(Debug)]
pub struct Web {
    pub paths: Option<Vec<String>>,
    pub usergents: Option<Vec<String>>,
}

/// One observed TLS fingerprint.
#[derive(Debug)]
pub struct JA3 {
    pub fingerprint: Option<String>,
    pub port: Option<i64>,
}

/// One observed SSH fingerprint.
#[derive(Debug)]
pub struct HASSH {
    pub fingerprint: Option<String>,
    pub port: Option<i64>,
}

impl FromJson for Metadata {
    open spec fn decodable(m: JsonModel) -> bool {
        &&& m is Obj
        &&& opt_ok::<String>(m, "asn"@)
        &&& opt_ok::<String>(m, "city"@)
        &&& opt_ok::<String>(m, "country"@)
        &&& opt_ok::<String>(m, "country_code"@)
        &&& opt_ok::<String>(m, "organization"@)
        &&& opt_ok::<String>(m, "category"@)
        &&& opt_ok::<bool>(m, "tor"@)
        &&& opt_ok::<String>(m, "rdns"@)
        &&& opt_ok::<String>(m, "os"@)
        &&& opt_ok::<String>(m, "region"@)
    }

    open spec fn decodes(m: JsonModel, t: Metadata) -> bool {
        &&& Self::decodable(m)
        &&& opt_is::<String>(m, "asn"@, t.asn)
        &&& opt_is::<String>(m, "city"@, t.city)
        &&& opt_is::<String>(m, "country"@, t.country)
        &&& opt_is::<String>(m, "country_code"@, t.country_code)
        &&& opt_is::<String>(m, "organization"@, t.organization)
        &&& opt_is::<String>(m, "category"@, t.category)
        &&& opt_is::<bool>(m, "tor"@, t.tor)
        &&& opt_is::<String>(m, "rdns"@, t.rdns)
        &&& opt_is::<String>(m, "os"@, t.os)
        &&& opt_is::<String>(m, "region"@, t.region)
    }

    fn from_value(v: &serde_json::Value) -> (r: Option<Metadata>) {
        if !value_is_object(v) {
            return None;
        }
        let asn = match opt_field::<String>(v, "asn") {
            Some(x) => x,
            None => {
                return None;
            },
        };
        let city = match opt_field::<String>(v, "city") {
            Some(x) => x,
            None => {
                return None;
            },
        };
        let country = match opt_field::<String>(v, "country") {
            Some(x) => x,
            None => {
                return None;
            },
        };
        let country_code = match opt_field::<String>(v, "country_code") {
            Some(x) => x,
            None => {
                return None;
            },
        };
        let organization = match opt_field::<String>(v, "organization") {
            Some(x) => x,
            None => {
                return None;
            },
        };
        let category = match opt_field::<String>(v, "category") {
            Some(x) => x,
            None => {
                return None;
            },
        };
        let tor = match opt_field::<bool>(v, "tor") {
            Some(x) => x,
            None => {
                return None;
            },
        };
        let rdns = match opt_field::<String>(v, "rdns") {
            Some(x) => x,
            None => {
                return None;
            },
        };
        let os = match opt_field::<String>(v, "os") {
            Some(x) => x,
            None => {
                return None;
            },
        };
        let region = match opt_field::<String>(v, "region") {
            Some(x) => x,
            None => {
                return None;
            },
        };
        Some(
            Metadata {
                asn,
                city,
                country,
                country_code,
                organization,
                category,
                tor,
                rdns,
                os,
                region,
            },
        )
    }
}

impl FromJson for Scan {
    open spec fn decodable(m: JsonModel) -> bool {
        &&& m is Obj
        &&& opt_ok::<i64>(m, "port"@)
        &&& opt_ok::<String>(m, "protocol"@)
    }

    open spec fn decodes(m: JsonModel, t: Scan) -> bool {
        &&& Self::decodable(m)
        &&& opt_is::<i64>(m, "port"@, t.port)
        &&& opt_is::<String>(m, "protocol"@, t.protocol)
    }

    fn from_value(v: &serde_json::Value) -> (r: Option<Scan>) {
        if !value_is_object(v) {
            return None;
        }
        let port = match opt_field::<i64>(v, "port") {
            Some(x) => x,
            None => {
                return None;
            },
        };
        let protocol = match opt_field::<String>(v, "protocol") {
            Some(x) => x,
            None => {
                return None;
            },
        };
        Some(Scan { port, protocol })
    }
}

impl FromJson for Web {
    open spec fn decodable(m: JsonModel) -> bool {
        &&& m is Obj
        &&& opt_ok::<Vec<String>>(m, "scan"@)
        &&& opt_ok::<Vec<String>>(m, "useragents"@)
    }

    open spec fn decodes(m: JsonModel, t: Web) -> bool {
        &&& Self::decodable(m)
        &&& opt_is::<Vec<String>>(m, "scan"@, t.paths)
        &&& opt_is::<Vec<String>>(m, "useragents"@, t.usergents)
    }

    fn from_value(v: &serde_json::Value) -> (r: Option<Web>) {
        if !value_is_object(v) {
            return None;
        }
        let paths = match opt_field::<Vec<String>>(v, "scan") {
            Some(x) => x,
            None => {
                return None;
            },
        };
        let usergents = match opt_field::<Vec<String>>(v, "useragents") {
            Some(x) => x,
            None => {
                return None;
            },
        };
        Some(Web { paths, usergents })
    }
}

impl FromJson for JA3 {
    open spec fn decodable(m: JsonModel) -> bool {
        &&& m is Obj
        &&& opt_ok::<String>(m, "fingerprint"@)
        &&& opt_ok::<i64>(m, "port"@)
    }

    open spec fn decodes(m: JsonModel, t: JA3) -> bool {
        &&& Self::decodable(m)
        &&& opt_is::<String>(m, "fingerprint"@, t.fingerprint)
        &&& opt_is::<i64>(m, "port"@, t.port)
    }

    fn from_value(v: &serde_json::Value) -> (r: Option<JA3>) {
        if !value_is_object(v) {
            return None;
        }
        let fingerprint = match opt_field::<String>(v, "fingerprint") {
            Some(x) => x,
            None => {
                return None;
            },
        };
        let port = match opt_field::<i64>(v, "port") {
            Some(x) => x,
            None => {
                return None;
            },
        };
        Some(JA3 { fingerprint, port })
    }
}

impl FromJson for HASSH {
    open spec fn decodable(m: JsonModel) -> bool {
        &&& m is Obj
        &&& opt_ok::<String>(m, "fingerprint"@)
        &&& opt_ok::<i64>(m, "port"@)
    }

    open spec fn decodes(m: JsonModel, t: HASSH) -> bool {
        &&& Self::decodable(m)
        &&& opt_is::<String>(m, "fingerprint"@, t.fingerprint)
        &&& opt_is::<i64>(m, "port"@, t.port)
    }

    fn from_value(v: &serde_json::Value) -> (r: Option<HASSH>) {
        if !value_is_object(v) {
            return None;
        }
        let fingerprint = match opt_field::<String>(v, "fingerprint") {
            Some(x) => x,
            None => {
                return None;
            },
        };
        let port = match opt_field::<i64>(v, "port") {
            Some(x) => x,
            None => {
                return None;
            },
        };
        Some(HASSH { fingerprint, port })
    }
}

impl FromJson for RawData {
    open spec fn decodable(m: JsonModel) -> bool {
        &&& m is Obj
        &&& opt_ok::<Vec<Scan>>(m, "scan"@)
        &&& opt_ok::<Web>(m, "web"@)
        &&& opt_ok::<Vec<Option<JA3>>>(m, "ja3"@)
        &&& opt_ok::<Vec<Option<HASSH>>>(m, "hassh"@)
    }

    open spec fn decodes(m: JsonModel, t: RawData) -> bool {
        &&& Self::decodable(m)
        &&& opt_is::<Vec<Scan>>(m, "scan"@, t.scan)
        &&& opt_is::<Web>(m, "web"@, t.web)
        &&& opt_is::<Vec<Option<JA3>>>(m, "ja3"@, t.ja3)
        &&& opt_is::<Vec<Option<HASSH>>>(m, "hassh"@, t.hassh)
    }

    fn from_value(v: &serde_json::Value) -> (r: Option<RawData>) {
        if !value_is_object(v) {
            return None;
        }
        let scan = match opt_field::<Vec<Scan>>(v, "scan") {
            Some(x) => x,
            None => {
                return None;
            },
        };
        let web = match opt_field::<Web>(v, "web") {
            Some(x) => x,
            None => {
                return None;
            },
        };
        let ja3 = match opt_field::<Vec<Option<JA3>>>(v, "ja3") {
            Some(x) => x,
            None => {
                return None;
            },
        };
        let hassh = match opt_field::<Vec<Option<HASSH>>>(v, "hassh") {
            Some(x) => x,
            None => {
                return None;
            },
        };
        Some(RawData { scan, web, ja3, hassh })
    }
}

impl FromJson for IPContext {
    open spec fn decodable(m: JsonModel) -> bool {
        &&& m is Obj
        &&& req_ok::<String>(m, "ip"@)
        &&& opt_ok::<String>(m, "first_seen"@)
        &&& opt_ok::<String>(m, "last_seen"@)
        &&& req_ok::<bool>(m, "seen"@)
        &&& opt_ok::<Vec<String>>(m, "tags"@)
        &&& opt_ok::<String>(m, "actor"@)
        &&& opt_ok::<bool>(m, "spoofable"@)
        &&& opt_ok::<String>(m, "classification"@)
        &&& opt_ok::<Vec<String>>(m, "cve"@)
        &&& opt_ok::<bool>(m, "bot"@)
        &&& opt_ok::<bool>(m, "vpn"@)
        &&& opt_ok::<String>(m, "vpn_service"@)
        &&& opt_ok::<Metadata>(m, "metadata"@)
        &&& opt_ok::<RawData>(m, "raw_data"@)
    }

    open spec fn decodes(m: JsonModel, t: IPContext) -> bool {
        &&& Self::decodable(m)
        &&& req_is::<String>(m, "ip"@, t.ip)
        &&& opt_is::<String>(m, "first_seen"@, t.first_seen)
        &&& opt_is::<String>(m, "last_seen"@, t.last_seen)
        &&& req_is::<bool>(m, "seen"@, t.seen)
        &&& opt_is::<Vec<String>>(m, "tags"@, t.tags)
        &&& opt_is::<String>(m, "actor"@, t.actor)
        &&& opt_is::<bool>(m, "spoofable"@, t.spoofable)
        &&& opt_is::<String>(m, "classification"@, t.classification)
        &&& opt_is::<Vec<String>>(m, "cve"@, t.cve)
        &&& opt_is::<bool>(m, "bot"@, t.bot)
        &&& opt_is::<bool>(m, "vpn"@, t.vpn)
        &&& opt_is::<String>(m, "vpn_service"@, t.vpn_service)
        &&& opt_is::<Metadata>(m, "metadata"@, t.metadata)
        &&& opt_is::<RawData>(m, "raw_data"@, t.raw_data)
    }

    fn from_value(v: &serde_json::Value) -> (r: Option<IPContext>) {
        if !value_is_object(v) {
            return None;
        }
        let ip = match req_field::<String>(v, "ip") {
            Some(x) => x,
            None => {
                return None;
            },
        };
        let first_seen = match opt_field::<String>(v, "first_seen") {
            Some(x) => x,
            None => {
                return None;
            },
        };
        let last_seen = match opt_field::<String>(v, "last_seen") {
            Some(x) => x,
            None => {
                return None;
            },
        };
        let seen = match req_field::<bool>(v, "seen") {
            Some(x) => x,
            None => {
                return None;
            },
        };
        let tags = match opt_field::<Vec<String>>(v, "tags") {
            Some(x) => x,
            None => {
                return None;
            },
        };
        let actor = match opt_field::<String>(v, "actor") {
            Some(x) => x,
            None => {
                return None;
            },
        };
        let spoofable = match opt_field::<bool>(v, "spoofable") {
            Some(x) => x,
            None => {
                return None;
            },
        };
        let classification = match opt_field::<String>(v, "classification") {
            Some(x) => x,
            None => {
                return None;
            },
        };
        let cve = match opt_field::<Vec<String>>(v, "cve") {
            Some(x) => x,
            None => {
                return None;
            },
        };
        let bot = match opt_field::<bool>(v, "bot") {
            Some(x) => x,
            None => {
                return None;
            },
        };
        let vpn = match opt_field::<bool>(v, "vpn") {
            Some(x) => x,
            None => {
                return None;
            },
        };
        let vpn_service = match opt_field::<String>(v, "vpn_service") {
            Some(x) => x,
            None => {
                return None;
            },
        };
        let metadata = match opt_field::<Metadata>(v, "metadata") {
            Some(x) => x,
            None => {
                return None;
            },
        };
        let raw_data = match opt_field::<RawData>(v, "raw_data") {
            Some(x) => x,
            None => {
                return None;
            },
        };
        Some(
            IPContext {
                ip,
                first_seen,
                last_seen,
                seen,
                tags,
                actor,
                spoofable,
                classification,
                cve,
                bot,
                vpn,
                vpn_service,
                metadata,
                raw_data,
            },
        )
    }
}

/// Optional-field round trip, absent side: a response that omits an
/// optional field, or sends it as null, decodes with that field in the
/// explicit absent state.
pub proof fn lemma_absent_field_is_none(m: JsonModel, t: Metadata)
    requires
        Metadata::decodes(m, t),
        field_of(m, "city"@) is None || field_of(m, "city"@) == Some(JsonModel::Null),
    ensures
        t.city is None,
{
}

/// Optional-field round trip, present side: a present-but-empty string
/// decodes to a present empty value, distinguishable from the absent state.
pub proof fn lemma_empty_field_is_present(m: JsonModel, t: Metadata)
    requires
        Metadata::decodes(m, t),
        field_of(m, "city"@) == Some(JsonModel::Str(Seq::<char>::empty())),
    ensures
        t.city matches Some(s) && s@ == Seq::<char>::empty(),
        !(t.city is None),
{
}

pub const IP_CONTEXT_URL: &'static str = "https://api.greynoise.io/v2/noise/context";

/// The IP context URL for one IP: the base URL with the IP appended as the
/// final path segment.
pub fn ip_context_url(ip: &str) -> (r: String)
    ensures
        r@ == IP_CONTEXT_URL@ + "/"@ + ip@,
{
    let mut u: String = IP_CONTEXT_URL.to_owned();
    u.append("/");
    u.append(ip);
    u
}

/// Build the IP context request: a GET of the lookup URL for the IP, with
/// the credential attached when given and no body.
pub fn ip_context_request(ip: &str, key: Option<&str>) -> (r: Request)
    ensures
        r.method == Method::Get,
        r.url@ == IP_CONTEXT_URL@ + "/"@ + ip@,
        r.body is None,
        carries_credential(r, key),
{
    get_request(ip_context_url(ip), key)
}

/// Interpret one exchange with the IP context endpoint.
pub fn ip_context(e: &Exchange) -> (r: Result<IPContext, ErrorKind>)
    ensures
        interpreted::<IPContext>(*e, r),
{
    query::<IPContext>(e)
}

} // verus!
