//! The GNQL endpoint: free-form queries against the dataset, with optional
//! result-size and scroll-cursor parameters carried in the URL.

use crate::get::{carries_credential, get_request, interpreted, query, Exchange, ErrorKind,
    Method, Request};
use crate::json::{opt_field, opt_ok, opt_is, req_field, req_ok, req_is,
    value_is_object, FromJson, JsonModel};
use vstd::prelude::*;
use vstd::string::StringExecFns;

verus! {

/// The typed shape of a GNQL query response.
#[derive(Debug)]
pub struct QNQL {
    pub complete: Option<bool>,
    pub count: i64,
    pub data: Vec<Datum>,
    pub message: String,
    pub query: String,
    pub scroll: Option<String>,
}

/// One record of a GNQL result page.
#[derive(Debug)]
pub struct Datum {
    pub ip: String,
    pub metadata: Option<Metadata>,
    pub bot: Option<bool>,
    pub vpn: Option<bool>,
    pub vpn_service: Option<String>,
    pub spoofable: Option<bool>,
    pub raw_data: Option<RawData>,
    pub first_seen: Option<String>,
    pub last_seen: Option<String>,
    pub seen: Option<bool>,
    pub tags: Option<Vec<String>>,
    pub actor: Option<String>,
    pub classification: Option<String>,
    pub cve: Option<Vec<String>>,
}

/// Network and geography metadata attached to a GNQL record.
#[derive(Debug)]
pub struct Metadata {
    pub asn: Option<String>,
    pub city: Option<String>,
    pub country: Option<String>,
    pub country_code: Option<String>,
    pub organization: Option<String>,
    pub category: Option<String>,
    pub tor: Option<bool>,
    pub rdns: Option<String>,
    pub os: Option<String>,
    pub region: Option<String>,
}

/// Raw observation data attached to a GNQL record.
#[derive(Debug)]
pub struct RawData {
    pub scan: Option<Vec<Scan>>,
    pub web: Option<Web>,
    pub ja3: Option<Vec<Option<JA3>>>,
    pub hassh: Option<Vec<Option<HASSH>>>,
}

/// One observed port scan.
#[derive(Debug)]
pub struct Scan {
    pub port: Option<i64>,
    pub protocol: Option<String>,
}

/// Observed web request data.
#[derive(Debug)]
pub struct Web {
    pub paths: Option<String>,
    pub useragents: Option<String>,
}

/// One observed TLS fingerprint.
#[derive(Debug)]
pub struct JA3 {
    pub fingerprint: Option<String>,
    pub port: Option<i64>,
}

/// One observed SSH fingerprint.
#[derive(Debug)]
pub struct HASSH {
    pub fingerprint: Option<String>,
    pub port: Option<i64>,
}

impl FromJson for Metadata {
    open spec fn decodable(m: JsonModel) -> bool {
        &&& m is Obj
        &&& opt_ok::<String>(m, "asn"@)
        &&& opt_ok::<String>(m, "city"@)
        &&& opt_ok::<String>(m, "country"@)
        &&& opt_ok::<String>(m, "country_code"@)
        &&& opt_ok::<String>(m, "organization"@)
        &&& opt_ok::<String>(m, "category"@)
        &&& opt_ok::<bool>(m, "tor"@)
        &&& opt_ok::<String>(m, "rdns"@)
        &&& opt_ok::<String>(m, "os"@)
        &&& opt_ok::<String>(m, "region"@)
    }

    open spec fn decodes(m: JsonModel, t: Metadata) -> bool {
        &&& Self::decodable(m)
        &&& opt_is::<String>(m, "asn"@, t.asn)
        &&& opt_is::<String>(m, "city"@, t.city)
        &&& opt_is::<String>(m, "country"@, t.country)
        &&& opt_is::<String>(m, "country_code"@, t.country_code)
        &&& opt_is::<String>(m, "organization"@, t.organization)
        &&& opt_is::<String>(m, "category"@, t.category)
        &&& opt_is::<bool>(m, "tor"@, t.tor)
        &&& opt_is::<String>(m, "rdns"@, t.rdns)
        &&& opt_is::<String>(m, "os"@, t.os)
        &&& opt_is::<String>(m, "region"@, t.region)
    }

    fn from_value(v: &serde_json::Value) -> (r: Option<Metadata>) {
        if !value_is_object(v) {
            return None;
        }
        let asn = match opt_field::<String>(v, "asn") {
            Some(x) => x,
            None => {
                return None;
            },
        };
        let city = match opt_field::<String>(v, "city") {
            Some(x) => x,
            None => {
                return None;
            },
        };
        let country = match opt_field::<String>(v, "country") {
            Some(x) => x,
            None => {
                return None;
            },
        };
        let country_code = match opt_field::<String>(v, "country_code") {
            Some(x) => x,
            None => {
                return None;
            },
        };
        let organization = match opt_field::<String>(v, "organization") {
            Some(x) => x,
            None => {
                return None;
            },
        };
        let category = match opt_field::<String>(v, "category") {
            Some(x) => x,
            None => {
                return None;
            },
        };
        let tor = match opt_field::<bool>(v, "tor") {
            Some(x) => x,
            None => {
                return None;
            },
        };
        let rdns = match opt_field::<String>(v, "rdns") {
            Some(x) => x,
            None => {
                return None;
            },
        };
        let os = match opt_field::<String>(v, "os") {
            Some(x) => x,
            None => {
                return None;
            },
        };
        let region = match opt_field::<String>(v, "region") {
            Some(x) => x,
            None => {
                return None;
            },
        };
        Some(
            Metadata {
                asn,
                city,
                country,
                country_code,
                organization,
                category,
                tor,
                rdns,
                os,
                region,
            },
        )
    }
}

impl FromJson for Scan {
    open spec fn decodable(m: JsonModel) -> bool {
        &&& m is Obj
        &&& opt_ok::<i64>(m, "port"@)
        &&& opt_ok::<String>(m, "protocol"@)
    }

    open spec fn decodes(m: JsonModel, t: Scan) -> bool {
        &&& Self::decodable(m)
        &&& opt_is::<i64>(m, "port"@, t.port)
        &&& opt_is::<String>(m, "protocol"@, t.protocol)
    }

    fn from_value(v: &serde_json::Value) -> (r: Option<Scan>) {
        if !value_is_object(v) {
            return None;
        }
        let port = match opt_field::<i64>(v, "port") {
            Some(x) => x,
            None => {
                return None;
            },
        };
        let protocol = match opt_field::<String>(v, "protocol") {
            Some(x) => x,
            None => {
                return None;
            },
        };
        Some(Scan { port, protocol })
    }
}

impl FromJson for Web {
    open spec fn decodable(m: JsonModel) -> bool {
        &&& m is Obj
        &&& opt_ok::<String>(m, "paths"@)
        &&& opt_ok::<String>(m, "useragents"@)
    }

    open spec fn decodes(m: JsonModel, t: Web) -> bool {
        &&& Self::decodable(m)
        &&& opt_is::<String>(m, "paths"@, t.paths)
        &&& opt_is::<String>(m, "useragents"@, t.useragents)
    }

    fn from_value(v: &serde_json::Value) -> (r: Option<Web>) {
        if !value_is_object(v) {
            return None;
        }
        let paths = match opt_field::<String>(v, "paths") {
            Some(x) => x,
            None => {
                return None;
            },
        };
        let useragents = match opt_field::<String>(v, "useragents") {
            Some(x) => x,
            None => {
                return None;
            },
        };
        Some(Web { paths, useragents })
    }
}

impl FromJson for JA3 {
    open spec fn decodable(m: JsonModel) -> bool {
        &&& m is Obj
        &&& opt_ok::<String>(m, "fingerprint"@)
        &&& opt_ok::<i64>(m, "port"@)
    }

    open spec fn decodes(m: JsonModel, t: JA3) -> bool {
        &&& Self::decodable(m)
        &&& opt_is::<String>(m, "fingerprint"@, t.fingerprint)
        &&& opt_is::<i64>(m, "port"@, t.port)
    }

    fn from_value(v: &serde_json::Value) -> (r: Option<JA3>) {
        if !value_is_object(v) {
            return None;
        }
        let fingerprint = match opt_field::<String>(v, "fingerprint") {
            Some(x) => x,
            None => {
                return None;
            },
        };
        let port = match opt_field::<i64>(v, "port") {
            Some(x) => x,
            None => {
                return None;
            },
        };
        Some(JA3 { fingerprint, port })
    }
}

impl FromJson for HASSH {
    open spec fn decodable(m: JsonModel) -> bool {
        &&& m is Obj
        &&& opt_ok::<String>(m, "fingerprint"@)
        &&& opt_ok::<i64>(m, "port"@)
    }

    open spec fn decodes(m: JsonModel, t: HASSH) -> bool {
        &&& Self::decodable(m)
        &&& opt_is::<String>(m, "fingerprint"@, t.fingerprint)
        &&& opt_is::<i64>(m, "port"@, t.port)
    }

    fn from_value(v: &serde_json::Value) -> (r: Option<HASSH>) {
        if !value_is_object(v) {
            return None;
        }
        let fingerprint = match opt_field::<String>(v, "fingerprint") {
            Some(x) => x,
            None => {
                return None;
            },
        };
        let port = match opt_field::<i64>(v, "port") {
            Some(x) => x,
            None => {
                return None;
            },
        };
        Some(HASSH { fingerprint, port })
    }
}

impl FromJson for RawData {
    open spec fn decodable(m: JsonModel) -> bool {
        &&& m is Obj
        &&& opt_ok::<Vec<Scan>>(m, "scan"@)
        &&& opt_ok::<Web>(m, "web"@)
        &&& opt_ok::<Vec<Option<JA3>>>(m, "ja3"@)
        &&& opt_ok::<Vec<Option<HASSH>>>(m, "hassh"@)
    }

    open spec fn decodes(m: JsonModel, t: RawData) -> bool {
        &&& Self::decodable(m)
        &&& opt_is::<Vec<Scan>>(m, "scan"@, t.scan)
        &&& opt_is::<Web>(m, "web"@, t.web)
        &&& opt_is::<Vec<Option<JA3>>>(m, "ja3"@, t.ja3)
        &&& opt_is::<Vec<Option<HASSH>>>(m, "hassh"@, t.hassh)
    }

    fn from_value(v: &serde_json::Value) -> (r: Option<RawData>) {
        if !value_is_object(v) {
            return None;
        }
        let scan = match opt_field::<Vec<Scan>>(v, "scan") {
            Some(x) => x,
            None => {
                return None;
            },
        };
        let web = match opt_field::<Web>(v, "web") {
            Some(x) => x,
            None => {
                return None;
            },
        };
        let ja3 = match opt_field::<Vec<Option<JA3>>>(v, "ja3") {
            Some(x) => x,
            None => {
                return None;
            },
        };
        let hassh = match opt_field::<Vec<Option<HASSH>>>(v, "hassh") {
            Some(x) => x,
            None => {
                return None;
            },
        };
        Some(RawData { scan, web, ja3, hassh })
    }
}

impl FromJson for Datum {
    open spec fn decodable(m: JsonModel) -> bool {
        &&& m is Obj
        &&& req_ok::<String>(m, "ip"@)
        &&& opt_ok::<Metadata>(m, "metadata"@)
        &&& opt_ok::<bool>(m, "bot"@)
        &&& opt_ok::<bool>(m, "vpn"@)
        &&& opt_ok::<String>(m, "vpn_service"@)
        &&& opt_ok::<bool>(m, "spoofable"@)
        &&& opt_ok::<RawData>(m, "raw_data"@)
        &&& opt_ok::<String>(m, "first_seen"@)
        &&& opt_ok::<String>(m, "last_seen"@)
        &&& opt_ok::<bool>(m, "seen"@)
        &&& opt_ok::<Vec<String>>(m, "tags"@)
        &&& opt_ok::<String>(m, "actor"@)
        &&& opt_ok::<String>(m, "classification"@)
        &&& opt_ok::<Vec<String>>(m, "cve"@)
    }

    open spec fn decodes(m: JsonModel, t: Datum) -> bool {
        &&& Self::decodable(m)
        &&& req_is::<String>(m, "ip"@, t.ip)
        &&& opt_is::<Metadata>(m, "metadata"@, t.metadata)
        &&& opt_is::<bool>(m, "bot"@, t.bot)
        &&& opt_is::<bool>(m, "vpn"@, t.vpn)
        &&& opt_is::<String>(m, "vpn_service"@, t.vpn_service)
        &&& opt_is::<bool>(m, "spoofable"@, t.spoofable)
        &&& opt_is::<RawData>(m, "raw_data"@, t.raw_data)
        &&& opt_is::<String>(m, "first_seen"@, t.first_seen)
        &&& opt_is::<String>(m, "last_seen"@, t.last_seen)
        &&& opt_is::<bool>(m, "seen"@, t.seen)
        &&& opt_is::<Vec<String>>(m, "tags"@, t.tags)
        &&& opt_is::<String>(m, "actor"@, t.actor)
        &&& opt_is::<String>(m, "classification"@, t.classification)
        &&& opt_is::<Vec<String>>(m, "cve"@, t.cve)
    }

    fn from_value(v: &serde_json::Value) -> (r: Option<Datum>) {
        if !value_is_object(v) {
            return None;
        }
        let ip = match req_field::<String>(v, "ip") {
            Some(x) => x,
            None => {
                return None;
            },
        };
        let metadata = match opt_field::<Metadata>(v, "metadata") {
            Some(x) => x,
            None => {
                return None;
            },
        };
        let bot = match opt_field::<bool>(v, "bot") {
            Some(x) => x,
            None => {
                return None;
            },
        };
        let vpn = match opt_field::<bool>(v, "vpn") {
            Some(x) => x,
            None => {
                return None;
            },
        };
        let vpn_service = match opt_field::<String>(v, "vpn_service") {
            Some(x) => x,
            None => {
                return None;
            },
        };
        let spoofable = match opt_field::<bool>(v, "spoofable") {
            Some(x) => x,
            None => {
                return None;
            },
        };
        let raw_data = match opt_field::<RawData>(v, "raw_data") {
            Some(x) => x,
            None => {
                return None;
            },
        };
        let first_seen = match opt_field::<String>(v, "first_seen") {
            Some(x) => x,
            None => {
                return None;
            },
        };
        let last_seen = match opt_field::<String>(v, "last_seen") {
            Some(x) => x,
            None => {
                return None;
            },
        };
        let seen = match opt_field::<bool>(v, "seen") {
            Some(x) => x,
            None => {
                return None;
            },
        };
        let tags = match opt_field::<Vec<String>>(v, "tags") {
            Some(x) => x,
            None => {
                return None;
            },
        };
        let actor = match opt_field::<String>(v, "actor") {
            Some(x) => x,
            None => {
                return None;
            },
        };
        let classification = match opt_field::<String>(v, "classification") {
            Some(x) => x,
            None => {
                return None;
            },
        };
        let cve = match opt_field::<Vec<String>>(v, "cve") {
            Some(x) => x,
            None => {
                return None;
            },
        };
        Some(
            Datum {
                ip,
                metadata,
                bot,
                vpn,
                vpn_service,
                spoofable,
                raw_data,
                first_seen,
                last_seen,
                seen,
                tags,
                actor,
                classification,
                cve,
            },
        )
    }
}

impl FromJson for QNQL {
    open spec fn decodable(m: JsonModel) -> bool {
        &&& m is Obj
        &&& opt_ok::<bool>(m, "complete"@)
        &&& req_ok::<i64>(m, "count"@)
        &&& req_ok::<Vec<Datum>>(m, "data"@)
        &&& req_ok::<String>(m, "message"@)
        &&& req_ok::<String>(m, "query"@)
        &&& opt_ok::<String>(m, "scroll"@)
    }

    open spec fn decodes(m: JsonModel, t: QNQL) -> bool {
        &&& Self::decodable(m)
        &&& opt_is::<bool>(m, "complete"@, t.complete)
        &&& req_is::<i64>(m, "count"@, t.count)
        &&& req_is::<Vec<Datum>>(m, "data"@, t.data)
        &&& req_is::<String>(m, "message"@, t.message)
        &&& req_is::<String>(m, "query"@, t.query)
        &&& opt_is::<String>(m, "scroll"@, t.scroll)
    }

    fn from_value(v: &serde_json::Value) -> (r: Option<QNQL>) {
        if !value_is_object(v) {
            return None;
        }
        let complete = match opt_field::<bool>(v, "complete") {
            Some(x) => x,
            None => {
                return None;
            },
        };
        let count = match req_field::<i64>(v, "count") {
            Some(x) => x,
            None => {
                return None;
            },
        };
        let data = match req_field::<Vec<Datum>>(v, "data") {
            Some(x) => x,
            None => {
                return None;
            },
        };
        let message = match req_field::<String>(v, "message") {
            Some(x) => x,
            None => {
                return None;
            },
        };
        let query_text = match req_field::<String>(v, "query") {
            Some(x) => x,
            None => {
                return None;
            },
        };
        let scroll = match opt_field::<String>(v, "scroll") {
            Some(x) => x,
            None => {
                return None;
            },
        };
        Some(QNQL { complete, count, data, message, query: query_text, scroll })
    }
}

pub const QNQL_QUERY_URL: &'static str = "https://api.greynoise.io/v2/experimental/gnql";

/// The decimal digit for one value below ten.
pub open spec fn dec_digit(n: int) -> char {
    if n == 0 {
        '0'
    } else if n == 1 {
        '1'
    } else if n == 2 {
        '2'
    } else if n == 3 {
        '3'
    } else if n == 4 {
        '4'
    } else if n == 5 {
        '5'
    } else if n == 6 {
        '6'
    } else if n == 7 {
        '7'
    } else if n == 8 {
        '8'
    } else {
        '9'
    }
}

/// The decimal digits of a natural number, most significant first, with no
/// leading zero except for zero itself.
pub open spec fn dec_digits(n: nat) -> Seq<char>
    decreases n,
{
    if n < 10 {
        seq![dec_digit(n as int)]
    } else {
        dec_digits(n / 10).push(dec_digit((n % 10) as int))
    }
}

/// The decimal representation of an integer: a minus sign for a negative
/// value, then its magnitude's digits.
pub open spec fn dec_str(n: int) -> Seq<char> {
    if n >= 0 {
        dec_digits(n as nat)
    } else {
        seq!['-'] + dec_digits((-n) as nat)
    }
}

pub(crate) fn digit_str(d: u64) -> (r: &'static str)
    requires
        d < 10,
    ensures
        r@ == seq![dec_digit(d as int)],
{
    if d == 0 {
        proof {
            reveal_strlit("0");
            assert("0"@ =~= seq![dec_digit(0int)]);
        }
        "0"
    } else if d == 1 {
        proof {
            reveal_strlit("1");
            assert("1"@ =~= seq![dec_digit(1int)]);
        }
        "1"
    } else if d == 2 {
        proof {
            reveal_strlit("2");
            assert("2"@ =~= seq![dec_digit(2int)]);
        }
        "2"
    } else if d == 3 {
        proof {
            reveal_strlit("3");
            assert("3"@ =~= seq![dec_digit(3int)]);
        }
        "3"
    } else if d == 4 {
        proof {
            reveal_strlit("4");
            assert("4"@ =~= seq![dec_digit(4int)]);
        }
        "4"
    } else if d == 5 {
        proof {
            reveal_strlit("5");
            assert("5"@ =~= seq![dec_digit(5int)]);
        }
        "5"
    } else if d == 6 {
        proof {
            reveal_strlit("6");
            assert("6"@ =~= seq![dec_digit(6int)]);
        }
        "6"
    } else if d == 7 {
        proof {
            reveal_strlit("7");
            assert("7"@ =~= seq![dec_digit(7int)]);
        }
        "7"
    } else if d == 8 {
        proof {
            reveal_strlit("8");
            assert("8"@ =~= seq![dec_digit(8int)]);
        }
        "8"
    } else {
        proof {
            reveal_strlit("9");
            assert("9"@ =~= seq![dec_digit(9int)]);
        }
        "9"
    }
}

fn push_digits(n: u64, out: &mut String)
    ensures
        final (out)@ == old(out)@ + dec_digits(n as nat),
    decreases n,
{
    if n < 10 {
        out.append(digit_str(n));
        proof {
            assert(final (out)@ =~= old(out)@ + dec_digits(n as nat));
        }
    } else {
        push_digits(n / 10, out);
        out.append(digit_str(n % 10));
        proof {
            assert(final (out)@ =~= old(out)@ + dec_digits(n as nat));
        }
    }
}

/// The decimal representation of an `i64`.
pub fn i64_to_string(n: i64) -> (r: String)
    ensures
        r@ == dec_str(n as int),
{
    let mut out = String::new();
    if n < 0 {
        out.append("-");
        let mag: u64 = ((n as i128) * -1) as u64;
        push_digits(mag, &mut out);
        proof {
            reveal_strlit("-");
            assert(out@ =~= dec_str(n as int));
        }
    } else {
        push_digits(n as u64, &mut out);
    }
    out
}

/// The GNQL query URL: the base URL, the query text, then the optional
/// size and scroll parameters in that order, each rendered only when given.
pub open spec fn gnql_url_spec(q: Seq<char>, size: Option<i64>, scroll: Option<Seq<char>>) -> Seq<
    char,
> {
    QNQL_QUERY_URL@ + "?query="@ + q + (match size {
        Option::Some(s) => "&size="@ + dec_str(s as int),
        Option::None => Seq::<char>::empty(),
    }) + (match scroll {
        Option::Some(sc) => "&scroll="@ + sc,
        Option::None => Seq::<char>::empty(),
    })
}

/// Build the GNQL query URL.  The query text and cursor travel verbatim;
/// the caller is responsible for any URL encoding they need.
pub fn gnql_url(query_text: &str, size: Option<i64>, scroll: Option<&str>) -> (r: String)
    ensures
        r@ == gnql_url_spec(
            query_text@,
            size,
            match scroll {
                Option::Some(s) => Option::Some(s@),
                Option::None => Option::None,
            },
        ),
{
    let mut u: String = QNQL_QUERY_URL.to_owned();
    u.append("?query=");
    u.append(query_text);
    if let Some(s) = size {
        u.append("&size=");
        let digits = i64_to_string(s);
        u.append(digits.as_str());
    }
    if let Some(sc) = scroll {
        u.append("&scroll=");
        u.append(sc);
    }
    proof {
        assert(u@ =~= gnql_url_spec(
            query_text@,
            size,
            match scroll {
                Option::Some(s) => Option::Some(s@),
                Option::None => Option::None,
            },
        ));
    }
    u
}

/// Build the GNQL query request: a GET of the query URL, with the
/// credential attached when given and no body.
pub fn gnql_request(query_text: &str, size: Option<i64>, scroll: Option<&str>, key: Option<&str>)
    -> (r: Request)
    ensures
        r.method == Method::Get,
        r.url@ == gnql_url_spec(
            query_text@,
            size,
            match scroll {
                Option::Some(s) => Option::Some(s@),
                Option::None => Option::None,
            },
        ),
        r.body is None,
        carries_credential(r, key),
{
    get_request(gnql_url(query_text, size, scroll), key)
}

/// Interpret one exchange with the GNQL endpoint.
pub fn gnql_query(e: &Exchange) -> (r: Result<QNQL, ErrorKind>)
    ensures
        interpreted::<QNQL>(*e, r),
{
    query::<QNQL>(e)
}

} // verus!
