//! The transport core's decision logic: status classification and the
//! uniform error taxonomy for one HTTP exchange.

use crate::json::{parse_json, json_of_text, FromJson, JsonModel};
use vstd::prelude::*;
use vstd::string::{StrSliceExecFns, StringExecFns};

verus! {

/// The HTTP status code that counts as success for every endpoint.
pub const SUCCESS_STATUS: u16 = 200;

/// How one request/response exchange with the remote service went, as seen
/// at the transport boundary: either the transport failed outright (possibly
/// with an HTTP status attached), or a response with a status code and a
/// fully buffered body was received.
pub enum Exchange {
    /// The request never produced a response: DNS, connection, TLS or
    /// timeout failure.  Some transports still attach an HTTP status.
    Failed { status: Option<u16> },
    /// A response arrived; `body` is the complete response body text.
    Replied { status: u16, body: String },
}

/// The flat error taxonomy surfaced to callers.
#[derive(Debug, PartialEq, Eq, Structural, Clone, Copy)]
pub enum ErrorKind {
    /// The remote service answered with a non-success HTTP status; the exact
    /// status code is carried for caller inspection.
    Status(u16),
    /// No specific status is available: connection failure, timeout, or a
    /// response body that does not match the expected shape.
    Request,
}

/// Classification policy for one exchange: either the body text to be
/// deserialized, or the error that the caller sees.
pub open spec fn classified(e: Exchange) -> Result<Seq<char>, ErrorKind> {
    match e {
        Exchange::Failed { status: Some(s) } => Err(ErrorKind::Status(s)),
        Exchange::Failed { status: None } => Err(ErrorKind::Request),
        Exchange::Replied { status, body } => if status == SUCCESS_STATUS {
            Ok(body@)
        } else {
            Err(ErrorKind::Status(status))
        },
    }
}

/// A transport failure with an attached status is surfaced as that status;
/// one without is the generic request error.
pub fn classify(e: &Exchange) -> (r: Result<&String, ErrorKind>)
    ensures
        match classified(*e) {
            Ok(b) => r matches Ok(s) && s@ == b,
            Err(k) => r == Err::<&String, ErrorKind>(k),
        },
{
    match e {
        Exchange::Failed { status: Some(s) } => Err(ErrorKind::Status(*s)),
        Exchange::Failed { status: None } => Err(ErrorKind::Request),
        Exchange::Replied { status, body } => {
            if *status == SUCCESS_STATUS {
                Ok(body)
            } else {
                Err(ErrorKind::Status(*status))
            }
        },
    }
}

/// What deserializing a body text into shape `T` must yield: the decoded
/// value when the text is valid JSON of a decodable shape, and the generic
/// request error when it is not.
pub open spec fn decoded<T: FromJson>(b: Seq<char>, r: Result<T, ErrorKind>) -> bool {
    match json_of_text(b) {
        Option::None => r == Err::<T, ErrorKind>(ErrorKind::Request),
        Option::Some(m) => {
            &&& r is Ok <==> T::decodable(m)
            &&& (r matches Ok(t) ==> T::decodes(m, t))
            &&& (r matches Err(k) ==> k == ErrorKind::Request)
        },
    }
}

/// Deserialize a success body into the expected shape; a malformed body or
/// an unexpected JSON shape is the generic request error, never a partial
/// result.
pub fn decode_body<T: FromJson>(body: &str) -> (r: Result<T, ErrorKind>)
    ensures
        decoded::<T>(body@, r),
{
    let v = match parse_json(body) {
        Some(v) => v,
        None => {
            return Err(ErrorKind::Request);
        },
    };
    match T::from_value(&v) {
        Some(t) => Ok(t),
        None => Err(ErrorKind::Request),
    }
}

/// The full contract of one exchange interpreted as a `T`: classification
/// of transport failures and non-success statuses, then deserialization.
pub open spec fn interpreted<T: FromJson>(e: Exchange, r: Result<T, ErrorKind>) -> bool {
    match classified(e) {
        Err(k) => r == Err::<T, ErrorKind>(k),
        Ok(b) => decoded::<T>(b, r),
    }
}

/// The reusable request pipeline, response side: validate the status of one
/// finished exchange and deserialize its body into the expected shape.
/// Exactly one of a typed value or a classified error comes back.
pub fn query<T: FromJson>(e: &Exchange) -> (r: Result<T, ErrorKind>)
    ensures
        interpreted::<T>(*e, r),
{
    let body = match classify(e) {
        Ok(b) => b,
        Err(k) => {
            return Err(k);
        },
    };
    decode_body::<T>(body.as_str())
}

/// The HTTP method of a request descriptor.
#[derive(Debug, PartialEq, Eq, Structural, Clone, Copy)]
pub enum Method {
    Get,
    Post,
}

/// A fully formed request descriptor, constructed fresh per call and
/// handed to the transport: the method, the complete URL with every path
/// segment and query parameter already interpolated, the credential to
/// attach under the custom `key` header when present, and — for POST —
/// the JSON payload.
pub struct Request {
    pub method: Method,
    pub url: String,
    pub credential: Option<String>,
    pub body: Option<String>,
}

/// The descriptor carries the caller's credential verbatim: present
/// exactly when one was supplied, and byte for byte the same.
pub open spec fn carries_credential(r: Request, key: Option<&str>) -> bool {
    &&& (r.credential is Some <==> key is Some)
    &&& (key matches Some(k) ==> r.credential matches Some(c) && c@ == k@)
}

/// Construct a GET request descriptor: no body, the credential attached
/// exactly when one is supplied.
pub fn get_request(url: String, key: Option<&str>) -> (r: Request)
    ensures
        r.method == Method::Get,
        r.url@ == url@,
        r.body is None,
        carries_credential(r, key),
{
    let credential = match key {
        Some(k) => Some(k.to_owned()),
        None => None,
    };
    Request { method: Method::Get, url, credential, body: None }
}

/// Construct the bulk-lookup POST request descriptor: the IPs wrapped, in
/// order, as the JSON payload, the credential attached exactly when one is
/// supplied.
pub fn post_request(url: String, ips: &Vec<String>, key: Option<&str>) -> (r: Request)
    ensures
        r.method == Method::Post,
        r.url@ == url@,
        r.body matches Some(b) && b@ == ips_body_spec(ips@.map_values(|s: String| s@)),
        carries_credential(r, key),
{
    let credential = match key {
        Some(k) => Some(k.to_owned()),
        None => None,
    };
    Request { method: Method::Post, url, credential, body: Some(post_body(ips)) }
}

/// Status-code fidelity: a response bearing any non-success status — a
/// simulated 429 as much as a 404 — is surfaced as a status error carrying
/// exactly that status, never collapsed into the generic request error.
pub proof fn lemma_status_fidelity<T: FromJson>(status: u16, body: String, r: Result<T, ErrorKind>)
    requires
        status != SUCCESS_STATUS,
        interpreted::<T>(Exchange::Replied { status, body }, r),
    ensures
        r == Err::<T, ErrorKind>(ErrorKind::Status(status)),
{
}

/// A call yields a typed value only from a success status and a body that
/// decodes as the expected record.  Whatever the service answers to a
/// malformed input — an error status, or an error body that is no record —
/// the caller sees a classified error, never a typed value.
pub proof fn lemma_no_value_without_record<T: FromJson>(e: Exchange, r: Result<T, ErrorKind>)
    requires
        interpreted::<T>(e, r),
        !(classified(e) matches Ok(b) && json_of_text(b) matches Some(m) && T::decodable(m)),
    ensures
        r is Err,
{
}

/// Idempotence, client side: two interpretations of identical exchanges
/// agree — same success or failure, the same classified error, and any two
/// typed values decode from the same JSON tree.  (What the remote service
/// returns for a repeated request is its own affair; this pins everything
/// the client adds.)
pub proof fn lemma_interpret_deterministic<T: FromJson>(
    e1: Exchange,
    e2: Exchange,
    r1: Result<T, ErrorKind>,
    r2: Result<T, ErrorKind>,
)
    requires
        e1 == e2,
        interpreted::<T>(e1, r1),
        interpreted::<T>(e2, r2),
    ensures
        r1 is Ok <==> r2 is Ok,
        r1 matches Err(k1) ==> r2 matches Err(k2) && k1 == k2,
        r1 matches Ok(t1) ==> r2 matches Ok(t2) && (exists|m: JsonModel|
            T::decodes(m, t1) && T::decodes(m, t2)),
{
    if r1 is Ok {
        let m = json_of_text(classified(e1)->Ok_0)->Some_0;
        assert(T::decodes(m, r1->Ok_0));
        assert(T::decodes(m, r2->Ok_0));
    }
}

/// The hexadecimal digit for one value below sixteen.
pub open spec fn hex_digit(n: int) -> char {
    if n < 10 {
        crate::gnql::dec_digit(n)
    } else if n == 10 {
        'a'
    } else if n == 11 {
        'b'
    } else if n == 12 {
        'c'
    } else if n == 13 {
        'd'
    } else if n == 14 {
        'e'
    } else {
        'f'
    }
}

/// How one character is written inside a JSON string literal: quote and
/// backslash get a backslash escape, control characters a `\u00` escape,
/// and every other character stands as itself.
pub open spec fn esc_char(c: char) -> Seq<char> {
    if c == '"' {
        seq!['\\', '"']
    } else if c == '\\' {
        seq!['\\', '\\']
    } else if (c as int) < 32 {
        seq!['\\', 'u', '0', '0', hex_digit((c as int) / 16), hex_digit((c as int) % 16)]
    } else {
        seq![c]
    }
}

/// A text escaped for use inside a JSON string literal.
pub open spec fn esc(s: Seq<char>) -> Seq<char>
    decreases s.len(),
{
    if s.len() == 0 {
        Seq::<char>::empty()
    } else {
        esc(s.drop_last()) + esc_char(s.last())
    }
}

/// A JSON string literal: the escaped text between double quotes.
pub open spec fn quoted(s: Seq<char>) -> Seq<char> {
    seq!['"'] + esc(s) + seq!['"']
}

/// The comma-separated JSON string literals of an array, in order.
pub open spec fn ips_items(ips: Seq<Seq<char>>) -> Seq<char>
    decreases ips.len(),
{
    if ips.len() == 0 {
        Seq::<char>::empty()
    } else if ips.len() == 1 {
        quoted(ips[0])
    } else {
        ips_items(ips.drop_last()) + seq![','] + quoted(ips.last())
    }
}

/// The POST request payload: a JSON object with the single array field
/// `ips`, holding the given IPs as strings in the given order.
pub open spec fn ips_body_spec(ips: Seq<Seq<char>>) -> Seq<char> {
    "{\"ips\":["@ + ips_items(ips) + "]}"@
}

/// Relies on std's `String::push`: appends exactly the given character.
#[verifier::external_body]
fn push_char(out: &mut String, c: char)
    ensures
        final (out)@ == old(out)@ + seq![c],
{
    out.push(c);
}

fn hex_str(d: u32) -> (r: &'static str)
    requires
        d < 16,
    ensures
        r@ == seq![hex_digit(d as int)],
{
    if d < 10 {
        crate::gnql::digit_str(d as u64)
    } else if d == 10 {
        proof {
            reveal_strlit("a");
            assert("a"@ =~= seq![hex_digit(10int)]);
        }
        "a"
    } else if d == 11 {
        proof {
            reveal_strlit("b");
            assert("b"@ =~= seq![hex_digit(11int)]);
        }
        "b"
    } else if d == 12 {
        proof {
            reveal_strlit("c");
            assert("c"@ =~= seq![hex_digit(12int)]);
        }
        "c"
    } else if d == 13 {
        proof {
            reveal_strlit("d");
            assert("d"@ =~= seq![hex_digit(13int)]);
        }
        "d"
    } else if d == 14 {
        proof {
            reveal_strlit("e");
            assert("e"@ =~= seq![hex_digit(14int)]);
        }
        "e"
    } else {
        proof {
            reveal_strlit("f");
            assert("f"@ =~= seq![hex_digit(15int)]);
        }
        "f"
    }
}

fn append_escaped(out: &mut String, s: &str)
    ensures
        final (out)@ == old(out)@ + esc(s@),
{
    let n = s.unicode_len();
    let mut j: usize = 0;
    while j < n
        invariant
            n == s@.len(),
            j <= n,
            out@ == old(out)@ + esc(s@.take(j as int)),
        decreases n - j,
    {
        let c = s.get_char(j);
        if c == '"' {
            out.append("\\\"");
            proof {
                reveal_strlit("\\\"");
                assert("\\\""@ =~= esc_char('"'));
            }
        } else if c == '\\' {
            out.append("\\\\");
            proof {
                reveal_strlit("\\\\");
                assert("\\\\"@ =~= esc_char('\\'));
            }
        } else if (c as u32) < 32 {
            let code = c as u32;
            out.append("\\u00");
            out.append(hex_str(code / 16));
            out.append(hex_str(code % 16));
            proof {
                reveal_strlit("\\u00");
                assert("\\u00"@ + seq![hex_digit(code as int / 16)] + seq![
                    hex_digit(code as int % 16),
                ] =~= esc_char(c));
            }
        } else {
            push_char(out, c);
            proof {
                assert(seq![c] =~= esc_char(c));
            }
        }
        j += 1;
        proof {
            assert(s@.take(j as int).drop_last() =~= s@.take(j as int - 1));
            assert(s@.take(j as int).last() == s@[j as int - 1]);
            assert(out@ =~= old(out)@ + esc(s@.take(j as int)));
        }
    }
    proof {
        assert(s@.take(n as int) =~= s@);
    }
}

/// Build the bulk-lookup POST payload: the IPs, in order, wrapped in a JSON
/// object with the single array field `ips`, each IP written as a JSON
/// string literal with its characters escaped as JSON requires.
pub fn post_body(ips: &Vec<String>) -> (r: String)
    ensures
        r@ == ips_body_spec(ips@.map_values(|s: String| s@)),
{
    let ghost mv = ips@.map_values(|s: String| s@);
    let mut out: String = "{\"ips\":[".to_owned();
    let mut i: usize = 0;
    while i < ips.len()
        invariant
            mv == ips@.map_values(|s: String| s@),
            i <= ips@.len(),
            out@ == "{\"ips\":["@ + ips_items(mv.take(i as int)),
        decreases ips@.len() - i,
    {
        if i > 0 {
            out.append(",");
            proof {
                reveal_strlit(",");
            }
        }
        out.append("\"");
        append_escaped(&mut out, ips[i].as_str());
        out.append("\"");
        i += 1;
        proof {
            reveal_strlit("\"");
            assert("\""@ =~= seq!['"']);
            assert(mv.take(i as int).drop_last() =~= mv.take(i as int - 1));
            assert(mv.take(i as int).last() == mv[i as int - 1]);
            assert(out@ =~= "{\"ips\":["@ + ips_items(mv.take(i as int)));
        }
    }
    out.append("]}");
    proof {
        assert(mv.take(ips@.len() as int) =~= mv);
    }
    out
}

} // verus!
