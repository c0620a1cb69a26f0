//! The fan-out endpoint's logic: where its two downstream calls go, and how
//! their results combine once both have completed.

use crate::error::AppError;
use crate::reply::Reply;
use crate::text::{decimal, is_digit, lemma_decimal_digits, push_decimal};
use vstd::prelude::*;
use vstd::utf8::{decode_utf8, valid_utf8};

verus! {

/// The delays, in milliseconds, that the two downstream calls ask for.
pub const FIRST_PAUSE_MS: u64 = 1000;

pub const SECOND_PAUSE_MS: u64 = 5000;

/// What `Duration`'s `Debug` prints for a span of `nanos` nanoseconds.
pub uninterp spec fn duration_debug_of(nanos: nat) -> Seq<char>;

/// What lossy UTF-8 decoding makes of `bytes`.
pub uninterp spec fn lossy_utf8_of(bytes: Seq<u8>) -> Seq<char>;

/// Relies on `Duration::from_nanos` and `Duration`'s `Debug`: the text is a
/// function of the span alone.
#[verifier::external_body]
pub(crate) fn duration_text(nanos: u64) -> (r: String)
    ensures
        r@ == duration_debug_of(nanos as nat),
{
    format!("{:?}", std::time::Duration::from_nanos(nanos))
}

/// Relies on `String::from_utf8_lossy`: a function of the bytes alone, which
/// gives valid UTF-8 back as the text it encodes.
#[verifier::external_body]
fn lossy_text(bytes: &[u8]) -> (r: String)
    ensures
        r@ == lossy_utf8_of(bytes@),
        valid_utf8(bytes@) ==> r@ == decode_utf8(bytes@),
{
    String::from_utf8_lossy(bytes).into_owned()
}

/// A character that http's authority parser takes as part of a host or port.
pub open spec fn authority_char(c: char) -> bool {
    is_digit(c) || c == '.' || c == ':'
}

/// A non-empty authority made of digits and dots, with at most one `:`.
pub open spec fn simple_authority(a: Seq<char>) -> bool {
    &&& a.len() > 0
    &&& forall|i: int| 0 <= i < a.len() ==> #[trigger] authority_char(a[i])
    &&& forall|i: int, j: int|
        0 <= i < a.len() && 0 <= j < a.len() && #[trigger] a[i] == ':' && #[trigger] a[j] == ':' ==> i == j
}

/// A character that http's path and query parsers take without escaping.
pub open spec fn path_char(c: char) -> bool {
    is_digit(c) || ('a' <= c && c <= 'z') || ('A' <= c && c <= 'Z') || c == '/' || c == '?'
}

/// A path with query that starts with `/` and holds only letters, digits,
/// `/` and `?`.
pub open spec fn simple_path_and_query(p: Seq<char>) -> bool {
    &&& p.len() > 0
    &&& p[0] == '/'
    &&& forall|i: int| 0 <= i < p.len() ==> #[trigger] path_char(p[i])
}

/// Relies on hyper's `Uri::builder`: assembles a URI from a scheme, an
/// authority and a path with query, or reports malformed parts. With the
/// `http` scheme, and an authority and path that http's parsers accept as
/// they stand, all three parts are present and the build succeeds.
#[verifier::external_body]
fn build_uri(scheme: &str, authority: &str, path_and_query: &str) -> (r: Result<hyper::Uri, hyper::http::Error>)
    ensures
        scheme@ == "http"@ && simple_authority(authority@) && simple_path_and_query(path_and_query@) ==> r is Ok,
{
    hyper::Uri::builder().scheme(scheme).authority(authority).path_and_query(path_and_query).build()
}

/// The authority of this service on the loopback interface.
pub open spec fn loopback_authority(port: u16) -> Seq<char> {
    "127.0.0.1:"@ + decimal(port as nat)
}

/// The path and query that ask the pause endpoint for `millis` milliseconds.
pub open spec fn pause_target(millis: u64) -> Seq<char> {
    "/pause?"@ + decimal(millis as nat)
}

/// The body of the fan-out endpoint's reply.
pub open spec fn summary_text(duration: Seq<char>, first: Seq<char>, second: Seq<char>) -> Seq<char> {
    "Total duration: "@ + duration + ", Response 1: "@ + first + ", Response 2: "@ + second
}

pub fn loopback(port: u16) -> (r: String)
    ensures
        r@ == loopback_authority(port),
{
    let mut r = String::from_str("127.0.0.1:");
    push_decimal(&mut r, port as u64);
    r
}

pub fn pause_path(millis: u64) -> (r: String)
    ensures
        r@ == pause_target(millis),
{
    let mut r = String::from_str("/pause?");
    push_decimal(&mut r, millis);
    r
}

proof fn lemma_loopback_is_simple(port: u16)
    ensures
        simple_authority(loopback_authority(port)),
{
    let a = loopback_authority(port);
    let d = decimal(port as nat);
    reveal_strlit("127.0.0.1:");
    let head = "127.0.0.1:"@;
    assert(head =~= seq!['1', '2', '7', '.', '0', '.', '0', '.', '1', ':']);
    lemma_decimal_digits(port as nat);
    assert forall|i: int| 0 <= i < a.len() implies #[trigger] authority_char(a[i]) by {
        if i >= head.len() {
            assert(a[i] == d[i - head.len()]);
            assert(is_digit(d[i - head.len()]));
        }
    }
    assert forall|i: int, j: int|
        0 <= i < a.len() && 0 <= j < a.len() && #[trigger] a[i] == ':' && #[trigger] a[j] == ':' implies i == j by {
        if i >= head.len() {
            assert(is_digit(d[i - head.len()]));
        }
        if j >= head.len() {
            assert(is_digit(d[j - head.len()]));
        }
    }
}

proof fn lemma_pause_target_is_simple(millis: u64)
    ensures
        simple_path_and_query(pause_target(millis)),
{
    let p = pause_target(millis);
    let d = decimal(millis as nat);
    reveal_strlit("/pause?");
    let head = "/pause?"@;
    assert(head =~= seq!['/', 'p', 'a', 'u', 's', 'e', '?']);
    lemma_decimal_digits(millis as nat);
    assert forall|i: int| 0 <= i < p.len() implies #[trigger] path_char(p[i]) by {
        if i >= head.len() {
            assert(p[i] == d[i - head.len()]);
            assert(is_digit(d[i - head.len()]));
        }
    }
}

/// The authority and the two paths that the fan-out calls: this service's
/// own pause endpoint, first for the shorter delay, then for the longer.
pub fn multi_targets(port: u16) -> (r: (String, String, String))
    ensures
        r.0@ == loopback_authority(port),
        r.1@ == pause_target(FIRST_PAUSE_MS),
        r.2@ == pause_target(SECOND_PAUSE_MS),
{
    (loopback(port), pause_path(FIRST_PAUSE_MS), pause_path(SECOND_PAUSE_MS))
}

/// The two downstream requests of the fan-out, built over `http` from the
/// targets of `multi_targets`; building them always succeeds.
pub fn multi_requests(port: u16) -> (r: Result<(hyper::Uri, hyper::Uri), AppError>)
    ensures
        r is Ok,
{
    let (authority, first_path, second_path) = multi_targets(port);
    proof {
        lemma_loopback_is_simple(port);
        lemma_pause_target_is_simple(FIRST_PAUSE_MS);
        lemma_pause_target_is_simple(SECOND_PAUSE_MS);
        reveal_strlit("http");
    }
    let first = match build_uri("http", authority.as_str(), first_path.as_str()) {
        Ok(u) => u,
        Err(e) => return Err(AppError::Http(e)),
    };
    let second = match build_uri("http", authority.as_str(), second_path.as_str()) {
        Ok(u) => u,
        Err(e) => return Err(AppError::Http(e)),
    };
    Ok((first, second))
}

/// Joins the two downstream results, once both calls have completed. The
/// first failure in issue order is the result; when both bodies arrived they
/// are decoded (invalid sequences replaced) and reported with the elapsed time.
pub fn multi_summary(
    elapsed_nanos: u64,
    first: Result<Vec<u8>, hyper::Error>,
    second: Result<Vec<u8>, hyper::Error>,
) -> (r: Result<Reply, AppError>)
    ensures
        match first {
            Err(e) => r == Err::<Reply, AppError>(AppError::Hyper(e)),
            Ok(b1) => match second {
                Err(e) => r == Err::<Reply, AppError>(AppError::Hyper(e)),
                Ok(b2) => r matches Ok(reply) && reply.is(
                    200,
                    summary_text(duration_debug_of(elapsed_nanos as nat), lossy_utf8_of(b1@), lossy_utf8_of(b2@)),
                ) && (valid_utf8(b1@) && valid_utf8(b2@) ==> reply.body@ == summary_text(
                    duration_debug_of(elapsed_nanos as nat),
                    decode_utf8(b1@),
                    decode_utf8(b2@),
                )),
            },
        },
{
    let b1 = match first {
        Ok(b) => b,
        Err(e) => return Err(AppError::Hyper(e)),
    };
    let b2 = match second {
        Ok(b) => b,
        Err(e) => return Err(AppError::Hyper(e)),
    };
    let mut body = String::from_str("Total duration: ");
    body.append(duration_text(elapsed_nanos).as_str());
    body.append(", Response 1: ");
    body.append(lossy_text(b1.as_slice()).as_str());
    body.append(", Response 2: ");
    body.append(lossy_text(b2.as_slice()).as_str());
    Ok(Reply { status: 200, body })
}

} // verus!
