//! The decisions of a fetch: what to ask the provider for, and what its reply
//! becomes. Sending the request and reading the reply are left to the caller.

use crate::assemble::{records_of, BenchmarkUpdates, PriceFeedsWithUpdateData};
use crate::codec::{decoded_as, decodes_all, first_malformed, hex_text, identifier_text, BlobDecodeError};
use vstd::prelude::*;

verus! {

/// The time that one request may take, connection and reply together.
pub const REQUEST_TIMEOUT_SECS: u64 = 30;

/// Why a fetch failed.
#[derive(Clone, Debug, PartialEq, Eq)]
pub enum BenchmarksError {
    /// No provider address is configured; nothing was sent.
    Configuration,
    /// The request could not be sent, timed out, or was answered with a failure status.
    Transport(String),
    /// The reply does not have the provider's shape.
    Schema(String),
    /// A string of the reply's blob is malformed.
    Decode(BlobDecodeError),
}

/// A request to send: the provider's address, the path to join to it, the
/// query parameters in order, and the timeout in seconds.
#[derive(Clone, Debug)]
pub struct BenchmarksRequest<E> {
    pub endpoint: E,
    pub path: String,
    pub query: Vec<(String, String)>,
    pub timeout_secs: u64,
}

/// What came of sending a request.
#[derive(Debug)]
pub enum BenchmarksResponse {
    /// A reply in the provider's shape.
    Received(BenchmarkUpdates),
    /// No reply, or a failure status, with the transport's account of it.
    TransportFailed(String),
    /// A reply that does not have the provider's shape, with the reason.
    SchemaMismatch(String),
}

pub open spec fn digit_char(d: nat) -> char {
    (d + '0' as nat) as char
}

/// The decimal digits of a natural number, most significant first.
pub open spec fn decimal_digits(n: nat) -> Seq<char>
    decreases n,
{
    if n < 10 {
        seq![digit_char(n)]
    } else {
        decimal_digits(n / 10) + seq![digit_char(n % 10)]
    }
}

/// The decimal text of an integer, with a leading minus sign when negative.
pub open spec fn decimal_text(n: int) -> Seq<char> {
    if n < 0 {
        seq!['-'] + decimal_digits((-n) as nat)
    } else {
        decimal_digits(n as nat)
    }
}

/// The route of the updates published at a time.
pub open spec fn price_path(publish_time: int) -> Seq<char> {
    "/v1/updates/price/"@ + decimal_text(publish_time)
}

pub open spec fn is_param(p: (String, String), key: Seq<char>, value: Seq<char>) -> bool {
    p.0@ == key && p.1@ == value
}

/// The query: hex encoding, parsed values, then one `ids` parameter per
/// identifier, in order.
pub open spec fn price_query(query: Seq<(String, String)>, ids: Seq<[u8; 32]>) -> bool {
    &&& query.len() == ids.len() + 2
    &&& is_param(query[0], "encoding"@, "hex"@)
    &&& is_param(query[1], "parsed"@, "true"@)
    &&& forall|i: int| 0 <= i < ids.len() ==> is_param(#[trigger] query[i + 2], "ids"@, hex_text(ids[i]@))
}

fn digit_str(d: u64) -> (r: &'static str)
    requires
        d < 10,
    ensures
        r@ == seq![digit_char(d as nat)],
{
    if d == 0 {
        proof { reveal_strlit("0"); }
        "0"
    } else if d == 1 {
        proof { reveal_strlit("1"); }
        "1"
    } else if d == 2 {
        proof { reveal_strlit("2"); }
        "2"
    } else if d == 3 {
        proof { reveal_strlit("3"); }
        "3"
    } else if d == 4 {
        proof { reveal_strlit("4"); }
        "4"
    } else if d == 5 {
        proof { reveal_strlit("5"); }
        "5"
    } else if d == 6 {
        proof { reveal_strlit("6"); }
        "6"
    } else if d == 7 {
        proof { reveal_strlit("7"); }
        "7"
    } else if d == 8 {
        proof { reveal_strlit("8"); }
        "8"
    } else {
        proof { reveal_strlit("9"); }
        "9"
    }
}

fn push_decimal(out: &mut String, m: u64)
    ensures
        final(out)@ == old(out)@ + decimal_digits(m as nat),
    decreases m,
{
    if m >= 10 {
        push_decimal(out, m / 10);
    }
    out.append(digit_str(m % 10));
    proof {
        if m >= 10 {
            assert(old(out)@ + decimal_digits((m / 10) as nat) + seq![digit_char((m % 10) as nat)]
                =~= old(out)@ + decimal_digits(m as nat));
        }
    }
}

/// The decimal text of a signed integer.
pub fn decimal_string(n: i64) -> (r: String)
    ensures
        r@ == decimal_text(n as int),
{
    let mut s = String::new();
    if n < 0 {
        s.append("-");
        proof { reveal_strlit("-"); }
        let m: u64 = (-(n as i128)) as u64;
        push_decimal(&mut s, m);
        assert(s@ =~= seq!['-'] + decimal_digits((-n) as nat));
    } else {
        push_decimal(&mut s, n as u64);
        assert(s@ =~= decimal_digits(n as nat));
    }
    s
}

/// Plans the request for the updates of some price feeds published at a time.
///
/// Without a provider address it fails at once, and there is nothing to send.
/// An empty list of identifiers still gives a request, with no `ids` parameter.
pub fn plan_request<E>(endpoint: Option<E>, price_ids: &Vec<[u8; 32]>, publish_time: i64) -> (r: Result<BenchmarksRequest<E>, BenchmarksError>)
    ensures
        r is Err <==> endpoint is None,
        r is Err ==> r->Err_0 is Configuration,
        r is Ok ==> r->Ok_0.endpoint == endpoint->Some_0,
        r is Ok ==> r->Ok_0.path@ == price_path(publish_time as int),
        r is Ok ==> price_query(r->Ok_0.query@, price_ids@),
        r is Ok ==> r->Ok_0.timeout_secs == REQUEST_TIMEOUT_SECS,
{
    let endpoint = match endpoint {
        Some(e) => e,
        None => return Err(BenchmarksError::Configuration),
    };
    let mut path = String::from_str("/v1/updates/price/");
    let time_text = decimal_string(publish_time);
    path.append(time_text.as_str());
    let mut query: Vec<(String, String)> = Vec::new();
    query.push((String::from_str("encoding"), String::from_str("hex")));
    query.push((String::from_str("parsed"), String::from_str("true")));
    let mut i: usize = 0;
    while i < price_ids.len()
        invariant
            i <= price_ids@.len(),
            query@.len() == i + 2,
            is_param(query@[0], "encoding"@, "hex"@),
            is_param(query@[1], "parsed"@, "true"@),
            forall|j: int| 0 <= j < i ==> is_param(#[trigger] query@[j + 2], "ids"@, hex_text(price_ids@[j]@)),
        decreases price_ids@.len() - i,
    {
        let id_text = identifier_text(&price_ids[i]);
        query.push((String::from_str("ids"), id_text));
        i = i + 1;
    }
    Ok(BenchmarksRequest { endpoint, path, query, timeout_secs: REQUEST_TIMEOUT_SECS })
}

/// Turns what came of a request into the fetch's result: a transport or shape
/// failure is passed on, a reply is assembled.
pub fn finish_request(response: BenchmarksResponse) -> (r: Result<PriceFeedsWithUpdateData, BenchmarksError>)
    ensures
        match response {
            BenchmarksResponse::TransportFailed(m) => r == Err::<PriceFeedsWithUpdateData, BenchmarksError>(BenchmarksError::Transport(m)),
            BenchmarksResponse::SchemaMismatch(m) => r == Err::<PriceFeedsWithUpdateData, BenchmarksError>(BenchmarksError::Schema(m)),
            BenchmarksResponse::Received(u) => {
                &&& r is Ok <==> decodes_all(u.binary.encoding, u.binary.data@)
                &&& r is Ok ==> records_of(r->Ok_0.price_feeds@, u.parsed@)
                &&& r is Ok ==> decoded_as(u.binary.encoding, u.binary.data@, r->Ok_0.update_data@)
                &&& r is Err ==> r->Err_0 is Decode && first_malformed(
                    u.binary.encoding,
                    u.binary.data@,
                    r->Err_0->Decode_0.index as int,
                )
            },
        },
{
    match response {
        BenchmarksResponse::TransportFailed(m) => Err(BenchmarksError::Transport(m)),
        BenchmarksResponse::SchemaMismatch(m) => Err(BenchmarksError::Schema(m)),
        BenchmarksResponse::Received(u) => match u.assemble() {
            Ok(d) => Ok(d),
            Err(e) => Err(BenchmarksError::Decode(e)),
        },
    }
}

/// The text that describes an error.
pub open spec fn error_text(e: BenchmarksError) -> Seq<char> {
    match e {
        BenchmarksError::Configuration => "benchmarks endpoint is not set"@,
        BenchmarksError::Transport(m) => "benchmarks request failed: "@ + m@,
        BenchmarksError::Schema(m) => "benchmarks reply has an unexpected shape: "@ + m@,
        BenchmarksError::Decode(d) => "benchmarks blob item is malformed at index "@ + decimal_digits(
            d.index as nat,
        ),
    }
}

impl BenchmarksError {
    /// Describes the error in words.
    pub fn message(&self) -> (r: String)
        ensures
            r@ == error_text(*self),
    {
        match self {
            BenchmarksError::Configuration => String::from_str("benchmarks endpoint is not set"),
            BenchmarksError::Transport(m) => {
                let mut s = String::from_str("benchmarks request failed: ");
                s.append(m.as_str());
                s
            },
            BenchmarksError::Schema(m) => {
                let mut s = String::from_str("benchmarks reply has an unexpected shape: ");
                s.append(m.as_str());
                s
            },
            BenchmarksError::Decode(d) => {
                let mut s = String::from_str("benchmarks blob item is malformed at index ");
                push_decimal(&mut s, d.index as u64);
                s
            },
        }
    }
}

} // verus!
