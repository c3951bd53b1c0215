//! Operation requests and replies, and the interpretation of remote read
//! replies shared by the adapters.
//!
//! Each operation takes a short-lived argument value (`Op*`) and returns a
//! short-lived reply value (`Rp*`). A read reply carries [`Metadata`]
//! parsed from the remote headers; the content length is required, and a
//! successful reply whose headers lack a usable one is normalized to an
//! `Unexpected` error.

use vstd::prelude::*;
use crate::capability::Scheme;
use crate::error::Error;
use crate::error::ErrorKind;
use crate::error::kind_of_status;
use crate::error::parse_error;
use crate::error::status_is_transient;
use crate::http_model::HttpResponse;
use crate::kv::kv_get;
use crate::kv::kv_lookup;

verus! {

/// Arguments of a read. The adapters here read whole objects, so no
/// argument is carried yet; the record keeps the operation's shape.
#[derive(Debug, Default)]
pub struct OpRead {}

impl OpRead {
    pub fn new() -> (r: OpRead) {
        OpRead {  }
    }
}

/// Arguments of a write: the declared content length, if the caller
/// supplied one. The adapters here require it.
#[derive(Debug)]
pub struct OpWrite {
    pub content_length: Option<u64>,
}

impl OpWrite {
    /// Arguments with no content length declared.
    pub fn new() -> (r: OpWrite)
        ensures
            r.content_length is None,
    {
        OpWrite { content_length: None }
    }

    /// Declare the exact number of bytes the write will deliver.
    pub fn with_content_length(self, v: u64) -> (r: OpWrite)
        ensures
            r.content_length == Some(v),
    {
        OpWrite { content_length: Some(v) }
    }
}

/// Object metadata parsed from a read reply: at least the content length,
/// plus type and range markers where the remote supplied them.
#[derive(Debug)]
pub struct Metadata {
    pub content_length: u64,
    pub content_type: Option<String>,
    pub content_range: Option<String>,
}

/// The reply of a read: the parsed metadata. The reader bytes travel
/// beside it.
#[derive(Debug)]
pub struct RpRead {
    pub metadata: Metadata,
}

impl RpRead {
    pub fn with_metadata(metadata: Metadata) -> (r: RpRead)
        ensures
            r.metadata == metadata,
    {
        RpRead { metadata }
    }
}

/// The reply of a write. The remote acknowledgment carries no data the
/// core contracts; the record keeps the operation's shape.
#[derive(Debug)]
pub struct RpWrite {}

impl RpWrite {
    pub fn new() -> (r: RpWrite) {
        RpWrite {  }
    }
}

/// The reply of a delete.
#[derive(Debug)]
pub struct RpDelete {}

impl RpDelete {
    pub fn new() -> (r: RpDelete) {
        RpDelete {  }
    }
}

/// A decimal digit.
pub open spec fn is_digit(c: char) -> bool {
    48 <= c as int <= 57
}

pub open spec fn digit_value(c: char) -> int {
    c as int - 48
}

/// Every character of `s` is a decimal digit.
pub open spec fn all_digits(s: Seq<char>) -> bool {
    forall|i: int| 0 <= i < s.len() ==> is_digit(#[trigger] s[i])
}

/// The value of `s` read as a decimal number, most significant digit
/// first.
pub open spec fn dec_value(s: Seq<char>) -> int
    decreases s.len(),
{
    if s.len() == 0 {
        0
    } else {
        dec_value(s.drop_last()) * 10 + digit_value(s.last())
    }
}

proof fn lemma_dec_value_nonneg(s: Seq<char>)
    requires
        all_digits(s),
    ensures
        dec_value(s) >= 0,
    decreases s.len(),
{
    if s.len() > 0 {
        assert(all_digits(s.drop_last())) by {
            assert(forall|i: int|
                0 <= i < s.drop_last().len() ==> s.drop_last()[i] == #[trigger] s[i]);
        }
        lemma_dec_value_nonneg(s.drop_last());
        assert(is_digit(s.last()));
    }
}

/// A longer digit prefix never has a smaller value.
proof fn lemma_dec_value_monotone(s: Seq<char>, i: int, j: int)
    requires
        all_digits(s),
        0 <= i <= j <= s.len(),
    ensures
        dec_value(s.take(i)) <= dec_value(s.take(j)),
    decreases j - i,
{
    if i < j {
        lemma_dec_value_monotone(s, i, j - 1);
        let t = s.take(j);
        assert(t.drop_last() =~= s.take(j - 1));
        assert(all_digits(s.take(j - 1))) by {
            assert(forall|k: int|
                0 <= k < s.take(j - 1).len() ==> s.take(j - 1)[k] == #[trigger] s[k]);
        }
        lemma_dec_value_nonneg(s.take(j - 1));
        assert(t.last() == s[j - 1]);
        assert(is_digit(s[j - 1]));
        assert(dec_value(s.take(j - 1)) * 10 >= dec_value(s.take(j - 1)));
    }
}

/// Parse a decimal unsigned integer: succeeds exactly on a nonempty
/// all-digit string whose value fits in `u64`.
pub fn parse_u64(s: &str) -> (r: Option<u64>)
    ensures
        r is Some <==> s@.len() > 0 && all_digits(s@) && dec_value(s@) <= u64::MAX,
        r matches Some(v) ==> v == dec_value(s@),
{
    let n = s.unicode_len();
    if n == 0 {
        return None;
    }
    let mut acc: u64 = 0;
    let mut i: usize = 0;
    proof {
        assert(s@.take(0) =~= Seq::<char>::empty());
    }
    while i < n
        invariant
            n == s@.len(),
            0 < n <= usize::MAX,
            i <= n,
            all_digits(s@.take(i as int)),
            acc == dec_value(s@.take(i as int)),
        decreases n - i,
    {
        let c = s.get_char(i);
        let u = c as u32;
        proof {
            assert(s@.take(i as int + 1).drop_last() =~= s@.take(i as int));
            assert(s@.take(i as int + 1).last() == s@[i as int]);
        }
        if u < 48 || u > 57 {
            proof {
                assert(!is_digit(s@[i as int]));
            }
            return None;
        }
        let d: u64 = (u - 48) as u64;
        proof {
            assert(all_digits(s@.take(i as int + 1))) by {
                assert(forall|k: int|
                    0 <= k < i as int ==> s@.take(i as int + 1)[k] == #[trigger] s@.take(
                        i as int,
                    )[k]);
                assert(s@.take(i as int + 1)[i as int] == s@[i as int]);
            }
        }
        let acc10 = match acc.checked_mul(10) {
            Some(x) => x,
            None => {
                proof {
                    assert(dec_value(s@.take(i as int + 1)) > u64::MAX);
                    if all_digits(s@) {
                        lemma_dec_value_monotone(s@, i as int + 1, s@.len() as int);
                        assert(s@.take(s@.len() as int) =~= s@);
                    }
                }
                return None;
            },
        };
        let acc2 = match acc10.checked_add(d) {
            Some(x) => x,
            None => {
                proof {
                    assert(dec_value(s@.take(i as int + 1)) > u64::MAX);
                    if all_digits(s@) {
                        lemma_dec_value_monotone(s@, i as int + 1, s@.len() as int);
                        assert(s@.take(s@.len() as int) =~= s@);
                    }
                }
                return None;
            },
        };
        acc = acc2;
        i = i + 1;
    }
    proof {
        assert(s@.take(n as int) =~= s@);
    }
    Some(acc)
}

/// The content length a reply's headers declare, when the header is
/// present, nonempty, all digits, and fits in `u64`.
pub open spec fn content_length_of(headers: Seq<(String, String)>) -> Option<int> {
    match kv_lookup(headers, "content-length"@) {
        Some(v) => if v@.len() > 0 && all_digits(v@) && dec_value(v@) <= u64::MAX {
            Some(dec_value(v@))
        } else {
            None
        },
        None => None,
    }
}

/// Extract object metadata from reply headers. The content length is
/// required: a reply without a usable one is a remote reply with
/// unexpected semantics, an `Unexpected` error.
pub fn parse_into_metadata(path: &str, headers: &Vec<(String, String)>) -> (r: Result<
    Metadata,
    Error,
>)
    ensures
        r is Ok <==> content_length_of(headers@) is Some,
        r matches Ok(m) ==> Some(m.content_length as int) == content_length_of(headers@)
            && m.content_type == kv_lookup(headers@, "content-type"@) && m.content_range
            == kv_lookup(headers@, "content-range"@),
        r matches Err(e) ==> e.kind == ErrorKind::Unexpected && !e.temporary,
{
    let length = match kv_get(headers, "content-length") {
        Some(v) => match parse_u64(v.as_str()) {
            Some(n) => n,
            None => {
                return Err(
                    Error::new(
                        ErrorKind::Unexpected,
                        "reply carries an unusable content length header",
                    ).with_context("path", path),
                );
            },
        },
        None => {
            return Err(
                Error::new(
                    ErrorKind::Unexpected,
                    "reply is missing the content length header",
                ).with_context("path", path),
            );
        },
    };
    Ok(
        Metadata {
            content_length: length,
            content_type: kv_get(headers, "content-type"),
            content_range: kv_get(headers, "content-range"),
        },
    )
}

/// A read reply that yields bytes: a successful status whose headers carry
/// a usable content length.
pub open spec fn read_reply_ok(status: u16, headers: Seq<(String, String)>) -> bool {
    (status == 200 || status == 206) && content_length_of(headers) is Some
}

/// Interpret the remote reply to a read. A successful status yields the
/// parsed metadata and the reply body as the reader's bytes, untouched;
/// any other status is normalized onto the error taxonomy.
pub fn parse_read_reply(scheme: Scheme, path: &str, resp: HttpResponse) -> (r: Result<
    (RpRead, Vec<u8>),
    Error,
>)
    ensures
        r is Ok <==> read_reply_ok(resp.status, resp.headers@),
        r matches Ok(p) ==> Some(p.0.metadata.content_length as int) == content_length_of(
            resp.headers@,
        ) && p.0.metadata.content_type == kv_lookup(resp.headers@, "content-type"@)
            && p.0.metadata.content_range == kv_lookup(resp.headers@, "content-range"@) && p.1
            == resp.body,
        resp.status != 200 && resp.status != 206 ==> (r matches Err(e) && e.kind
            == kind_of_status(resp.status) && e.temporary == status_is_transient(resp.status)
            && e.operation@ == "read"@),
        (resp.status == 200 || resp.status == 206) && content_length_of(resp.headers@) is None
            ==> (r matches Err(e) && e.kind == ErrorKind::Unexpected && !e.temporary
            && e.operation@ == "read"@),
{
    if resp.status == 200 || resp.status == 206 {
        match parse_into_metadata(path, &resp.headers) {
            Ok(m) => Ok((RpRead::with_metadata(m), resp.body)),
            Err(e) => Err(e.with_operation("read")),
        }
    } else {
        Err(parse_error("read", scheme.into_static(), resp.status, resp.body))
    }
}

/// Round trip. A faithful remote stores exactly the bytes a write
/// delivered and replies to a later read of the same path with those bytes
/// and a content length header spelling their count; interpreting that
/// reply therefore succeeds, and by the contract of [`parse_read_reply`]
/// the reader's bytes are the reply body — the bytes written — and the
/// metadata length equals their count.
pub proof fn lemma_write_read_round_trip(
    bytes: Seq<u8>,
    status: u16,
    headers: Seq<(String, String)>,
)
    requires
        status == 200,
        bytes.len() <= u64::MAX,
        kv_lookup(headers, "content-length"@) matches Some(v) && v@.len() > 0 && all_digits(v@)
            && dec_value(v@) == bytes.len(),
    ensures
        read_reply_ok(status, headers),
        content_length_of(headers) == Some(bytes.len() as int),
{
}

} // verus!
