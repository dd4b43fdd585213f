//! Reading Firecracker's replies: the body of an HTTP response received on
//! the API socket, located through its head and its `Content-Length`.
use vstd::prelude::*;
use vstd::string::*;
use crate::error::{err_view, RtckError, RtckErrorKind};
use crate::text::{decimal, digit_char};

verus! {

/// What parsing the head of an HTTP response with room for 64 headers
/// yields: `None` when the bytes are not a response head, `Some(None)` when
/// the head is incomplete, and otherwise the offset of the body and the
/// headers as (name, value) pairs, in order.
pub uninterp spec fn parsed_response_head(buf: Seq<u8>) -> Option<Option<(usize, Seq<(Seq<char>, Seq<u8>)>)>>;

/// The view of a parsed head.
pub open spec fn head_view(r: Option<Option<(usize, Vec<(String, Vec<u8>)>)>>) -> Option<Option<(usize, Seq<(Seq<char>, Seq<u8>)>)>> {
    match r {
        None => None,
        Some(None) => Some(None),
        Some(Some((n, hs))) => Some(Some((n, hs@.map_values(|h: (String, Vec<u8>)| (h.0@, h.1@))))),
    }
}

/// Whether a text is made of ASCII characters.
pub open spec fn is_ascii_text(s: Seq<char>) -> bool {
    forall|i: int| 0 <= i < s.len() ==> (s[i] as u32) < 128
}

/// Parses the head of an HTTP response with `httparse::Response::parse`
/// and 64 header slots. Claims that the outcome is `parsed_response_head`
/// of the bytes, and that header names are ASCII (httparse accepts only
/// token characters in them).
#[verifier::external_body]
fn parse_response_head(buf: &Vec<u8>) -> (r: Option<Option<(usize, Vec<(String, Vec<u8>)>)>>)
    ensures
        head_view(r) == parsed_response_head(buf@),
        r matches Some(Some((_, hs))) ==> forall|i: int| 0 <= i < hs@.len() ==> is_ascii_text(#[trigger] hs@[i].0@),
{
    let mut headers = [httparse::EMPTY_HEADER; 64];
    let mut res = httparse::Response::new(&mut headers);
    match res.parse(buf.as_slice()) {
        Err(_) => None,
        Ok(httparse::Status::Partial) => Some(None),
        Ok(httparse::Status::Complete(n)) => Some(Some((
            n,
            res.headers.iter().map(|h| (h.name.to_string(), h.value.to_vec())).collect(),
        ))),
    }
}

/// The header name `content-length` in lower case.
pub open spec fn content_length_name() -> Seq<char> {
    "content-length"@
}

/// Whether an ASCII character equals a lower-case pattern character once
/// lower-cased.
pub open spec fn lower_matches(c: char, e: char) -> bool {
    c == e || ('a' <= e <= 'z' && c as u32 + 32 == e as u32)
}

/// Whether an ASCII header name is `content-length` in any case.
pub open spec fn is_content_length(name: Seq<char>) -> bool {
    name.len() == content_length_name().len()
        && forall|i: int| 0 <= i < name.len() ==> lower_matches(#[trigger] name[i], content_length_name()[i])
}

/// The value of the first `content-length` header, if any.
pub open spec fn content_length_of(hs: Seq<(Seq<char>, Seq<u8>)>) -> Option<Seq<u8>>
    decreases hs.len(),
{
    if hs.len() == 0 {
        None
    } else if is_content_length(hs[0].0) {
        Some(hs[0].1)
    } else {
        content_length_of(hs.drop_first())
    }
}

/// Whether a byte is an ASCII decimal digit.
pub open spec fn is_digit_byte(b: u8) -> bool {
    48 <= b <= 57
}

/// The number an all-digit byte string denotes.
pub open spec fn digits_value(s: Seq<u8>) -> nat
    decreases s.len(),
{
    if s.len() == 0 {
        0
    } else {
        digits_value(s.drop_last()) * 10 + (s.last() - 48) as nat
    }
}

/// The digits of a number's text: what follows an optional leading `+`.
pub open spec fn number_digits(s: Seq<u8>) -> Seq<u8> {
    if s.len() > 0 && s[0] == 43 {
        s.drop_first()
    } else {
        s
    }
}

/// Whether a text is one `str::parse::<usize>` accepts: an optional `+`,
/// then at least one digit, denoting a number that fits in `usize`.
pub open spec fn is_usize_text(s: Seq<u8>) -> bool {
    let d = number_digits(s);
    d.len() > 0 && (forall|i: int| 0 <= i < d.len() ==> is_digit_byte(#[trigger] d[i]))
        && digits_value(d) <= usize::MAX
}

/// The body given when the response announces none.
pub open spec fn empty_body() -> Seq<u8> {
    seq![123u8, 32, 34, 101, 109, 112, 116, 121, 34, 58, 32, 48, 32, 125]
}

/// The inputs on which reading a body is defined: the received bytes are a
/// response head; where complete, a `content-length` header holds a number,
/// and a non-empty body lies within the last chunk read.
pub open spec fn body_defined(received: Seq<u8>, chunk: Seq<u8>) -> bool {
    match parsed_response_head(received) {
        None => false,
        Some(None) => true,
        Some(Some((start, hs))) => match content_length_of(hs) {
            None => true,
            Some(v) => is_usize_text(v) && (digits_value(number_digits(v)) > 0
                ==> start + digits_value(number_digits(v)) <= chunk.len()),
        },
    }
}

/// What reading a body gives on the inputs where it is defined: an error
/// for an incomplete head; the placeholder `{ "empty": 0 }` when there is no
/// `content-length` or it is 0; otherwise that many bytes of the last chunk
/// from the body's offset.
pub open spec fn body_outcome(received: Seq<u8>, chunk: Seq<u8>) -> Result<Seq<u8>, (RtckErrorKind, Seq<char>)> {
    match parsed_response_head(received) {
        Some(Some((start, hs))) => match content_length_of(hs) {
            None => Ok(empty_body()),
            Some(v) => {
                let n = digits_value(number_digits(v));
                if n == 0 {
                    Ok(empty_body())
                } else {
                    Ok(chunk.subrange(start as int, start + n))
                }
            },
        },
        _ => Err((RtckErrorKind::Agent, "Incomplete response"@)),
    }
}

fn is_content_length_name(name: &String) -> (b: bool)
    requires
        is_ascii_text(name@),
    ensures
        b == is_content_length(name@),
{
    let pat = "content-length";
    proof {
        reveal_strlit("content-length");
    }
    let n = name.as_str().unicode_len();
    if n != 14 {
        return false;
    }
    let mut i: usize = 0;
    while i < n
        invariant
            n == name@.len(),
            n == 14,
            pat@ == content_length_name(),
            pat@.len() == 14,
            i <= n,
            forall|j: int| 0 <= j < i ==> lower_matches(#[trigger] name@[j], content_length_name()[j]),
        decreases n - i,
    {
        let c = name.as_str().get_char(i);
        let e = pat.get_char(i);
        let ok = c == e || ('a' <= e && e <= 'z' && (c as u32) + 32 == (e as u32));
        if !ok {
            return false;
        }
        i = i + 1;
    }
    true
}

fn content_length_header(hs: &Vec<(String, Vec<u8>)>) -> (r: Option<&Vec<u8>>)
    requires
        forall|i: int| 0 <= i < hs@.len() ==> is_ascii_text(#[trigger] hs@[i].0@),
    ensures
        match r {
            Some(v) => content_length_of(hs@.map_values(|h: (String, Vec<u8>)| (h.0@, h.1@))) == Some(v@),
            None => content_length_of(hs@.map_values(|h: (String, Vec<u8>)| (h.0@, h.1@))) is None,
        },
{
    let ghost views = hs@.map_values(|h: (String, Vec<u8>)| (h.0@, h.1@));
    let mut i: usize = 0;
    assert(views.skip(0) =~= views);
    while i < hs.len()
        invariant
            i <= hs@.len(),
            views == hs@.map_values(|h: (String, Vec<u8>)| (h.0@, h.1@)),
            forall|k: int| 0 <= k < hs@.len() ==> is_ascii_text(#[trigger] hs@[k].0@),
            content_length_of(views) == content_length_of(views.skip(i as int)),
        decreases hs@.len() - i,
    {
        assert(views.skip(i as int).drop_first() =~= views.skip(i + 1));
        assert(views.skip(i as int)[0] == (hs@[i as int].0@, hs@[i as int].1@));
        if is_content_length_name(&hs[i].0) {
            return Some(&hs[i].1);
        }
        i = i + 1;
    }
    None
}

/// Reads the number in a `content-length` value as `str::parse::<usize>`
/// does: `None` where it would refuse the text.
pub fn parse_usize_text(s: &Vec<u8>) -> (r: Option<usize>)
    ensures
        match r {
            Some(n) => is_usize_text(s@) && n == digits_value(number_digits(s@)),
            None => !is_usize_text(s@),
        },
{
    let start: usize = if s.len() > 0 && s[0] == 43u8 { 1 } else { 0 };
    let ghost d = number_digits(s@);
    assert(d =~= s@.subrange(start as int, s@.len() as int));
    if start >= s.len() {
        return None;
    }
    let mut value: usize = 0;
    let mut i: usize = start;
    while i < s.len()
        invariant
            start <= i <= s@.len(),
            d == number_digits(s@),
            d == s@.subrange(start as int, s@.len() as int),
            forall|j: int| start <= j < i ==> is_digit_byte(#[trigger] s@[j]),
            value == digits_value(s@.subrange(start as int, i as int)),
        decreases s@.len() - i,
    {
        let b = s[i];
        assert(s@.subrange(start as int, i + 1).drop_last() =~= s@.subrange(start as int, i as int));
        if b < 48u8 || b > 57u8 {
            assert(d[i - start] == b);
            assert(!is_digit_byte(d[i - start]));
            return None;
        }
        let step = match value.checked_mul(10) {
            Some(v) => v.checked_add((b - 48u8) as usize),
            None => None,
        };
        match step {
            Some(v) => {
                value = v;
            },
            None => {
                proof {
                    if forall|j: int| 0 <= j < d.len() ==> is_digit_byte(#[trigger] d[j]) {
                        lemma_digits_value_prefix_bound(d, (i + 1 - start) as int);
                        assert(d.subrange(0, i + 1 - start) =~= s@.subrange(start as int, i + 1));
                    }
                }
                return None;
            },
        }
        i = i + 1;
    }
    assert(s@.subrange(start as int, s@.len() as int) =~= d);
    Some(value)
}

/// The number a digit string denotes is at least that of any of its
/// prefixes.
pub proof fn lemma_digits_value_prefix_bound(s: Seq<u8>, k: int)
    requires
        0 <= k <= s.len(),
        forall|i: int| 0 <= i < s.len() ==> is_digit_byte(#[trigger] s[i]),
    ensures
        digits_value(s.subrange(0, k)) <= digits_value(s),
    decreases s.len() - k,
{
    if k < s.len() {
        lemma_digits_value_prefix_bound(s, k + 1);
        assert(s.subrange(0, k + 1).drop_last() =~= s.subrange(0, k));
    } else {
        assert(s.subrange(0, k) =~= s);
    }
}

/// The bytes of an ASCII text.
pub open spec fn ascii_bytes(s: Seq<char>) -> Seq<u8> {
    s.map_values(|c: char| c as u8)
}

proof fn lemma_decimal_bytes(m: nat)
    ensures
        ascii_bytes(decimal(m)).len() > 0,
        ascii_bytes(decimal(m))[0] != 43,
        forall|i: int| 0 <= i < ascii_bytes(decimal(m)).len() ==> is_digit_byte(#[trigger] ascii_bytes(decimal(m))[i]),
        digits_value(ascii_bytes(decimal(m))) == m,
    decreases m,
{
    let d = digit_char(m % 10);
    assert((d as u8) == (m % 10) + 48) by {
        assert(((m % 10) + 48) as u32 <= 57);
    }
    if m < 10 {
        assert(ascii_bytes(decimal(m)) =~= seq![(m + 48) as u8]);
        assert(digits_value(seq![(m + 48) as u8]) == digits_value(Seq::<u8>::empty()) * 10 + m) by {
            assert(seq![(m + 48) as u8].drop_last() =~= Seq::<u8>::empty());
        }
    } else {
        lemma_decimal_bytes(m / 10);
        let prev = ascii_bytes(decimal(m / 10));
        assert(ascii_bytes(decimal(m)) =~= prev.push(((m % 10) + 48) as u8));
        assert(prev.push(((m % 10) + 48) as u8).drop_last() =~= prev);
        assert(ascii_bytes(decimal(m))[0] == prev[0]);
    }
}

/// A length written in decimal, as a request's `Content-Length` is, is read
/// back as the same number.
pub proof fn lemma_content_length_round_trip(n: usize)
    ensures
        is_usize_text(ascii_bytes(decimal(n as nat))),
        digits_value(number_digits(ascii_bytes(decimal(n as nat)))) == n,
{
    lemma_decimal_bytes(n as nat);
}

fn empty_body_bytes() -> (v: Vec<u8>)
    ensures
        v@ == empty_body(),
{
    let v: Vec<u8> = vec![123u8, 32, 34, 101, 109, 112, 116, 121, 34, 58, 32, 48, 32, 125];
    assert(v@ =~= empty_body());
    v
}

fn slice_bytes(chunk: &Vec<u8>, start: usize, end: usize) -> (v: Vec<u8>)
    requires
        start <= end <= chunk@.len(),
    ensures
        v@ == chunk@.subrange(start as int, end as int),
{
    let mut v: Vec<u8> = Vec::new();
    let mut i: usize = start;
    while i < end
        invariant
            start <= i <= end <= chunk@.len(),
            v@ == chunk@.subrange(start as int, i as int),
        decreases end - i,
    {
        v.push(chunk[i]);
        assert(v@ =~= chunk@.subrange(start as int, i + 1));
        i = i + 1;
    }
    v
}

/// The body of a response read from the API socket. `received` is all that
/// was read; `chunk` is the last block read, from which the body is taken.
pub fn response_body(received: &Vec<u8>, chunk: &Vec<u8>) -> (r: Result<Vec<u8>, RtckError>)
    requires
        body_defined(received@, chunk@),
    ensures
        match (r, body_outcome(received@, chunk@)) {
            (Ok(v), Ok(w)) => v@ == w,
            (Err(e), Err(w)) => err_view(e) == w,
            _ => false,
        },
{
    let head = parse_response_head(received);
    match head {
        None => Err(RtckError::Agent(String::from_str("Malformed response"))),
        Some(None) => Err(RtckError::Agent(String::from_str("Incomplete response"))),
        Some(Some((start, hs))) => {
            let ghost hv = hs@.map_values(|h: (String, Vec<u8>)| (h.0@, h.1@));
            assert(parsed_response_head(received@) == Some(Some((start, hv))));
            match content_length_header(&hs) {
                None => Ok(empty_body_bytes()),
                Some(v) => match parse_usize_text(v) {
                    None => Err(RtckError::Agent(String::from_str("Malformed content length"))),
                    Some(n) => {
                        if n == 0 {
                            Ok(empty_body_bytes())
                        } else {
                            assert(content_length_of(hv) == Some(v@));
                            let len = chunk.len();
                            assert(start + n <= len);
                            Ok(slice_bytes(chunk, start, start + n))
                        }
                    },
                },
            }
        },
    }
}

/// Reads the body of a response, or gives `None` where the bytes are not a
/// response head, the `content-length` is not a number, or the announced
/// body overruns the last chunk.
pub fn try_response_body(received: &Vec<u8>, chunk: &Vec<u8>) -> (r: Option<Result<Vec<u8>, RtckError>>)
    ensures
        match r {
            None => !body_defined(received@, chunk@),
            Some(res) => body_defined(received@, chunk@) && match (res, body_outcome(received@, chunk@)) {
                (Ok(v), Ok(w)) => v@ == w,
                (Err(e), Err(w)) => err_view(e) == w,
                _ => false,
            },
        },
{
    let head = parse_response_head(received);
    match &head {
        None => None,
        Some(None) => Some(response_body(received, chunk)),
        Some(Some((start, hs))) => {
            match content_length_header(hs) {
                None => Some(response_body(received, chunk)),
                Some(v) => match parse_usize_text(v) {
                    None => None,
                    Some(n) => {
                        if n > 0 && (n > chunk.len() || *start > chunk.len() - n) {
                            None
                        } else {
                            Some(response_body(received, chunk))
                        }
                    },
                },
            }
        },
    }
}

} // verus!
