//! HTTP/1.1 request framing and the plain-text response reading used to talk
//! to the Firecracker API socket.
use vstd::prelude::*;
use vstd::string::*;
use crate::text::{
    after_first_word, contains, decimal, decimal_string, find, find_in, first_line, first_word,
    has_two_words, line_at, lines, push_decimal, rest_after_line, second_word, skip_ws,
    skip_ws_at, substring, to_chars, word_end_at, word_len,
};

verus! {

/// The text of one header line: `key: value` and a line break.
pub open spec fn header_line(key: Seq<char>, value: Seq<char>) -> Seq<char> {
    key + ": "@ + value + "\r\n"@
}

/// The header block made of the given (key, value) pairs in order.
pub open spec fn header_block(headers: Seq<(Seq<char>, Seq<char>)>) -> Seq<char>
    decreases headers.len(),
{
    if headers.len() == 0 {
        Seq::empty()
    } else {
        header_block(headers.drop_last()) + header_line(headers.last().0, headers.last().1)
    }
}

/// The byte length of a text once written as UTF-8.
pub open spec fn byte_len(s: Seq<char>) -> nat {
    vstd::utf8::encode_utf8(s).len()
}

/// An HTTP request about to be written to the API socket.
/// The header pairs keep the order in which they were added.
#[derive(Debug)]
pub struct HttpRequest {
    pub method: String,
    pub path: String,
    pub version: String,
    pub headers: Vec<(String, String)>,
    pub body: Option<String>,
}

impl HttpRequest {
    /// Whether no header name occurs twice: the headers stand for a map from
    /// name to value.
    pub open spec fn well_formed(&self) -> bool {
        forall|i: int, j: int| 0 <= i < j < self.headers@.len() ==> #[trigger] self.headers@[i].0@ != #[trigger] self.headers@[j].0@
    }

    /// The header pairs as texts.
    pub open spec fn header_views(&self) -> Seq<(Seq<char>, Seq<char>)> {
        self.headers@.map_values(|h: (String, String)| (h.0@, h.1@))
    }

    /// The whole request as `serialize_request` writes it.
    pub open spec fn wire_text(&self) -> Seq<char> {
        self.method@ + " "@ + self.path@ + " "@ + self.version@ + "\r\n"@
            + header_block(self.header_views())
            + match self.body {
                Some(b) => "Content-Length: "@ + decimal(byte_len(b@)) + "\r\n"@,
                None => Seq::empty(),
            }
            + "\r\n"@
            + match self.body {
                Some(b) => b@,
                None => Seq::empty(),
            }
    }

    /// A request with version `HTTP/1.1`; a given content length becomes the
    /// one header `Content-Length`.
    pub fn new(method: &str, path: &str, content_length: Option<usize>, body: Option<String>) -> (r: Self)
        ensures
            r.method@ == method@,
            r.path@ == path@,
            r.version@ == "HTTP/1.1"@,
            r.body == body,
            r.well_formed(),
            match content_length {
                Some(n) => r.header_views() == seq![("Content-Length"@, decimal(n as nat))],
                None => r.header_views() == Seq::<(Seq<char>, Seq<char>)>::empty(),
            },
    {
        let mut headers: Vec<(String, String)> = Vec::new();
        if let Some(n) = content_length {
            headers.push((String::from_str("Content-Length"), decimal_string(n as u64)));
        }
        let r = HttpRequest {
            method: String::from_str(method),
            path: String::from_str(path),
            version: String::from_str("HTTP/1.1"),
            headers,
            body,
        };
        proof {
            if content_length is Some {
                assert(r.header_views() =~= seq![("Content-Length"@, decimal(content_length->0 as nat))]);
            } else {
                assert(r.header_views() =~= Seq::<(Seq<char>, Seq<char>)>::empty());
            }
        }
        r
    }
}

/// Writes a request as HTTP/1.1 text: request line, the headers in order, a
/// `Content-Length` line for the body's byte length when there is a body, an
/// empty line, then the body.
pub fn serialize_request(request: &HttpRequest) -> (s: String)
    requires
        request.well_formed(),
        request.body matches Some(b) ==> byte_len(b@) <= usize::MAX,
    ensures
        s@ == request.wire_text(),
{
    let mut s = String::new();
    s.append(request.method.as_str());
    s.append(" ");
    s.append(request.path.as_str());
    s.append(" ");
    s.append(request.version.as_str());
    s.append("\r\n");
    let ghost start = s@;
    let mut i: usize = 0;
    while i < request.headers.len()
        invariant
            i <= request.headers@.len(),
            s@ == start + header_block(request.header_views().take(i as int)),
        decreases request.headers@.len() - i,
    {
        let (k, v) = &request.headers[i];
        s.append(k.as_str());
        s.append(": ");
        s.append(v.as_str());
        s.append("\r\n");
        proof {
            let hv = request.header_views();
            assert(hv.take(i + 1).drop_last() =~= hv.take(i as int));
        }
        i = i + 1;
    }
    assert(request.header_views().take(request.headers@.len() as int) =~= request.header_views());
    if let Some(body) = &request.body {
        s.append("Content-Length: ");
        let n = body.as_str().len();
        push_decimal(&mut s, n as u64);
        s.append("\r\n");
    }
    s.append("\r\n");
    if let Some(body) = &request.body {
        s.append(body.as_str());
    }
    assert(s@ =~= request.wire_text());
    s
}

/// A request for the Firecracker API: request line, `Content-Type:
/// application/json`, and, with a body, its byte length and the body.
pub open spec fn api_request_text(request_type: Seq<char>, endpoint: Seq<char>, body: Option<Seq<char>>) -> Seq<char> {
    let head = request_type + " "@ + endpoint + " HTTP/1.1\r\nContent-Type: application/json\r\n"@;
    match body {
        Some(b) => head + "Content-Length: "@ + decimal(byte_len(b)) + "\r\n\r\n"@ + b,
        None => head + "\r\n"@,
    }
}

/// Frames an API request with an optional JSON body.
pub fn http_request(request_type: &str, endpoint: &str, body: Option<String>) -> (s: String)
    requires
        body matches Some(b) ==> byte_len(b@) <= usize::MAX,
    ensures
        s@ == api_request_text(request_type@, endpoint@, match body { Some(b) => Some(b@), None => None }),
{
    let mut s = String::new();
    s.append(request_type);
    s.append(" ");
    s.append(endpoint);
    s.append(" HTTP/1.1\r\nContent-Type: application/json\r\n");
    match body {
        Some(b) => {
            s.append("Content-Length: ");
            let n = b.as_str().len();
            push_decimal(&mut s, n as u64);
            s.append("\r\n\r\n");
            s.append(b.as_str());
        },
        None => {
            s.append("\r\n");
        },
    }
    assert(s@ =~= api_request_text(request_type@, endpoint@, match body { Some(b) => Some(b@), None => None }));
    s
}


/// The reason text that goes with a status code.
pub open spec fn status_text(code: Seq<char>) -> Seq<char> {
    if code == "200"@ {
        "OK"@
    } else if code == "204"@ {
        "No Content"@
    } else if code == "400"@ {
        "Bad Request"@
    } else if code == "404"@ {
        "Not Found"@
    } else if code == "500"@ {
        "Internal Server Error"@
    } else {
        "Not Found"@
    }
}

/// What one response line does to the (status code, body) read so far: a
/// line holding `HTTP` gives the status code (its second word), a header line
/// (one holding `: `) and an empty line change nothing, and any other line is
/// taken as the body.
pub open spec fn line_step(acc: (Seq<char>, Seq<char>), l: Seq<char>) -> (Seq<char>, Seq<char>) {
    if contains(l, "HTTP"@) {
        (second_word(l), acc.1)
    } else if contains(l, ": "@) {
        acc
    } else if l.len() == 0 {
        acc
    } else {
        (acc.0, l)
    }
}

/// The (status code, body) after reading the given lines in order.
pub open spec fn read_lines(ls: Seq<Seq<char>>, acc: (Seq<char>, Seq<char>)) -> (Seq<char>, Seq<char>)
    decreases ls.len(),
{
    if ls.len() == 0 {
        acc
    } else {
        read_lines(ls.drop_first(), line_step(acc, ls[0]))
    }
}

/// Whether every status line (a line holding `HTTP`) has a second word.
pub open spec fn status_lines_well_formed(ls: Seq<Seq<char>>) -> bool {
    forall|i: int| 0 <= i < ls.len() && contains(#[trigger] ls[i], "HTTP"@) ==> has_two_words(ls[i])
}

/// The (status code, body) of a response text.
pub open spec fn response_parts(res: Seq<char>) -> (Seq<char>, Seq<char>) {
    read_lines(lines(res), (Seq::empty(), Seq::empty()))
}

fn two_words(v: &Vec<char>, lo: usize, hi: usize) -> (r: (String, String))
    requires
        lo <= hi <= v@.len(),
        has_two_words(v@.subrange(lo as int, hi as int)),
    ensures
        r.0@ == first_word(v@.subrange(lo as int, hi as int)),
        r.1@ == second_word(v@.subrange(lo as int, hi as int)),
{
    let ghost l = v@.subrange(lo as int, hi as int);
    let j1 = skip_ws_at(v, lo, hi);
    let e1 = word_end_at(v, j1, hi);
    let j2 = skip_ws_at(v, e1, hi);
    let e2 = word_end_at(v, j2, hi);
    assert(first_word(l) =~= v@.subrange(j1 as int, e1 as int));
    assert(after_first_word(l) =~= v@.subrange(e1 as int, hi as int));
    assert(second_word(l) =~= v@.subrange(j2 as int, e2 as int));
    (substring(v, j1, e1), substring(v, j2, e2))
}

/// Splits a status line into its first two words: the version and the
/// status code.
pub fn process_res_line(s: &str) -> (r: (String, String))
    requires
        has_two_words(s@),
    ensures
        r.0@ == first_word(s@),
        r.1@ == second_word(s@),
{
    let v = to_chars(s);
    assert(v@.subrange(0, v@.len() as int) =~= s@);
    two_words(&v, 0, v.len())
}

/// The key and value of a header line: the text before the first `: `, and
/// the text between it and the next `: ` (empty when the line holds none).
pub open spec fn header_parts(s: Seq<char>) -> (Seq<char>, Seq<char>) {
    match find(s, ": "@) {
        Some(i) => {
            let rest = s.skip(i + 2int);
            (s.take(i as int), match find(rest, ": "@) {
                Some(k) => rest.take(k as int),
                None => rest,
            })
        },
        None => (s, Seq::empty()),
    }
}

proof fn lemma_find_bound(s: Seq<char>, p: Seq<char>)
    ensures
        find(s, p) matches Some(i) ==> i + p.len() <= s.len(),
    decreases s.len(),
{
    if s.len() < p.len() {
    } else if s.take(p.len() as int) == p {
    } else if s.len() == 0 {
    } else {
        lemma_find_bound(s.drop_first(), p);
    }
}

/// Splits a header line at `: `.
pub fn process_header_line(s: &str) -> (r: (String, String))
    ensures
        (r.0@, r.1@) == header_parts(s@),
{
    let v = to_chars(s);
    let sep = to_chars(": ");
    let n = v.len();
    assert(v@.subrange(0, n as int) =~= s@);
    match find_in(&v, 0, n, &sep) {
        Some(i) => {
            proof {
                reveal_strlit(": ");
                lemma_find_bound(s@, ": "@);
            }
            let key = substring(&v, 0, i);
            assert(s@.take(i as int) =~= v@.subrange(0, i as int));
            let start = i + 2;
            assert(s@.skip(i + 2int) =~= v@.subrange(start as int, n as int));
            match find_in(&v, start, n, &sep) {
                Some(k) => {
                    proof {
                        lemma_find_bound(v@.subrange(start as int, n as int), ": "@);
                    }
                    assert(v@.subrange(start as int, n as int).take(k as int) =~= v@.subrange(start as int, (start + k) as int));
                    (key, substring(&v, start, start + k))
                },
                None => (key, substring(&v, start, n)),
            }
        },
        None => (String::from_str(s), String::new()),
    }
}

/// The reason text for a status code.
pub fn status_text_of(code: &String) -> (t: String)
    ensures
        t@ == status_text(code@),
{
    if *code == String::from_str("200") {
        String::from_str("OK")
    } else if *code == String::from_str("204") {
        String::from_str("No Content")
    } else if *code == String::from_str("400") {
        String::from_str("Bad Request")
    } else if *code == String::from_str("404") {
        String::from_str("Not Found")
    } else if *code == String::from_str("500") {
        String::from_str("Internal Server Error")
    } else {
        String::from_str("Not Found")
    }
}

proof fn lemma_lines_unfold(s: Seq<char>)
    requires
        s.len() > 0,
    ensures
        lines(s) == seq![first_line(s)] + lines(rest_after_line(s)),
        lines(s)[0] == first_line(s),
        lines(s).drop_first() == lines(rest_after_line(s)),
{
    assert(lines(s).drop_first() =~= lines(rest_after_line(s)));
}

fn has_two_words_at(v: &Vec<char>, lo: usize, hi: usize) -> (b: bool)
    requires
        lo <= hi <= v@.len(),
    ensures
        b == has_two_words(v@.subrange(lo as int, hi as int)),
{
    let ghost l = v@.subrange(lo as int, hi as int);
    let j1 = skip_ws_at(v, lo, hi);
    let e1 = word_end_at(v, j1, hi);
    let j2 = skip_ws_at(v, e1, hi);
    assert(after_first_word(l) =~= v@.subrange(e1 as int, hi as int));
    j1 < hi && j2 < hi
}

/// Whether every status line of a response text has a second word, so that
/// `res_into_parts` can read it.
pub fn status_lines_ok(res: &String) -> (b: bool)
    ensures
        b == status_lines_well_formed(lines(res@)),
{
    let v = to_chars(res.as_str());
    let http = to_chars("HTTP");
    let n = v.len();
    let mut pos: usize = 0;
    assert(v@.subrange(0, n as int) =~= res@);
    while pos < n
        invariant
            pos <= n == v@.len(),
            v@ == res@,
            http@ == "HTTP"@,
            status_lines_well_formed(lines(res@)) == status_lines_well_formed(lines(v@.subrange(pos as int, n as int))),
        decreases n - pos,
    {
        let ghost t = v@.subrange(pos as int, n as int);
        let (end, next) = line_at(&v, pos);
        proof {
            lemma_lines_unfold(t);
            assert(lines(t)[0] == v@.subrange(pos as int, end as int));
            assert(status_lines_well_formed(lines(t)) == (
                (contains(lines(t)[0], "HTTP"@) ==> has_two_words(lines(t)[0]))
                && status_lines_well_formed(lines(rest_after_line(t))))) by {
                if status_lines_well_formed(lines(t)) {
                    assert forall|i: int| 0 <= i < lines(rest_after_line(t)).len() && contains(#[trigger] lines(rest_after_line(t))[i], "HTTP"@)
                        implies has_two_words(lines(rest_after_line(t))[i]) by {
                        assert(lines(t)[i + 1] == lines(rest_after_line(t))[i]);
                    }
                }
                if (contains(lines(t)[0], "HTTP"@) ==> has_two_words(lines(t)[0]))
                    && status_lines_well_formed(lines(rest_after_line(t))) {
                    assert forall|i: int| 0 <= i < lines(t).len() && contains(#[trigger] lines(t)[i], "HTTP"@)
                        implies has_two_words(lines(t)[i]) by {
                        if i > 0 {
                            assert(lines(t)[i] == lines(rest_after_line(t))[i - 1]);
                        }
                    }
                }
            }
        }
        if find_in(&v, pos, end, &http).is_some() {
            if !has_two_words_at(&v, pos, end) {
                return false;
            }
        }
        pos = next;
    }
    assert(lines(v@.subrange(n as int, n as int)) =~= Seq::<Seq<char>>::empty());
    true
}

/// Reads a plain-text response: its status code, the reason text for that
/// code, and its body (the last line that is neither a status line, a header
/// line nor empty).
pub fn res_into_parts(res: String) -> (parts: (String, String, String))
    requires
        status_lines_well_formed(lines(res@)),
    ensures
        (parts.0@, parts.2@) == response_parts(res@),
        parts.1@ == status_text(parts.0@),
{
    let v = to_chars(res.as_str());
    let http = to_chars("HTTP");
    let sep = to_chars(": ");
    let n = v.len();
    let mut status = String::new();
    let mut body = String::new();
    let mut pos: usize = 0;
    assert(v@.subrange(0, n as int) =~= res@);
    while pos < n
        invariant
            pos <= n == v@.len(),
            v@ == res@,
            http@ == "HTTP"@,
            sep@ == ": "@,
            status_lines_well_formed(lines(v@.subrange(pos as int, n as int))),
            response_parts(res@) == read_lines(lines(v@.subrange(pos as int, n as int)), (status@, body@)),
        decreases n - pos,
    {
        let ghost t = v@.subrange(pos as int, n as int);
        let (end, next) = line_at(&v, pos);
        proof {
            lemma_lines_unfold(t);
            assert(lines(t)[0] == v@.subrange(pos as int, end as int));
            assert forall|i: int| 0 <= i < lines(rest_after_line(t)).len() && contains(#[trigger] lines(rest_after_line(t))[i], "HTTP"@)
                implies has_two_words(lines(rest_after_line(t))[i]) by {
                assert(lines(t)[i + 1] == lines(rest_after_line(t))[i]);
            }
        }
        let ghost l = v@.subrange(pos as int, end as int);
        if find_in(&v, pos, end, &http).is_some() {
            proof {
                assert(contains(lines(t)[0], "HTTP"@));
            }
            let (_version, code) = two_words(&v, pos, end);
            status = code;
        } else if find_in(&v, pos, end, &sep).is_some() {
        } else if end == pos {
            assert(l.len() == 0);
        } else {
            body = substring(&v, pos, end);
        }
        pos = next;
    }
    assert(lines(v@.subrange(n as int, n as int)) =~= Seq::<Seq<char>>::empty());
    let text = status_text_of(&status);
    (status, text, body)
}


/// The request methods of the Firecracker API.
#[derive(Clone, Copy, PartialEq, Eq, Structural, Debug)]
pub enum HttpMethod {
    Get,
    Put,
    Patch,
}

/// The method's name on the request line.
pub open spec fn method_text(m: HttpMethod) -> Seq<char> {
    match m {
        HttpMethod::Get => "GET"@,
        HttpMethod::Put => "PUT"@,
        HttpMethod::Patch => "PATCH"@,
    }
}

impl HttpMethod {
    /// The method's name on the request line.
    pub fn to_str(&self) -> (s: &'static str)
        ensures
            s@ == method_text(*self),
    {
        match self {
            HttpMethod::Get => "GET",
            HttpMethod::Put => "PUT",
            HttpMethod::Patch => "PATCH",
        }
    }
}

/// An API command: a method, a URL and an already encoded JSON payload.
#[derive(Debug)]
pub struct Command {
    pub method: HttpMethod,
    pub url: String,
    pub data: String,
}

/// The text of a command on the wire: request line, the payload's byte length,
/// JSON content and accept types, an empty line, and the payload.
pub open spec fn command_text(m: HttpMethod, url: Seq<char>, data: Seq<char>) -> Seq<char> {
    method_text(m) + " "@ + url + " HTTP/1.1\r\nContent-Length: "@ + decimal(byte_len(data))
        + "\r\nContent-Type: application/json\r\nAccept: application/json\r\n\r\n"@ + data
}

impl Command {
    /// Frames the command as an HTTP/1.1 request.
    pub fn encode(&self) -> (s: String)
        requires
            byte_len(self.data@) <= usize::MAX,
        ensures
            s@ == command_text(self.method, self.url@, self.data@),
    {
        let mut s = String::new();
        s.append(self.method.to_str());
        s.append(" ");
        s.append(self.url.as_str());
        s.append(" HTTP/1.1\r\nContent-Length: ");
        let n = self.data.as_str().len();
        push_decimal(&mut s, n as u64);
        s.append("\r\nContent-Type: application/json\r\nAccept: application/json\r\n\r\n");
        s.append(self.data.as_str());
        assert(s@ =~= command_text(self.method, self.url@, self.data@));
        s
    }
}

} // verus!
