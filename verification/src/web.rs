//! The rules of the development web server of a session: route paths,
//! request paths, content types, and the `.web` commands.

use crate::paths::{extension, extension_of, file_name_of};
use crate::text::{
    chars_of, contains, decimal, decimal_text, find, find_in, is_str, lines, lowered, parse_number,
    parsed_number, push_all, push_str, rfind_char, slice_of, split, split_lines, split_on,
    split_words, starts_with, str_eq, string_of, text_contains, text_starts_with, texts,
    to_ascii_lower, trim, trimmed, words,
};
use vstd::prelude::*;
use vstd::utf8::{decode_utf8, encode_utf8, valid_utf8};

verus! {

/// The host on which the server listens unless told otherwise.
pub const DEFAULT_WEB_HOST: &'static str = "127.0.0.1";

/// The port on which the server listens unless told otherwise.
pub const DEFAULT_WEB_PORT: u16 = 4173;

/// Where the server listens and what it serves.
#[derive(Debug, Clone, PartialEq, Eq)]
pub struct WebServerConfig {
    pub host: String,
    pub port: u16,
    pub root_dir: String,
}

/// Why a command or a route was refused.
#[derive(Debug, Clone, PartialEq, Eq)]
pub enum WebError {
    /// The route path holds `..`.
    InvalidRoute(String),
    /// The flag stands last, without its value.
    MissingValue(String),
    /// The value of `--port` is no port number.
    InvalidPort(String),
    /// `.web start` does not know the flag.
    UnknownFlag(String),
    /// `.web` does not know the action.
    UnknownAction(String),
}

impl WebError {
    /// What this error says.
    pub open spec fn message_spec(self) -> Seq<char> {
        match self {
            WebError::InvalidRoute(raw) => "invalid route path '"@ + raw@ + "'"@,
            WebError::MissingValue(flag) => "missing value for "@ + flag@,
            WebError::InvalidPort(value) => "invalid --port value '"@ + value@ + "'"@,
            WebError::UnknownFlag(flag) => "unknown .web start flag '"@ + flag@ + "'"@,
            WebError::UnknownAction(action) => "unknown .web action '"@ + action@ + "'"@,
        }
    }

    /// What this error says.
    pub fn message(&self) -> (r: String)
        ensures
            r@ == self.message_spec(),
    {
        let mut out: Vec<char> = Vec::new();
        match self {
            WebError::InvalidRoute(raw) => {
                push_str(&mut out, "invalid route path '");
                push_str(&mut out, raw.as_str());
                push_str(&mut out, "'");
            },
            WebError::MissingValue(flag) => {
                push_str(&mut out, "missing value for ");
                push_str(&mut out, flag.as_str());
            },
            WebError::InvalidPort(value) => {
                push_str(&mut out, "invalid --port value '");
                push_str(&mut out, value.as_str());
                push_str(&mut out, "'");
            },
            WebError::UnknownFlag(flag) => {
                push_str(&mut out, "unknown .web start flag '");
                push_str(&mut out, flag.as_str());
                push_str(&mut out, "'");
            },
            WebError::UnknownAction(action) => {
                push_str(&mut out, "unknown .web action '");
                push_str(&mut out, action.as_str());
                push_str(&mut out, "'");
            },
        }
        string_of(&out)
    }
}

// ---------------------------------------------------------------------------
// Routes
// ---------------------------------------------------------------------------

/// A route path with its leading slash.
pub open spec fn rooted(raw: Seq<char>) -> Seq<char> {
    if starts_with(raw, "/"@) {
        raw
    } else {
        "/"@ + raw
    }
}

/// The key of a route: its path with a leading slash.  A path that holds
/// `..` is no route.
pub fn route_path(raw: &str) -> (r: Result<String, WebError>)
    ensures
        match r {
            Ok(path) => !contains(rooted(raw@), ".."@) && path@ == rooted(raw@),
            Err(e) => contains(rooted(raw@), ".."@) && (e matches WebError::InvalidRoute(text)
                && text@ == raw@),
        },
{
    let text = chars_of(raw);
    let slash = chars_of("/");
    let mut normalized: Vec<char> = Vec::new();
    if !text_starts_with(&text, &slash) {
        push_str(&mut normalized, "/");
    }
    push_all(&mut normalized, &text);
    assert(normalized@ =~= rooted(raw@));
    if text_contains(&normalized, "..") {
        return Err(WebError::InvalidRoute(raw.to_string()));
    }
    Ok(string_of(&normalized))
}

/// The reason phrase of a status code; a code without one of its own is
/// given that of 200.
pub open spec fn reason_phrase(code: u16) -> Seq<char> {
    if code == 201 {
        "Created"@
    } else if code == 202 {
        "Accepted"@
    } else if code == 204 {
        "No Content"@
    } else if code == 400 {
        "Bad Request"@
    } else if code == 404 {
        "Not Found"@
    } else if code == 405 {
        "Method Not Allowed"@
    } else if code == 500 {
        "Internal Server Error"@
    } else {
        "OK"@
    }
}

/// The reason phrase of a status code.
pub fn status_text(code: u16) -> (r: &'static str)
    ensures
        r@ == reason_phrase(code),
{
    if code == 201 {
        "Created"
    } else if code == 202 {
        "Accepted"
    } else if code == 204 {
        "No Content"
    } else if code == 400 {
        "Bad Request"
    } else if code == 404 {
        "Not Found"
    } else if code == 405 {
        "Method Not Allowed"
    } else if code == 500 {
        "Internal Server Error"
    } else {
        "OK"
    }
}

/// The content type of a file, told from the extension of its path in
/// lower case.
pub open spec fn content_type_of(ext: Seq<char>) -> Seq<char> {
    if ext == "html"@ || ext == "htm"@ {
        "text/html; charset=utf-8"@
    } else if ext == "css"@ {
        "text/css; charset=utf-8"@
    } else if ext == "js"@ || ext == "mjs"@ || ext == "cjs"@ {
        "application/javascript; charset=utf-8"@
    } else if ext == "json"@ {
        "application/json; charset=utf-8"@
    } else if ext == "svg"@ {
        "image/svg+xml"@
    } else if ext == "png"@ {
        "image/png"@
    } else if ext == "jpg"@ || ext == "jpeg"@ {
        "image/jpeg"@
    } else if ext == "gif"@ {
        "image/gif"@
    } else if ext == "webp"@ {
        "image/webp"@
    } else if ext == "ico"@ {
        "image/x-icon"@
    } else if ext == "txt"@ {
        "text/plain; charset=utf-8"@
    } else {
        "application/octet-stream"@
    }
}

/// The extension of a path in lower case; empty where it has none.
pub open spec fn lowered_extension(path: Seq<char>) -> Seq<char> {
    match extension_of(path) {
        Some(ext) => lowered(ext),
        None => Seq::empty(),
    }
}

/// The content type of a file, told from its extension.
pub fn guess_content_type(path: &str) -> (r: &'static str)
    ensures
        r@ == content_type_of(lowered_extension(path@)),
{
    let ext = match extension(path) {
        Some(ext) => to_ascii_lower(&chars_of(ext.as_str())),
        None => Vec::new(),
    };
    if is_str(&ext, "html") || is_str(&ext, "htm") {
        "text/html; charset=utf-8"
    } else if is_str(&ext, "css") {
        "text/css; charset=utf-8"
    } else if is_str(&ext, "js") || is_str(&ext, "mjs") || is_str(&ext, "cjs") {
        "application/javascript; charset=utf-8"
    } else if is_str(&ext, "json") {
        "application/json; charset=utf-8"
    } else if is_str(&ext, "svg") {
        "image/svg+xml"
    } else if is_str(&ext, "png") {
        "image/png"
    } else if is_str(&ext, "jpg") || is_str(&ext, "jpeg") {
        "image/jpeg"
    } else if is_str(&ext, "gif") {
        "image/gif"
    } else if is_str(&ext, "webp") {
        "image/webp"
    } else if is_str(&ext, "ico") {
        "image/x-icon"
    } else if is_str(&ext, "txt") {
        "text/plain; charset=utf-8"
    } else {
        "application/octet-stream"
    }
}

// ---------------------------------------------------------------------------
// Request paths
// ---------------------------------------------------------------------------

/// The value of a hexadecimal digit.
pub open spec fn hex_value(b: u8) -> Option<int> {
    if 48 <= b <= 57 {
        Some(b - 48)
    } else if 97 <= b <= 102 {
        Some(b - 87)
    } else if 65 <= b <= 70 {
        Some(b - 55)
    } else {
        None
    }
}

/// The byte that the two bytes behind a `%` stand for: two hexadecimal
/// digits, or a `+` and one.
pub open spec fn escape_value(first: u8, second: u8) -> Option<u8> {
    match hex_value(second) {
        None => None,
        Some(low) => match hex_value(first) {
            Some(high) => Some((16 * high + low) as u8),
            None => if first == 43 {
                Some(low as u8)
            } else {
                None
            },
        },
    }
}

/// The bytes of `bytes` from position `i` on with every escape replaced
/// by the byte that it stands for.  An escape that is cut short or is not
/// hexadecimal spoils the whole.
pub open spec fn unescaped_from(bytes: Seq<u8>, i: int) -> Option<Seq<u8>>
    decreases bytes.len() - i,
{
    if i < 0 || i >= bytes.len() {
        Some(Seq::empty())
    } else if bytes[i] == 37 {
        if i + 2 >= bytes.len() {
            None
        } else {
            match (escape_value(bytes[i + 1], bytes[i + 2]), unescaped_from(bytes, i + 3)) {
                (Some(value), Some(rest)) => Some(seq![value] + rest),
                _ => None,
            }
        }
    } else {
        match unescaped_from(bytes, i + 1) {
            Some(rest) => Some(seq![bytes[i]] + rest),
            None => None,
        }
    }
}

/// A path with its percent escapes resolved, where that gives text.
pub open spec fn percent_decoded(path: Seq<char>) -> Option<Seq<char>> {
    match unescaped_from(encode_utf8(path), 0) {
        Some(bytes) => if valid_utf8(bytes) {
            Some(decode_utf8(bytes))
        } else {
            None
        },
        None => None,
    }
}

fn hex_digit_value(b: u8) -> (r: Option<u8>)
    ensures
        match r {
            Some(v) => hex_value(b) == Some(v as int) && v < 16,
            None => hex_value(b) is None,
        },
{
    if 48 <= b && b <= 57 {
        Some(b - 48)
    } else if 97 <= b && b <= 102 {
        Some(b - 87)
    } else if 65 <= b && b <= 70 {
        Some(b - 55)
    } else {
        None
    }
}

fn escape_byte(first: u8, second: u8) -> (r: Option<u8>)
    ensures
        r == escape_value(first, second),
{
    match hex_digit_value(second) {
        None => None,
        Some(low) => match hex_digit_value(first) {
            Some(high) => Some(16 * high + low),
            None => if first == 43 {
                Some(low)
            } else {
                None
            },
        },
    }
}

/// `String::from_utf8`: the text that `bytes` encode, where they are
/// well-formed UTF-8.
#[verifier::external_body]
fn text_from_utf8(bytes: Vec<u8>) -> (r: Option<String>)
    ensures
        match r {
            Some(text) => valid_utf8(bytes@) && text@ == decode_utf8(bytes@),
            None => !valid_utf8(bytes@),
        },
{
    String::from_utf8(bytes).ok()
}

/// Resolves the percent escapes of a path.
pub fn decode_percent_path(path: &str) -> (r: Option<String>)
    ensures
        r.deep_view() == percent_decoded(path@),
{
    let bytes = path.as_bytes_vec();
    let mut out: Vec<u8> = Vec::new();
    let mut i: usize = 0;
    assert(Seq::<u8>::empty() + unescaped_from(bytes@, 0)->0 =~= unescaped_from(bytes@, 0)->0);
    while i < bytes.len()
        invariant
            i <= bytes.len(),
            bytes@ == encode_utf8(path@),
            unescaped_from(bytes@, 0) == match unescaped_from(bytes@, i as int) {
                Some(rest) => Some(out@ + rest),
                None => None,
            },
        decreases bytes.len() - i,
    {
        if bytes[i] == 37 {
            if bytes.len() - i <= 2 {
                return None;
            }
            match escape_byte(bytes[i + 1], bytes[i + 2]) {
                None => {
                    return None;
                },
                Some(value) => {
                    proof {
                        let rest = unescaped_from(bytes@, i + 3);
                        if rest is Some {
                            assert(out@ + (seq![value] + rest->0) =~= out@.push(value) + rest->0);
                        }
                    }
                    out.push(value);
                    i += 3;
                },
            }
        } else {
            proof {
                let rest = unescaped_from(bytes@, i + 1);
                if rest is Some {
                    assert(out@ + (seq![bytes@[i as int]] + rest->0) =~= out@.push(bytes@[i as int])
                        + rest->0);
                }
            }
            out.push(bytes[i]);
            i += 1;
        }
    }
    assert(out@ + Seq::<u8>::empty() =~= out@);
    text_from_utf8(out)
}

/// `path` with `segment` as one more component.
pub open spec fn with_segment(path: Seq<char>, segment: Seq<char>) -> Seq<char> {
    if path.len() == 0 || path.last() == '/' {
        path + segment
    } else {
        path + "/"@ + segment
    }
}

/// `path` with the segments as further components.  Empty segments and
/// `.` are passed over; `..` is refused.
pub open spec fn with_segments(path: Seq<char>, segments: Seq<Seq<char>>) -> Option<Seq<char>>
    decreases segments.len(),
{
    if segments.len() == 0 {
        Some(path)
    } else {
        match with_segments(path, segments.drop_last()) {
            None => None,
            Some(front) => {
                let segment = segments.last();
                if segment.len() == 0 || segment == "."@ {
                    Some(front)
                } else if segment == ".."@ {
                    None
                } else {
                    Some(with_segment(front, segment))
                }
            },
        }
    }
}

/// What stands in front of the query of a request target.
pub open spec fn without_query(raw_path: Seq<char>) -> Seq<char> {
    match find(raw_path, "?"@) {
        Some(at) => raw_path.take(at),
        None => raw_path,
    }
}

/// The file under `root` that a request target names, where it names
/// one: the target without its query, with its escapes resolved, taken
/// segment by segment.  A target that cannot be decoded or that steps out
/// of a directory with `..` names none.
pub open spec fn request_path(root: Seq<char>, raw_path: Seq<char>) -> Option<Seq<char>> {
    match percent_decoded(without_query(raw_path)) {
        None => None,
        Some(decoded) => with_segments(root, split(decoded, '/')),
    }
}

/// The file under `root` that a request target names.
pub fn resolve_request_path(root: &str, raw_path: &str) -> (r: Option<String>)
    ensures
        r.deep_view() == request_path(root@, raw_path@),
{
    let raw = chars_of(raw_path);
    let mark = chars_of("?");
    let plain = match find_in(&raw, &mark, 0) {
        Some(at) => slice_of(&raw, 0, at),
        None => slice_of(&raw, 0, raw.len()),
    };
    assert(plain@ =~= without_query(raw_path@));
    let plain = string_of(&plain);
    let decoded = match decode_percent_path(plain.as_str()) {
        Some(decoded) => decoded,
        None => {
            return None;
        },
    };
    let segments = split_on(&chars_of(decoded.as_str()), '/');
    let mut candidate = chars_of(root);
    let mut i: usize = 0;
    while i < segments.len()
        invariant
            i <= segments.len(),
            texts(segments@) == split(decoded@, '/'),
            percent_decoded(without_query(raw_path@)) == Some(decoded@),
            with_segments(root@, texts(segments@).take(i as int)) == Some(candidate@),
        decreases segments.len() - i,
    {
        proof {
            let p = texts(segments@).take(i + 1);
            assert(p.drop_last() == texts(segments@).take(i as int));
            assert(p.last() == segments@[i as int]@);
        }
        let segment = &segments[i];
        if segment.len() == 0 || is_str(segment, ".") {
        } else if is_str(segment, "..") {
            proof {
                assert(with_segments(root@, texts(segments@).take(i + 1)) is None);
                lemma_refused_stays_refused(root@, texts(segments@), i + 1);
            }
            return None;
        } else {
            if !(candidate.len() == 0 || candidate[candidate.len() - 1] == '/') {
                push_str(&mut candidate, "/");
            }
            push_all(&mut candidate, segment);
        }
        i += 1;
    }
    assert(texts(segments@).take(segments.len() as int) == texts(segments@));
    Some(string_of(&candidate))
}

/// A request never leaves the root: the file that a request target
/// names lies under the root, for the path of the file begins with that
/// of the root and goes on with segments of which none is `..`.
pub proof fn lemma_request_path_under_root(root: Seq<char>, raw_path: Seq<char>)
    ensures
        request_path(root, raw_path) matches Some(path) ==> starts_with(path, root),
{
    if let Some(decoded) = percent_decoded(without_query(raw_path)) {
        lemma_segments_extend(root, split(decoded, '/'));
    }
}

proof fn lemma_segments_extend(path: Seq<char>, segments: Seq<Seq<char>>)
    ensures
        with_segments(path, segments) matches Some(longer) ==> starts_with(longer, path),
    decreases segments.len(),
{
    if segments.len() == 0 {
        assert(path.subrange(0, path.len() as int) =~= path);
    } else {
        lemma_segments_extend(path, segments.drop_last());
        if let Some(front) = with_segments(path, segments.drop_last()) {
            if let Some(longer) = with_segments(path, segments) {
                assert(longer.subrange(0, path.len() as int) =~= front.subrange(
                    0,
                    path.len() as int,
                ));
            }
        }
    }
}

proof fn lemma_refused_stays_refused(path: Seq<char>, segments: Seq<Seq<char>>, n: int)
    requires
        0 <= n <= segments.len(),
        with_segments(path, segments.take(n)) is None,
    ensures
        with_segments(path, segments) is None,
    decreases segments.len() - n,
{
    if n < segments.len() {
        assert(segments.take(n + 1).drop_last() == segments.take(n));
        lemma_refused_stays_refused(path, segments, n + 1);
    } else {
        assert(segments.take(n) == segments);
    }
}

// ---------------------------------------------------------------------------
// Starting the server
// ---------------------------------------------------------------------------

/// How `.web start` is to be carried out.
#[derive(Debug, Clone, PartialEq, Eq)]
pub struct WebStart {
    pub config: WebServerConfig,
    /// Whether the page is to be opened, where that was said.
    pub open_override: Option<bool>,
    /// Whether the user is to be asked.
    pub ask_open: bool,
}

/// A start as plain text.
pub struct WebStartView {
    pub host: Seq<char>,
    pub port: u16,
    pub root_dir: Seq<char>,
    pub open_override: Option<bool>,
    pub ask_open: bool,
}

impl View for WebStart {
    type V = WebStartView;

    open spec fn view(&self) -> WebStartView {
        WebStartView {
            host: self.config.host@,
            port: self.config.port,
            root_dir: self.config.root_dir@,
            open_override: self.open_override,
            ask_open: self.ask_open,
        }
    }
}

/// An error as plain text.
pub enum WebErrorView {
    InvalidRoute(Seq<char>),
    MissingValue(Seq<char>),
    InvalidPort(Seq<char>),
    UnknownFlag(Seq<char>),
    UnknownAction(Seq<char>),
}

impl View for WebError {
    type V = WebErrorView;

    open spec fn view(&self) -> WebErrorView {
        match self {
            WebError::InvalidRoute(t) => WebErrorView::InvalidRoute(t@),
            WebError::MissingValue(t) => WebErrorView::MissingValue(t@),
            WebError::InvalidPort(t) => WebErrorView::InvalidPort(t@),
            WebError::UnknownFlag(t) => WebErrorView::UnknownFlag(t@),
            WebError::UnknownAction(t) => WebErrorView::UnknownAction(t@),
        }
    }
}

/// What `.web start` does without any flag, for a session in `cwd`.
pub open spec fn default_start(cwd: Seq<char>) -> WebStartView {
    WebStartView {
        host: "127.0.0.1"@,
        port: DEFAULT_WEB_PORT,
        root_dir: cwd,
        open_override: None,
        ask_open: true,
    }
}

/// The flags from position `i` on, taken in on top of `so_far`.
pub open spec fn start_flags_from(tokens: Seq<Seq<char>>, i: int, so_far: WebStartView) -> Result<
    WebStartView,
    WebErrorView,
>
    decreases tokens.len() - i,
{
    if i < 0 || i >= tokens.len() {
        Ok(so_far)
    } else {
        let flag = tokens[i];
        if flag == "--dir"@ || flag == "--port"@ || flag == "--host"@ {
            if i + 1 >= tokens.len() {
                Err(WebErrorView::MissingValue(flag))
            } else {
                let value = tokens[i + 1];
                if flag == "--dir"@ {
                    start_flags_from(tokens, i + 2, WebStartView { root_dir: value, ..so_far })
                } else if flag == "--host"@ {
                    start_flags_from(tokens, i + 2, WebStartView { host: value, ..so_far })
                } else {
                    match parsed_number(value, u16::MAX as nat) {
                        Some(port) => start_flags_from(
                            tokens,
                            i + 2,
                            WebStartView { port: port as u16, ..so_far },
                        ),
                        None => Err(WebErrorView::InvalidPort(value)),
                    }
                }
            }
        } else if flag == "--open"@ {
            start_flags_from(
                tokens,
                i + 1,
                WebStartView { open_override: Some(true), ask_open: false, ..so_far },
            )
        } else if flag == "--no-open"@ {
            start_flags_from(
                tokens,
                i + 1,
                WebStartView { open_override: Some(false), ask_open: false, ..so_far },
            )
        } else if flag == "--no-open-prompt"@ {
            start_flags_from(tokens, i + 1, WebStartView { ask_open: false, ..so_far })
        } else {
            Err(WebErrorView::UnknownFlag(flag))
        }
    }
}

/// The outcome of reading start flags as plain text.
pub open spec fn start_result(r: Result<WebStart, WebError>) -> Result<WebStartView, WebErrorView> {
    match r {
        Ok(start) => Ok(start@),
        Err(e) => Err(e@),
    }
}

/// The views of the strings of `tokens`.
pub open spec fn token_views(tokens: Seq<&str>) -> Seq<Seq<char>> {
    Seq::new(tokens.len(), |i: int| tokens[i]@)
}

/// Reads the flags of `.web start`.  Without flags the server listens on
/// the default host and port, serves `cwd`, and the user is asked whether
/// to open the page.
pub fn parse_web_start(tokens: &[&str], cwd: &str) -> (r: Result<WebStart, WebError>)
    ensures
        start_result(r) == start_flags_from(token_views(tokens@), 0, default_start(cwd@)),
{
    let mut start = WebStart {
        config: WebServerConfig {
            host: DEFAULT_WEB_HOST.to_string(),
            port: DEFAULT_WEB_PORT,
            root_dir: cwd.to_string(),
        },
        open_override: None,
        ask_open: true,
    };
    let ghost all = token_views(tokens@);
    let mut i: usize = 0;
    while i < tokens.len()
        invariant
            i <= tokens.len(),
            all == token_views(tokens@),
            start_flags_from(all, 0, default_start(cwd@)) == start_flags_from(all, i as int, start@),
        decreases tokens.len() - i,
    {
        let flag = tokens[i];
        assert(all[i as int] == flag@);
        let takes_value = str_eq(flag, "--dir") || str_eq(flag, "--port")
            || str_eq(flag, "--host");
        if takes_value {
            if tokens.len() - i <= 1 {
                return Err(WebError::MissingValue(flag.to_string()));
            }
            let value = tokens[i + 1];
            assert(all[i + 1] == value@);
            if str_eq(flag, "--dir") {
                start.config.root_dir = value.to_string();
            } else if str_eq(flag, "--host") {
                start.config.host = value.to_string();
            } else {
                match parse_number(&chars_of(value), 65535) {
                    Some(port) => {
                        start.config.port = port as u16;
                    },
                    None => {
                        return Err(WebError::InvalidPort(value.to_string()));
                    },
                }
            }
            i += 2;
        } else if str_eq(flag, "--open") {
            start.open_override = Some(true);
            start.ask_open = false;
            i += 1;
        } else if str_eq(flag, "--no-open") {
            start.open_override = Some(false);
            start.ask_open = false;
            i += 1;
        } else if str_eq(flag, "--no-open-prompt") {
            start.ask_open = false;
            i += 1;
        } else {
            return Err(WebError::UnknownFlag(flag.to_string()));
        }
    }
    Ok(start)
}

/// A port that a script asks for, or the default where it asks for none
/// or for one that is no port.
pub fn port_or_default(port: Option<u64>) -> (r: u16)
    ensures
        r == port_of(port),
{
    match port {
        Some(p) => if p <= 65535 {
            p as u16
        } else {
            DEFAULT_WEB_PORT
        },
        None => DEFAULT_WEB_PORT,
    }
}

/// A status code that a script asks for, or 200 where it asks for none
/// or for one that is no status code.
pub fn status_or_ok(status: Option<u64>) -> (r: u16)
    ensures
        r == status_of(status),
{
    match status {
        Some(s) => if s <= 65535 {
            s as u16
        } else {
            200
        },
        None => 200,
    }
}

/// Whether a script's start is to ask the user about opening the page:
/// only where the script neither said so nor forbade the question.
pub fn script_asks_to_open(open: Option<bool>, no_open_prompt: Option<bool>) -> (r: bool)
    ensures
        r == (open is None && no_open_prompt != Some(true)),
{
    let quiet = match no_open_prompt {
        Some(flag) => flag,
        None => false,
    };
    !quiet && open.is_none()
}

// ---------------------------------------------------------------------------
// What a session is told of the server
// ---------------------------------------------------------------------------

/// The sentence that lists what a script can do about the server.
pub open spec fn web_api_sentence() -> Seq<char> {
    " JavaScript APIs available in REPL: klumo.web.start(opts), klumo.web.stop(), klumo.web.restart(opts), klumo.web.status(), klumo.web.open(), klumo.web.routeJson(path, payload, opts), klumo.web.routeText(path, text, opts), klumo.web.unroute(path)."@
}

/// The status sentence of the server: whether it runs, and where, how
/// many routes are registered, and what a script can do about it.
pub open spec fn web_scope_text(active: Option<(Seq<char>, Seq<char>)>, route_count: nat) -> Seq<
    char,
> {
    match active {
        Some((url, root_dir)) => "Web daemon is running at "@ + url + " and serving files from "@
            + root_dir + ". Registered API routes: "@ + decimal(route_count)
            + ". File changes are reflected on refresh because content is read from disk per request."@
            + web_api_sentence(),
        None => "Web daemon is not running. Registered API routes: "@ + decimal(route_count)
            + "."@ + web_api_sentence(),
    }
}

/// The address and the root of a running server as plain text.
pub open spec fn active_view(active: Option<(&str, &str)>) -> Option<(Seq<char>, Seq<char>)> {
    match active {
        Some((url, root_dir)) => Some((url@, root_dir@)),
        None => None,
    }
}

/// The status sentence of the server, for a server that runs at the
/// address and serves the directory of `active`, or for none.
pub fn web_server_scope_text(active: Option<(&str, &str)>, route_count: usize) -> (r: String)
    ensures
        r@ == web_scope_text(active_view(active), route_count as nat),
{
    let mut out: Vec<char> = Vec::new();
    match active {
        Some((url, root_dir)) => {
            push_str(&mut out, "Web daemon is running at ");
            push_str(&mut out, url);
            push_str(&mut out, " and serving files from ");
            push_str(&mut out, root_dir);
            push_str(&mut out, ". Registered API routes: ");
            push_all(&mut out, &decimal_text(route_count));
            push_str(
                &mut out,
                ". File changes are reflected on refresh because content is read from disk per request.",
            );
        },
        None => {
            push_str(&mut out, "Web daemon is not running. Registered API routes: ");
            push_all(&mut out, &decimal_text(route_count));
            push_str(&mut out, ".");
        },
    }
    push_str(
        &mut out,
        " JavaScript APIs available in REPL: klumo.web.start(opts), klumo.web.stop(), klumo.web.restart(opts), klumo.web.status(), klumo.web.open(), klumo.web.routeJson(path, payload, opts), klumo.web.routeText(path, text, opts), klumo.web.unroute(path).",
    );
    assert(out@ =~= web_scope_text(active_view(active), route_count as nat));
    string_of(&out)
}

/// The address under which a server is reached.
pub fn server_url(host: &str, port: u16) -> (r: String)
    ensures
        r@ == "http://"@ + host@ + ":"@ + decimal(port as nat) + "/"@,
{
    let mut out: Vec<char> = Vec::new();
    push_str(&mut out, "http://");
    push_str(&mut out, host);
    push_str(&mut out, ":");
    push_all(&mut out, &decimal_text(port as usize));
    push_str(&mut out, "/");
    string_of(&out)
}

// ---------------------------------------------------------------------------
// The `.web` commands
// ---------------------------------------------------------------------------

/// What a `.web` line asks for.
#[derive(Debug, Clone, PartialEq, Eq)]
pub enum WebCommand {
    /// The line is no `.web` line.
    Nothing,
    Help,
    Status,
    Start(WebStart),
    Stop,
    Restart,
    Open,
}

/// A command as plain text.
pub enum WebCommandView {
    Nothing,
    Help,
    Status,
    Start(WebStartView),
    Stop,
    Restart,
    Open,
}

impl View for WebCommand {
    type V = WebCommandView;

    open spec fn view(&self) -> WebCommandView {
        match self {
            WebCommand::Nothing => WebCommandView::Nothing,
            WebCommand::Help => WebCommandView::Help,
            WebCommand::Status => WebCommandView::Status,
            WebCommand::Start(start) => WebCommandView::Start(start@),
            WebCommand::Stop => WebCommandView::Stop,
            WebCommand::Restart => WebCommandView::Restart,
            WebCommand::Open => WebCommandView::Open,
        }
    }
}

/// What the words of a line ask for.  A line that does not begin with
/// the word `.web` asks for nothing; `.web` alone asks for the status.
pub open spec fn command_of_words(parts: Seq<Seq<char>>, cwd: Seq<char>) -> Result<
    WebCommandView,
    WebErrorView,
> {
    if parts.len() == 0 || parts[0] != ".web"@ {
        Ok(WebCommandView::Nothing)
    } else if parts.len() == 1 || parts[1] == "status"@ {
        Ok(WebCommandView::Status)
    } else if parts[1] == "help"@ {
        Ok(WebCommandView::Help)
    } else if parts[1] == "start"@ {
        match start_flags_from(parts.skip(2), 0, default_start(cwd)) {
            Ok(start) => Ok(WebCommandView::Start(start)),
            Err(e) => Err(e),
        }
    } else if parts[1] == "stop"@ {
        Ok(WebCommandView::Stop)
    } else if parts[1] == "restart"@ {
        Ok(WebCommandView::Restart)
    } else if parts[1] == "open"@ {
        Ok(WebCommandView::Open)
    } else {
        Err(WebErrorView::UnknownAction(parts[1]))
    }
}

/// The outcome of reading a `.web` line as plain text.
pub open spec fn command_result(r: Result<WebCommand, WebError>) -> Result<
    WebCommandView,
    WebErrorView,
> {
    match r {
        Ok(command) => Ok(command@),
        Err(e) => Err(e@),
    }
}

/// Reads a `.web` line of a session.
pub fn parse_web_command(input: &str, cwd: &str) -> (r: Result<WebCommand, WebError>)
    ensures
        command_result(r) == command_of_words(words(input@), cwd@),
{
    let parts = split_words(&chars_of(input));
    if parts.len() == 0 || !is_str(&parts[0], ".web") {
        return Ok(WebCommand::Nothing);
    }
    if parts.len() == 1 || is_str(&parts[1], "status") {
        return Ok(WebCommand::Status);
    }
    let action = &parts[1];
    if is_str(action, "help") {
        Ok(WebCommand::Help)
    } else if is_str(action, "start") {
        let mut owned: Vec<String> = Vec::new();
        let mut i: usize = 2;
        assert(owned.deep_view() =~= texts(parts@).subrange(2, 2));
        while i < parts.len()
            invariant
                2 <= i <= parts.len(),
                owned.deep_view() == texts(parts@).subrange(2, i as int),
            decreases parts.len() - i,
        {
            let ghost before = owned.deep_view();
            let word = string_of(&parts[i]);
            owned.push(word);
            assert(owned.deep_view() =~= before.push(parts@[i as int]@));
            assert(owned.deep_view() =~= texts(parts@).subrange(2, i + 1));
            i += 1;
        }
        let mut flags: Vec<&str> = Vec::new();
        let mut j: usize = 0;
        assert(token_views(flags@) =~= owned.deep_view().take(0));
        while j < owned.len()
            invariant
                j <= owned.len(),
                token_views(flags@) == owned.deep_view().take(j as int),
            decreases owned.len() - j,
        {
            let ghost before = token_views(flags@);
            flags.push(owned[j].as_str());
            assert(token_views(flags@) =~= before.push(owned@[j as int]@));
            assert(token_views(flags@) =~= owned.deep_view().take(j + 1));
            j += 1;
        }
        assert(token_views(flags@) =~= words(input@).skip(2));
        match parse_web_start(flags.as_slice(), cwd) {
            Ok(start) => Ok(WebCommand::Start(start)),
            Err(e) => Err(e),
        }
    } else if is_str(action, "stop") {
        Ok(WebCommand::Stop)
    } else if is_str(action, "restart") {
        Ok(WebCommand::Restart)
    } else if is_str(action, "open") {
        Ok(WebCommand::Open)
    } else {
        Err(WebError::UnknownAction(string_of(action)))
    }
}

// ---------------------------------------------------------------------------
// Requests
// ---------------------------------------------------------------------------

/// What a request asks to be done.
#[derive(Debug, Clone, Copy, PartialEq, Eq, Structural)]
pub enum RequestMethod {
    Get,
    Head,
    /// Anything that the server does not answer.
    Other,
}

/// The first line of a request.
#[derive(Debug, Clone, PartialEq, Eq)]
pub struct RequestLine {
    pub method: RequestMethod,
    pub target: String,
}

/// The method that a word names, in whatever case.
pub open spec fn method_of(word: Seq<char>) -> RequestMethod {
    if lowered(word) == "get"@ {
        RequestMethod::Get
    } else if lowered(word) == "head"@ {
        RequestMethod::Head
    } else {
        RequestMethod::Other
    }
}

/// The method of the first line of a request: its first word.
pub open spec fn request_method(request: Seq<char>) -> RequestMethod {
    let all = lines(request);
    if all.len() > 0 && words(all[0]).len() > 0 {
        method_of(words(all[0])[0])
    } else {
        RequestMethod::Other
    }
}

/// The target of the first line of a request: its second word, or the
/// root where there is none.
pub open spec fn request_target(request: Seq<char>) -> Seq<char> {
    let all = lines(request);
    if all.len() > 0 && words(all[0]).len() > 1 {
        words(all[0])[1]
    } else {
        "/"@
    }
}

/// Reads the first line of a request.
pub fn read_request_line(request: &str) -> (line: RequestLine)
    ensures
        line.method == request_method(request@),
        line.target@ == request_target(request@),
{
    let all = split_lines(&chars_of(request));
    if all.len() == 0 {
        return RequestLine { method: RequestMethod::Other, target: "/".to_string() };
    }
    assert(texts(all@)[0] == all@[0]@);
    let parts = split_words(&all[0]);
    let method = if parts.len() > 0 {
        assert(texts(parts@)[0] == parts@[0]@);
        let word = to_ascii_lower(&parts[0]);
        if is_str(&word, "get") {
            RequestMethod::Get
        } else if is_str(&word, "head") {
            RequestMethod::Head
        } else {
            RequestMethod::Other
        }
    } else {
        RequestMethod::Other
    };
    let target = if parts.len() > 1 {
        assert(texts(parts@)[1] == parts@[1]@);
        string_of(&parts[1])
    } else {
        "/".to_string()
    };
    RequestLine { method, target }
}

/// Whether a request target names a file by its extension.  A target
/// that does not may be a page of the application, which is then served
/// in its place.
pub fn names_a_file(raw_path: &str) -> (r: bool)
    ensures
        r == contains(file_name_of(raw_path@), "."@),
{
    let text = chars_of(raw_path);
    let start = match rfind_char(&text, '/') {
        Some(slash) => slash + 1,
        None => 0,
    };
    let name = slice_of(&text, start, text.len());
    assert(name@ =~= file_name_of(raw_path@));
    text_contains(&name, ".")
}

/// The key under which a route is looked up for a request target: the
/// target without its query, with its escapes resolved where they can be.
pub open spec fn route_key(raw_path: Seq<char>) -> Seq<char> {
    match percent_decoded(without_query(raw_path)) {
        Some(decoded) => decoded,
        None => without_query(raw_path),
    }
}

/// The key under which a route is looked up for a request target.
pub fn request_route_key(raw_path: &str) -> (key: String)
    ensures
        key@ == route_key(raw_path@),
{
    let raw = chars_of(raw_path);
    let mark = chars_of("?");
    let plain = match find_in(&raw, &mark, 0) {
        Some(at) => slice_of(&raw, 0, at),
        None => slice_of(&raw, 0, raw.len()),
    };
    assert(plain@ =~= without_query(raw_path@));
    let plain = string_of(&plain);
    match decode_percent_path(plain.as_str()) {
        Some(decoded) => decoded,
        None => plain,
    }
}

/// Whether an answer to a question says yes: `y` or `yes`, in whatever
/// case, with whatever whitespace around it.
pub fn is_affirmative(answer: &str) -> (r: bool)
    ensures
        r == (lowered(trimmed(answer@)) == "y"@ || lowered(trimmed(answer@)) == "yes"@),
{
    let token = to_ascii_lower(&trim(&chars_of(answer)));
    is_str(&token, "y") || is_str(&token, "yes")
}

// ---------------------------------------------------------------------------
// What scripts ask of the server
// ---------------------------------------------------------------------------

/// The options that a script gives with a command, as far as they are of
/// the right type.
#[derive(Debug, Clone, PartialEq, Eq)]
pub struct ScriptOptions {
    pub host: Option<String>,
    pub port: Option<u64>,
    pub dir: Option<String>,
    pub open: Option<bool>,
    pub no_open_prompt: Option<bool>,
    pub status: Option<u64>,
    pub content_type: Option<String>,
}

/// A command that a script has queued.
#[derive(Debug, Clone, PartialEq, Eq)]
pub struct ScriptCommand {
    pub action: String,
    pub path: Option<String>,
    pub options: Option<ScriptOptions>,
}

/// What is done about a command of a script.
#[derive(Debug, Clone, PartialEq, Eq)]
pub enum WebAction {
    /// Nothing: the command is not known, or lacks its path.
    Ignore,
    Start(WebStart),
    Stop,
    /// Start again, with this configuration where the script gave options.
    Restart { config: Option<WebServerConfig>, open: bool },
    Open,
    /// Answer requests for `key` with the payload of the command.
    Route { key: String, status: u16, content_type: String },
    Unroute { key: String },
}

/// The options of a script as plain text.
pub struct ScriptOptionsView {
    pub host: Option<Seq<char>>,
    pub port: Option<u64>,
    pub dir: Option<Seq<char>>,
    pub open: Option<bool>,
    pub no_open_prompt: Option<bool>,
    pub status: Option<u64>,
    pub content_type: Option<Seq<char>>,
}

impl View for ScriptOptions {
    type V = ScriptOptionsView;

    open spec fn view(&self) -> ScriptOptionsView {
        ScriptOptionsView {
            host: self.host.deep_view(),
            port: self.port,
            dir: self.dir.deep_view(),
            open: self.open,
            no_open_prompt: self.no_open_prompt,
            status: self.status,
            content_type: self.content_type.deep_view(),
        }
    }
}

/// A configuration as plain text.
pub struct WebServerConfigView {
    pub host: Seq<char>,
    pub port: u16,
    pub root_dir: Seq<char>,
}

impl View for WebServerConfig {
    type V = WebServerConfigView;

    open spec fn view(&self) -> WebServerConfigView {
        WebServerConfigView { host: self.host@, port: self.port, root_dir: self.root_dir@ }
    }
}

/// An action as plain text.
pub enum WebActionView {
    Ignore,
    Start(WebStartView),
    Stop,
    Restart { config: Option<WebServerConfigView>, open: bool },
    Open,
    Route { key: Seq<char>, status: u16, content_type: Seq<char> },
    Unroute { key: Seq<char> },
}

impl View for WebAction {
    type V = WebActionView;

    open spec fn view(&self) -> WebActionView {
        match self {
            WebAction::Ignore => WebActionView::Ignore,
            WebAction::Start(start) => WebActionView::Start(start@),
            WebAction::Stop => WebActionView::Stop,
            WebAction::Restart { config, open } => WebActionView::Restart {
                config: match config {
                    Some(c) => Some(c@),
                    None => None,
                },
                open: *open,
            },
            WebAction::Open => WebActionView::Open,
            WebAction::Route { key, status, content_type } => WebActionView::Route {
                key: key@,
                status: *status,
                content_type: content_type@,
            },
            WebAction::Unroute { key } => WebActionView::Unroute { key: key@ },
        }
    }
}

/// No options at all.
pub open spec fn no_options() -> ScriptOptionsView {
    ScriptOptionsView {
        host: None,
        port: None,
        dir: None,
        open: None,
        no_open_prompt: None,
        status: None,
        content_type: None,
    }
}

/// The text that is given, or else the default.
pub open spec fn or_text(value: Option<Seq<char>>, default: Seq<char>) -> Seq<char> {
    match value {
        Some(text) => text,
        None => default,
    }
}

/// The port that a script asks for, or the default where it asks for
/// none or for one that is no port.
pub open spec fn port_of(port: Option<u64>) -> u16 {
    match port {
        Some(p) => if p <= u16::MAX {
            p as u16
        } else {
            DEFAULT_WEB_PORT
        },
        None => DEFAULT_WEB_PORT,
    }
}

/// The status code that a script asks for, or 200 where it asks for none
/// or for one that is no status code.
pub open spec fn status_of(status: Option<u64>) -> u16 {
    match status {
        Some(s) => if s <= u16::MAX {
            s as u16
        } else {
            200u16
        },
        None => 200u16,
    }
}

/// The configuration that the options of a script make; what is not
/// given is the default, and the directory then is `dir`.
pub open spec fn config_of(options: ScriptOptionsView, dir: Seq<char>) -> WebServerConfigView {
    WebServerConfigView {
        host: or_text(options.host, "127.0.0.1"@),
        port: port_of(options.port),
        root_dir: or_text(options.dir, dir),
    }
}

/// What is done about a route command: the route is registered or
/// removed under its key, unless its path is no route path.
pub open spec fn route_action(
    path: Option<Seq<char>>,
    make: spec_fn(Seq<char>) -> WebActionView,
) -> Result<WebActionView, WebErrorView> {
    match path {
        None => Ok(WebActionView::Ignore),
        Some(raw) => if contains(rooted(raw), ".."@) {
            Err(WebErrorView::InvalidRoute(raw))
        } else {
            Ok(make(rooted(raw)))
        },
    }
}

/// What is done about a command of a script in a session in `cwd`.
///
/// `start` serves the directory that was given, or else `cwd`, and asks
/// about opening the page unless the script said whether to open it or
/// forbade the question.  `restart` takes a configuration from the
/// options where there are any, with `.` for the directory that was not
/// given.  `route_json`, `route_text` and `unroute` need a path.
pub open spec fn action_for(
    action: Seq<char>,
    path: Option<Seq<char>>,
    options: Option<ScriptOptionsView>,
    cwd: Seq<char>,
) -> Result<WebActionView, WebErrorView> {
    let given = match options {
        Some(o) => o,
        None => no_options(),
    };
    if action == "start"@ {
        let config = config_of(given, cwd);
        Ok(
            WebActionView::Start(
                WebStartView {
                    host: config.host,
                    port: config.port,
                    root_dir: config.root_dir,
                    open_override: given.open,
                    ask_open: given.open is None && given.no_open_prompt != Some(true),
                },
            ),
        )
    } else if action == "stop"@ {
        Ok(WebActionView::Stop)
    } else if action == "restart"@ {
        Ok(
            WebActionView::Restart {
                config: match options {
                    Some(o) => Some(config_of(o, "."@)),
                    None => None,
                },
                open: given.open == Some(true),
            },
        )
    } else if action == "open"@ {
        Ok(WebActionView::Open)
    } else if action == "route_json"@ {
        route_action(
            path,
            |key: Seq<char>|
                WebActionView::Route {
                    key,
                    status: status_of(given.status),
                    content_type: "application/json; charset=utf-8"@,
                },
        )
    } else if action == "route_text"@ {
        route_action(
            path,
            |key: Seq<char>|
                WebActionView::Route {
                    key,
                    status: status_of(given.status),
                    content_type: or_text(given.content_type, "text/plain; charset=utf-8"@),
                },
        )
    } else if action == "unroute"@ {
        route_action(path, |key: Seq<char>| WebActionView::Unroute { key })
    } else {
        Ok(WebActionView::Ignore)
    }
}

/// The outcome of planning as plain text.
pub open spec fn action_result(r: Result<WebAction, WebError>) -> Result<
    WebActionView,
    WebErrorView,
> {
    match r {
        Ok(action) => Ok(action@),
        Err(e) => Err(e@),
    }
}

/// The options as plain text, where there are any.
pub open spec fn options_view(options: Option<ScriptOptions>) -> Option<ScriptOptionsView> {
    match options {
        Some(o) => Some(o@),
        None => None,
    }
}

fn config_from(options: Option<&ScriptOptions>, dir: &str) -> (config: WebServerConfig)
    ensures
        config@ == config_of(
            match options {
                Some(o) => o@,
                None => no_options(),
            },
            dir@,
        ),
{
    match options {
        Some(o) => WebServerConfig {
            host: match &o.host {
                Some(host) => host.clone(),
                None => DEFAULT_WEB_HOST.to_string(),
            },
            port: port_or_default(o.port),
            root_dir: match &o.dir {
                Some(d) => d.clone(),
                None => dir.to_string(),
            },
        },
        None => WebServerConfig {
            host: DEFAULT_WEB_HOST.to_string(),
            port: DEFAULT_WEB_PORT,
            root_dir: dir.to_string(),
        },
    }
}

/// Decides what is done about a command of a script.
pub fn plan_script_command(command: &ScriptCommand, cwd: &str) -> (r: Result<WebAction, WebError>)
    ensures
        action_result(r) == action_for(
            command.action@,
            command.path.deep_view(),
            options_view(command.options),
            cwd@,
        ),
{
    let action = chars_of(command.action.as_str());
    let (open, no_open_prompt, status) = match &command.options {
        Some(o) => (o.open, o.no_open_prompt, o.status),
        None => (None, None, None),
    };
    if is_str(&action, "start") {
        let config = match &command.options {
            Some(o) => config_from(Some(o), cwd),
            None => config_from(None, cwd),
        };
        Ok(
            WebAction::Start(
                WebStart {
                    config,
                    open_override: open,
                    ask_open: script_asks_to_open(open, no_open_prompt),
                },
            ),
        )
    } else if is_str(&action, "stop") {
        Ok(WebAction::Stop)
    } else if is_str(&action, "restart") {
        let config = match &command.options {
            Some(o) => Some(config_from(Some(o), ".")),
            None => None,
        };
        let open_after = match open {
            Some(flag) => flag,
            None => false,
        };
        Ok(WebAction::Restart { config, open: open_after })
    } else if is_str(&action, "open") {
        Ok(WebAction::Open)
    } else if is_str(&action, "route_json") {
        match checked_route_key(&command.path) {
            Err(e) => Err(e),
            Ok(None) => Ok(WebAction::Ignore),
            Ok(Some(key)) => Ok(
                WebAction::Route {
                    key,
                    status: status_or_ok(status),
                    content_type: "application/json; charset=utf-8".to_string(),
                },
            ),
        }
    } else if is_str(&action, "route_text") {
        let content_type = match &command.options {
            Some(o) => match &o.content_type {
                Some(t) => t.clone(),
                None => "text/plain; charset=utf-8".to_string(),
            },
            None => "text/plain; charset=utf-8".to_string(),
        };
        match checked_route_key(&command.path) {
            Err(e) => Err(e),
            Ok(None) => Ok(WebAction::Ignore),
            Ok(Some(key)) => Ok(
                WebAction::Route { key, status: status_or_ok(status), content_type },
            ),
        }
    } else if is_str(&action, "unroute") {
        match checked_route_key(&command.path) {
            Err(e) => Err(e),
            Ok(None) => Ok(WebAction::Ignore),
            Ok(Some(key)) => Ok(WebAction::Unroute { key }),
        }
    } else {
        Ok(WebAction::Ignore)
    }
}

/// The key of the route that a command names, where it names one.
fn checked_route_key(path: &Option<String>) -> (r: Result<Option<String>, WebError>)
    ensures
        match path {
            None => r == Ok::<Option<String>, WebError>(None),
            Some(raw) => if contains(rooted(raw@), ".."@) {
                r matches Err(e) && e@ == WebErrorView::InvalidRoute(raw@)
            } else {
                r matches Ok(Some(key)) && key@ == rooted(raw@)
            },
        },
{
    match path {
        None => Ok(None),
        Some(raw) => match route_path(raw.as_str()) {
            Ok(key) => Ok(Some(key)),
            Err(e) => Err(e),
        },
    }
}

} // verus!
