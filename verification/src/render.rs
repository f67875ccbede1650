//! Rendering a received response as text.
//!
//! The rendered output is three blocks in order: a status block (protocol
//! version and status line), a headers block (one `name: value` line per
//! header, in the order received), and a body block. The body block is
//! dispatched on the `Content-Type` header: the four known media types are
//! highlighted for a 24-bit-colour terminal, everything else — and a
//! response with no `Content-Type` at all — is the raw body text. A
//! `Content-Type` value that is no media type, and a body whose
//! highlighting fails, are fatal render errors.

use vstd::prelude::*;
use vstd::string::*;

use crate::errors::HttpError;
use crate::views::{opt_str_view, res_str_view};

verus! {

/// Whether a string parses as a media type. The mime crate's parser
/// decides; two calls on the same string agree.
pub uninterp spec fn mime_parses(s: Seq<char>) -> bool;

/// Whether a content-type string names the same media type as a pattern,
/// parameters included, as the mime crate compares them. A string that is
/// no media type matches nothing.
pub uninterp spec fn ct_matches(s: Seq<char>, pattern: Seq<char>) -> bool;

/// The 24-bit-colour terminal rendering of a text under the syntax named by
/// a file extension, or `None` when the extension names no syntax or a line
/// cannot be highlighted.
pub uninterp spec fn highlight_of(ext: Seq<char>, text: Seq<char>) -> Option<Seq<char>>;

/// Relies on mime's `Mime::from_str`: whether a content-type string parses
/// as a media type depends on the string alone.
#[verifier::external_body]
fn content_type_parses(s: &str) -> (r: bool)
    ensures
        r == mime_parses(s@),
{
    s.parse::<mime::Mime>().is_ok()
}

/// Relies on mime's `Mime::from_str` and on `Mime`'s equality with a
/// string: both depend on the two strings alone.
#[verifier::external_body]
fn content_type_matches(s: &str, pattern: &str) -> (r: bool)
    ensures
        r == ct_matches(s@, pattern@),
{
    match s.parse::<mime::Mime>() {
        Ok(m) => m == pattern,
        Err(_) => false,
    }
}

/// Relies on syntect, with its bundled default syntax set and the default
/// theme `base16-eighties.dark`: the escaped terminal rendering of a text
/// depends on the text and the extension alone, and fails exactly when no
/// syntax carries the extension or a line cannot be highlighted.
#[verifier::external_body]
fn highlight_terminal(ext: &str, text: &str) -> (r: Option<String>)
    ensures
        opt_str_view(r) == highlight_of(ext@, text@),
{
    let syntaxes = syntect::parsing::SyntaxSet::load_defaults_newlines();
    let themes = syntect::highlighting::ThemeSet::load_defaults();
    let syntax = syntaxes.find_syntax_by_extension(ext)?;
    let theme = &themes.themes["base16-eighties.dark"];
    let mut lines = syntect::easy::HighlightLines::new(syntax, theme);
    let mut out = String::new();
    for line in syntect::util::LinesWithEndings::from(text) {
        let ranges = lines.highlight_line(line, &syntaxes).ok()?;
        out.push_str(&syntect::util::as_24_bit_terminal_escaped(&ranges[..], false));
    }
    Some(out)
}

/// The body-rendering strategies: one highlighter per known media type, or
/// the raw text.
#[derive(Debug, Clone, Copy, PartialEq, Eq, Structural)]
pub enum BodyClass {
    Json,
    Html,
    Css,
    Javascript,
    Raw,
}

/// The strategy for a media type, by exact match against the known types:
/// `application/json`, `text/html` plain or with the UTF-8 charset,
/// `text/css` likewise, and `application/javascript`; anything else is
/// printed raw.
pub open spec fn class_of(ct: Seq<char>) -> BodyClass {
    if ct_matches(ct, "application/json"@) {
        BodyClass::Json
    } else if ct_matches(ct, "text/html"@) || ct_matches(ct, "text/html; charset=utf-8"@) {
        BodyClass::Html
    } else if ct_matches(ct, "text/css"@) || ct_matches(ct, "text/css; charset=utf-8"@) {
        BodyClass::Css
    } else if ct_matches(ct, "application/javascript"@) {
        BodyClass::Javascript
    } else {
        BodyClass::Raw
    }
}

/// Dispatches a content-type string to its body-rendering strategy.
pub fn classify_content_type(ct: &str) -> (r: BodyClass)
    ensures
        r == class_of(ct@),
{
    if content_type_matches(ct, "application/json") {
        BodyClass::Json
    } else if content_type_matches(ct, "text/html") || content_type_matches(
        ct,
        "text/html; charset=utf-8",
    ) {
        BodyClass::Html
    } else if content_type_matches(ct, "text/css") || content_type_matches(
        ct,
        "text/css; charset=utf-8",
    ) {
        BodyClass::Css
    } else if content_type_matches(ct, "application/javascript") {
        BodyClass::Javascript
    } else {
        BodyClass::Raw
    }
}

/// The file extension handed to the highlighter for each strategy.
pub open spec fn spec_extension_of(c: BodyClass) -> Seq<char> {
    match c {
        BodyClass::Json => "json"@,
        BodyClass::Html => "html"@,
        BodyClass::Css => "css"@,
        BodyClass::Javascript => "javascript"@,
        BodyClass::Raw => ""@,
    }
}

fn extension_of(c: BodyClass) -> (r: &'static str)
    ensures
        r@ == spec_extension_of(c),
{
    match c {
        BodyClass::Json => "json",
        BodyClass::Html => "html",
        BodyClass::Css => "css",
        BodyClass::Javascript => "javascript",
        BodyClass::Raw => "",
    }
}

/// A received response, as the renderer sees it: plain text fields, the
/// headers in the order received with their raw displayed form, and the
/// `Content-Type` value when the response carried one.
#[derive(Debug)]
pub struct RenderableResponse {
    pub version: String,
    pub status: String,
    pub headers: Vec<(String, String)>,
    pub content_type: Option<String>,
    pub body: String,
}

/// The status block: its title line, then the protocol version and the
/// status line.
pub open spec fn status_block_of(version: Seq<char>, status: Seq<char>) -> Seq<char> {
    "[status]\n"@ + version + " "@ + status + "\n"@
}

/// One header line.
pub open spec fn header_line_of(h: (Seq<char>, Seq<char>)) -> Seq<char> {
    h.0 + ": "@ + h.1 + "\n"@
}

/// All header lines, in order.
pub open spec fn header_lines_of(hs: Seq<(Seq<char>, Seq<char>)>) -> Seq<char>
    decreases hs.len(),
{
    if hs.len() == 0 {
        Seq::empty()
    } else {
        header_lines_of(hs.drop_last()) + header_line_of(hs.last())
    }
}

/// The headers block: its title line, then one line per header.
pub open spec fn headers_block_of(hs: Seq<(Seq<char>, Seq<char>)>) -> Seq<char> {
    "[headers]\n"@ + header_lines_of(hs)
}

/// The views of a header list.
pub open spec fn headers_view(hs: Seq<(String, String)>) -> Seq<(Seq<char>, Seq<char>)> {
    hs.map_values(|h: (String, String)| (h.0@, h.1@))
}

/// The body block: its title line, then the raw text (with a closing
/// newline) when there is no content type or no known one, else the
/// highlighted text. A content-type string that is no media type, and a
/// failed highlighting, are render errors.
pub open spec fn body_block_of(ct: Option<Seq<char>>, body: Seq<char>) -> Result<
    Seq<char>,
    HttpError,
> {
    match ct {
        Option::None => Result::Ok("[body]\n"@ + body + "\n"@),
        Option::Some(c) => if !mime_parses(c) {
            Result::Err(HttpError::RenderError)
        } else if class_of(c) == BodyClass::Raw {
            Result::Ok("[body]\n"@ + body + "\n"@)
        } else {
            match highlight_of(spec_extension_of(class_of(c)), body) {
                Option::Some(t) => Result::Ok("[body]\n"@ + t),
                Option::None => Result::Err(HttpError::RenderError),
            }
        },
    }
}

impl RenderableResponse {
    /// The whole rendered text: status block, headers block, body block,
    /// or the error on which the body block fails.
    pub open spec fn spec_rendered(self) -> Result<Seq<char>, HttpError> {
        match body_block_of(opt_str_view(self.content_type), self.body@) {
            Result::Ok(b) => Result::Ok(
                status_block_of(self.version@, self.status@) + headers_block_of(
                    headers_view(self.headers@),
                ) + b,
            ),
            Result::Err(e) => Result::Err(e),
        }
    }
}

/// The status block of a response.
pub fn render_status(version: &str, status: &str) -> (r: String)
    ensures
        r@ == status_block_of(version@, status@),
{
    let mut out = String::from_str("[status]\n");
    out.append(version);
    out.append(" ");
    out.append(status);
    out.append("\n");
    proof {
        assert(out@ =~= status_block_of(version@, status@));
    }
    out
}

/// The headers block of a response, one line per header in the order
/// received.
pub fn render_headers(headers: &Vec<(String, String)>) -> (r: String)
    ensures
        r@ == headers_block_of(headers_view(headers@)),
{
    let ghost hv = headers_view(headers@);
    let mut out = String::from_str("[headers]\n");
    proof {
        assert(out@ =~= "[headers]\n"@ + header_lines_of(hv.take(0)));
    }
    let mut i: usize = 0;
    while i < headers.len()
        invariant
            i <= headers@.len(),
            hv == headers_view(headers@),
            out@ == "[headers]\n"@ + header_lines_of(hv.take(i as int)),
        decreases headers@.len() - i,
    {
        proof {
            assert(hv.take(i + 1).drop_last() =~= hv.take(i as int));
            assert(hv.take(i + 1).last() == hv[i as int]);
        }
        out.append(headers[i].0.as_str());
        out.append(": ");
        out.append(headers[i].1.as_str());
        out.append("\n");
        i += 1;
        proof {
            assert(out@ =~= "[headers]\n"@ + header_lines_of(hv.take(i as int)));
        }
    }
    proof {
        assert(hv.take(headers@.len() as int) =~= hv);
    }
    out
}

/// The body block of a response.
pub fn render_body(content_type: &Option<String>, body: &str) -> (r: Result<String, HttpError>)
    ensures
        res_str_view(r) == body_block_of(opt_str_view(*content_type), body@),
{
    match content_type {
        None => Ok(raw_body_block(body)),
        Some(c) => {
            if !content_type_parses(c.as_str()) {
                return Err(HttpError::RenderError);
            }
            let class = classify_content_type(c.as_str());
            if class == BodyClass::Raw {
                Ok(raw_body_block(body))
            } else {
                match highlight_terminal(extension_of(class), body) {
                    Some(t) => {
                        let mut out = String::from_str("[body]\n");
                        out.append(t.as_str());
                        Ok(out)
                    },
                    None => Err(HttpError::RenderError),
                }
            }
        },
    }
}

/// The body block around a raw, unhighlighted text.
fn raw_body_block(body: &str) -> (r: String)
    ensures
        r@ == "[body]\n"@ + body@ + "\n"@,
{
    let mut out = String::from_str("[body]\n");
    out.append(body);
    out.append("\n");
    proof {
        assert(out@ =~= "[body]\n"@ + body@ + "\n"@);
    }
    out
}

/// Renders a whole response: status block, headers block, body block in
/// order, or the body block's error.
pub fn render_response(resp: &RenderableResponse) -> (r: Result<String, HttpError>)
    ensures
        res_str_view(r) == resp.spec_rendered(),
{
    let status = render_status(resp.version.as_str(), resp.status.as_str());
    let headers = render_headers(&resp.headers);
    match render_body(&resp.content_type, resp.body.as_str()) {
        Ok(b) => {
            let mut out = status;
            out.append(headers.as_str());
            out.append(b.as_str());
            Ok(out)
        },
        Err(e) => Err(e),
    }
}

} // verus!
