//! From a parsed command to the one outbound request.
//!
//! A command carries a validated URL and, for the write methods, the body
//! pairs. Its request plan fixes everything the transport needs: the
//! method, the URL, and for POST, PUT and PATCH the JSON body built from
//! the key-unique pair list. The caller performing the request also attaches
//! the client's fixed default headers.

use vstd::prelude::*;
use vstd::string::*;

use crate::body::{build_body_pairs, dedup_pairs, pairs_view};
use crate::json::{encode_json_object, json_object};
use crate::kv::KvPair;
use crate::views::opt_str_view;

verus! {

/// The four verbs the client issues.
#[derive(Debug, Clone, Copy, PartialEq, Eq, Structural)]
pub enum HttpMethod {
    Get,
    Post,
    Put,
    Patch,
}

/// One parsed subcommand: a validated URL, and body pairs for the write
/// methods.
#[derive(Debug)]
pub enum ParsedCommand {
    Get { url: String },
    Post { url: String, body: Vec<KvPair> },
    Put { url: String, body: Vec<KvPair> },
    Patch { url: String, body: Vec<KvPair> },
}

/// Everything one outbound request fixes: the verb, the target, and the
/// JSON body text for the write methods.
#[derive(Debug)]
pub struct RequestPlan {
    pub method: HttpMethod,
    pub url: String,
    pub body: Option<String>,
}

impl ParsedCommand {
    /// The verb of this command.
    pub open spec fn spec_method(self) -> HttpMethod {
        match self {
            ParsedCommand::Get { .. } => HttpMethod::Get,
            ParsedCommand::Post { .. } => HttpMethod::Post,
            ParsedCommand::Put { .. } => HttpMethod::Put,
            ParsedCommand::Patch { .. } => HttpMethod::Patch,
        }
    }

    /// The target of this command.
    pub open spec fn spec_url(self) -> Seq<char> {
        match self {
            ParsedCommand::Get { url } => url@,
            ParsedCommand::Post { url, .. } => url@,
            ParsedCommand::Put { url, .. } => url@,
            ParsedCommand::Patch { url, .. } => url@,
        }
    }

    /// The body text this command transmits: nothing for GET, the JSON
    /// object over the key-unique pair list for the write methods.
    pub open spec fn spec_body(self) -> Option<Seq<char>> {
        match self {
            ParsedCommand::Get { .. } => Option::None,
            ParsedCommand::Post { body, .. } => Option::Some(
                json_object(dedup_pairs(pairs_view(body@))),
            ),
            ParsedCommand::Put { body, .. } => Option::Some(
                json_object(dedup_pairs(pairs_view(body@))),
            ),
            ParsedCommand::Patch { body, .. } => Option::Some(
                json_object(dedup_pairs(pairs_view(body@))),
            ),
        }
    }
}

/// Maps a command to its request plan: same verb, same URL, and for a
/// write method exactly the JSON body of its key-unique pair list.
pub fn build_request(cmd: &ParsedCommand) -> (r: RequestPlan)
    ensures
        r.method == cmd.spec_method(),
        r.url@ == cmd.spec_url(),
        opt_str_view(r.body) == cmd.spec_body(),
{
    match cmd {
        ParsedCommand::Get { url } => RequestPlan {
            method: HttpMethod::Get,
            url: url.clone(),
            body: None,
        },
        ParsedCommand::Post { url, body } => RequestPlan {
            method: HttpMethod::Post,
            url: url.clone(),
            body: Some(encode_json_object(&build_body_pairs(body))),
        },
        ParsedCommand::Put { url, body } => RequestPlan {
            method: HttpMethod::Put,
            url: url.clone(),
            body: Some(encode_json_object(&build_body_pairs(body))),
        },
        ParsedCommand::Patch { url, body } => RequestPlan {
            method: HttpMethod::Patch,
            url: url.clone(),
            body: Some(encode_json_object(&build_body_pairs(body))),
        },
    }
}

/// The fixed headers every request of this client carries: a marker header
/// and the user-agent string.
pub fn default_headers() -> (r: Vec<(String, String)>)
    ensures
        r@.len() == 2,
        r@[0].0@ == "X-POWERED-BY"@ && r@[0].1@ == "Rust"@,
        r@[1].0@ == "User-Agent"@ && r@[1].1@ == "Rust HTTPIE"@,
{
    let mut r: Vec<(String, String)> = Vec::new();
    r.push((String::from_str("X-POWERED-BY"), String::from_str("Rust")));
    r.push((String::from_str("User-Agent"), String::from_str("Rust HTTPIE")));
    r
}

} // verus!
