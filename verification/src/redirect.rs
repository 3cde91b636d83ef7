//! Building the address that a caller is sent to once the workspace runs.

use std::str::FromStr;
use vstd::prelude::*;
use crate::error::WorkspaceError;
use crate::text::{replace, replaced};

verus! {

/// `http::Uri`, a parsed URI, reached through `warp`; nothing in it is read.
#[verifier::external_type_specification]
#[verifier::external_body]
pub struct ExUri(warp::http::Uri);

/// `http::uri::InvalidUri`, the error of the URI parser; nothing in it is
/// read.
#[verifier::external_type_specification]
#[verifier::external_body]
pub struct ExInvalidUri(warp::http::uri::InvalidUri);

/// Whether the `http` crate, as `warp` hands it on, accepts `text` as a URI.
pub uninterp spec fn parses_as_uri(text: Seq<char>) -> bool;

/// Calls `Uri::from_str` of the `http` crate. Nothing is claimed of the
/// URI that comes back; that one comes back is a matter of the text alone,
/// named `parses_as_uri`.
#[verifier::external_body]
fn parse_uri(text: &str) -> (r: Result<warp::http::Uri, warp::http::uri::InvalidUri>)
    ensures
        r is Ok <==> parses_as_uri(text@),
{
    warp::http::Uri::from_str(text)
}

/// The template with `{port}` replaced by `port` and then `{token}` replaced
/// by `secret`, both literally and everywhere.
pub open spec fn substituted(template: Seq<char>, port: Seq<char>, secret: Seq<char>) -> Seq<char> {
    replaced(replaced(template, "{port}"@, port), "{token}"@, secret)
}

/// The redirect target for `port` and `secret`: the substituted template,
/// if it is a URI.
pub open spec fn redirect_url(template: Seq<char>, port: Seq<char>, secret: Seq<char>) -> Option<
    Seq<char>,
> {
    if parses_as_uri(substituted(template, port, secret)) {
        Some(substituted(template, port, secret))
    } else {
        None
    }
}

/// `r` reports `url`: the address, or `URLBuildError` where there is none.
pub open spec fn reports_url(r: Result<String, WorkspaceError>, url: Option<Seq<char>>) -> bool {
    match url {
        Some(u) => r is Ok && r->Ok_0@ == u,
        None => r == Err::<String, WorkspaceError>(WorkspaceError::URLBuildError),
    }
}

/// Puts `port` and `secret` into `template`.
pub fn substitute(template: &str, port: &str, secret: &str) -> (url: String)
    ensures
        url@ == substituted(template@, port@, secret@),
{
    let with_port = replace(template, "{port}", port);
    replace(with_port.as_str(), "{token}", secret)
}

/// Accepts `url` as a redirect target if it is a URI.
pub fn accept_url(url: String) -> (r: Result<String, WorkspaceError>)
    ensures
        parses_as_uri(url@) ==> r is Ok && r->Ok_0@ == url@,
        !parses_as_uri(url@) ==> r == Err::<String, WorkspaceError>(
            WorkspaceError::URLBuildError,
        ),
{
    match parse_uri(url.as_str()) {
        Ok(_) => Ok(url),
        Err(_) => Err(WorkspaceError::URLBuildError),
    }
}

/// Builds the redirect target of a workspace from the configured template.
pub fn build_redirect_url(template: &str, port: &str, secret: &str) -> (r: Result<
    String,
    WorkspaceError,
>)
    ensures
        reports_url(r, redirect_url(template@, port@, secret@)),
{
    accept_url(substitute(template, port, secret))
}

} // verus!
