//! Resolving a creator page URL into the host and the creator it names.

use vstd::prelude::*;
use crate::text::{join_segments, joined};

verus! {

/// What the URL parser gives for a text: `None` when it does not parse, else the
/// host, if any, and the path segments, if the URL has a hierarchical path.
pub uninterp spec fn url_parts(s: Seq<char>) -> Option<(Option<Seq<char>>, Option<Seq<Seq<char>>>)>;

/// The host and the path segments of a parsed URL.
pub struct UrlParts {
    pub host: Option<String>,
    pub segments: Option<Vec<String>>,
}

/// The views of path segments.
pub open spec fn segs_view(v: Vec<String>) -> Seq<Seq<char>> {
    v@.map_values(|x: String| x@)
}

impl UrlParts {
    pub open spec fn model(&self) -> (Option<Seq<char>>, Option<Seq<Seq<char>>>) {
        (
            match self.host {
                Some(h) => Some(h@),
                None => None,
            },
            match self.segments {
                Some(v) => Some(segs_view(v)),
                None => None,
            },
        )
    }
}

/// The model of an optional [`UrlParts`].
pub open spec fn parts_model(p: Option<UrlParts>) -> Option<(Option<Seq<char>>, Option<Seq<Seq<char>>>)> {
    match p {
        Some(u) => Some(u.model()),
        None => None,
    }
}

/// Relies on reqwest::Url::parse (the `url` crate's WHATWG parser) with the
/// parsed URL's `host_str` and `path_segments`: what they give depends on the
/// text alone.
#[verifier::external_body]
fn split_url(s: &str) -> (r: Option<UrlParts>)
    ensures
        parts_model(r) == url_parts(s@),
{
    reqwest::Url::parse(s).ok().map(|u| UrlParts {
        host: u.host_str().map(|h| h.to_string()),
        segments: u.path_segments().map(|it| it.map(|x| x.to_string()).collect()),
    })
}

/// Why a creator page URL was refused.
#[derive(Clone, Copy, Debug, PartialEq, Eq, Structural)]
pub enum InvalidInput {
    /// The text does not parse as a URL.
    Unparsable,
    /// The URL has no host.
    NoHost,
    /// The URL has no non-empty last path segment to name the creator.
    NoCreator,
}

/// Where a creator's listing lives.
#[derive(Clone, Debug, PartialEq, Eq)]
pub struct Context {
    /// Host of the API.
    pub host: String,
    /// The page URL's path segments joined with `/`.
    pub creator_path: String,
    /// The last path segment.
    pub creator_id: String,
}

/// The mathematical model of a [`Context`].
pub ghost struct ContextModel {
    pub host: Seq<char>,
    pub creator_path: Seq<char>,
    pub creator_id: Seq<char>,
}

impl View for Context {
    type V = ContextModel;

    open spec fn view(&self) -> ContextModel {
        ContextModel { host: self.host@, creator_path: self.creator_path@, creator_id: self.creator_id@ }
    }
}

/// The context named by the parser's output, or why there is none.
pub open spec fn context_of(
    p: Option<(Option<Seq<char>>, Option<Seq<Seq<char>>>)>,
) -> Result<ContextModel, InvalidInput> {
    match p {
        None => Err(InvalidInput::Unparsable),
        Some((None, _)) => Err(InvalidInput::NoHost),
        Some((Some(host), segs)) => match segs {
            Some(s) if s.len() > 0 && s.last().len() > 0 => Ok(
                ContextModel { host, creator_path: joined(s), creator_id: s.last() },
            ),
            _ => Err(InvalidInput::NoCreator),
        },
    }
}

/// The view of a resolution's result.
pub open spec fn result_view(r: Result<Context, InvalidInput>) -> Result<ContextModel, InvalidInput> {
    match r {
        Ok(c) => Ok(c@),
        Err(e) => Err(e),
    }
}

/// Builds the context out of the parts of a parsed URL.
pub fn context_from_parts(p: Option<UrlParts>) -> (r: Result<Context, InvalidInput>)
    ensures
        result_view(r) == context_of(parts_model(p)),
{
    match p {
        None => Err(InvalidInput::Unparsable),
        Some(u) => match u.host {
            None => Err(InvalidInput::NoHost),
            Some(host) => match u.segments {
                Some(segs) => {
                    let n = segs.len();
                    if n > 0 && segs[n - 1].as_str().unicode_len() > 0 {
                        let creator_path = join_segments(&segs);
                        let creator_id = segs[n - 1].clone();
                        Ok(Context { host, creator_path, creator_id })
                    } else {
                        Err(InvalidInput::NoCreator)
                    }
                },
                None => Err(InvalidInput::NoCreator),
            },
        },
    }
}

/// Resolves a creator page URL into its host, creator path and creator id.
pub fn resolve_context(url: &str) -> (r: Result<Context, InvalidInput>)
    ensures
        result_view(r) == context_of(url_parts(url@)),
{
    context_from_parts(split_url(url))
}

} // verus!
