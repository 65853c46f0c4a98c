//! Summaries of fetched content, by the kind of the content.

use vstd::prelude::*;
use vstd::string::*;

verus! {

/// What kind of content a summary is of.
#[derive(Clone, Copy, Debug, PartialEq, Eq, Structural)]
pub enum ContentKind {
    Text,
    Html,
    Image,
    Unknown,
}

/// A summary of content of one kind.
#[derive(Clone, Debug)]
pub struct Content {
    kind: ContentKind,
    summary: String,
}

/// What the inspection of the first bytes of content says of it.
#[derive(Clone, Copy, Debug, PartialEq, Eq, Structural)]
pub enum Inspection {
    Text,
    Binary,
    Other,
}

/// How content is to be summarized.
#[derive(Clone, Copy, Debug, PartialEq, Eq, Structural)]
pub enum Treatment {
    /// As markup, and as plain text where that fails.
    MarkupThenText,
    /// As an image.
    Image,
    /// Not at all.
    Unimplemented,
}

impl Content {
    /// The kind of the content.
    pub closed spec fn spec_kind(&self) -> ContentKind {
        self.kind
    }

    /// The summary.
    pub closed spec fn spec_summary(&self) -> Seq<char> {
        self.summary@
    }

    /// A summary of content of `kind`.
    pub fn new(kind: ContentKind, summary: &str) -> (content: Self)
        ensures
            content.spec_kind() == kind,
            content.spec_summary() == summary@,
    {
        Self { kind, summary: String::from_str(summary) }
    }

    /// A summary of text.
    pub fn text(summary: &str) -> (content: Self)
        ensures
            content.spec_kind() == ContentKind::Text,
            content.spec_summary() == summary@,
    {
        Self::new(ContentKind::Text, summary)
    }

    /// A summary of markup.
    pub fn html(summary: &str) -> (content: Self)
        ensures
            content.spec_kind() == ContentKind::Html,
            content.spec_summary() == summary@,
    {
        Self::new(ContentKind::Html, summary)
    }

    /// A summary of an image.
    pub fn image(summary: &str) -> (content: Self)
        ensures
            content.spec_kind() == ContentKind::Image,
            content.spec_summary() == summary@,
    {
        Self::new(ContentKind::Image, summary)
    }

    /// A note on content that could not be summarized.
    pub fn unknown(summary: &str) -> (content: Self)
        ensures
            content.spec_kind() == ContentKind::Unknown,
            content.spec_summary() == summary@,
    {
        Self::new(ContentKind::Unknown, summary)
    }

    /// The kind of the content.
    #[verifier::when_used_as_spec(spec_kind)]
    pub fn kind(&self) -> (kind: ContentKind)
        ensures
            kind == self.spec_kind(),
    {
        self.kind
    }

    /// The summary.
    pub fn summary(&self) -> (summary: &str)
        ensures
            summary@ == self.spec_summary(),
    {
        self.summary.as_str()
    }

    /// How content is to be summarized, given what the inspection of its
    /// first bytes says.
    pub fn treatment(inspection: Inspection) -> (treatment: Treatment)
        ensures
            treatment == match inspection {
                Inspection::Text => Treatment::MarkupThenText,
                Inspection::Binary => Treatment::Image,
                Inspection::Other => Treatment::Unimplemented,
            },
    {
        match inspection {
            Inspection::Text => Treatment::MarkupThenText,
            Inspection::Binary => Treatment::Image,
            Inspection::Other => Treatment::Unimplemented,
        }
    }

    /// The note on content of a kind that is not summarized.
    pub fn unimplemented() -> (content: Self)
        ensures
            content.spec_kind() == ContentKind::Unknown,
            content.spec_summary() == "unimplemented content type"@,
    {
        Self::new(ContentKind::Unknown, "unimplemented content type")
    }
}

/// Whether a download of `received` bytes is over the limit of `limit`
/// bytes, at which it is given up.
pub fn exceeds_limit(received: usize, limit: u128) -> (exceeded: bool)
    ensures
        exceeded == (received > limit),
{
    received as u128 > limit
}

} // verus!
