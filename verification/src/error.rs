//! Why a manifest could not be turned into descriptors.

use vstd::prelude::*;
use crate::package::{DescriptorView, PackageDescriptor, descriptor_views};

verus! {

/// The failure of a parse.
#[derive(Clone, Debug, PartialEq, Eq)]
pub enum ParseError {
    /// No format claims the path.
    UnclaimedFormat,
    /// The document is not well formed; the text is the diagnostic of the
    /// syntax layer that rejected it.
    MalformedDocument(String),
}

/// A `ParseError` as mathematical values.
pub enum ParseErrorView {
    UnclaimedFormat,
    MalformedDocument(Seq<char>),
}

impl View for ParseError {
    type V = ParseErrorView;

    open spec fn view(&self) -> ParseErrorView {
        match self {
            ParseError::UnclaimedFormat => ParseErrorView::UnclaimedFormat,
            ParseError::MalformedDocument(cause) => ParseErrorView::MalformedDocument(cause@),
        }
    }
}

/// What a parse returns: every descriptor of the document, or an error and
/// no descriptor at all.
pub type ParseResult = Result<Vec<PackageDescriptor>, ParseError>;

/// A `ParseResult` as mathematical values.
pub open spec fn result_view(result: ParseResult) -> Result<Seq<DescriptorView>, ParseErrorView> {
    match result {
        Ok(list) => Ok(descriptor_views(list@)),
        Err(error) => Err(error@),
    }
}

} // verus!
