//! The formats that can be parsed, in the order in which they are asked
//! whether a path is theirs.

use vstd::prelude::*;
use crate::csharp::{CSProj, Project, outcome, without_marker};
use crate::error::{ParseError, ParseErrorView, ParseResult, result_view};
use crate::package::{DescriptorView, PackageType};
use crate::path::extension;

verus! {

/// A format, one for each ecosystem whose manifests are understood.
#[derive(Clone, Copy, Debug, PartialEq, Eq, Structural)]
pub enum ParserVariant {
    CSProj,
}

impl ParserVariant {
    /// Whether this format claims `path`. The answer depends on the text of
    /// the path alone.
    pub open spec fn claims(self, path: Seq<char>) -> bool {
        match self {
            ParserVariant::CSProj => extension(path) == Some("csproj"@),
        }
    }

    /// The ecosystem of every descriptor that this format yields.
    pub open spec fn tag(self) -> PackageType {
        match self {
            ParserVariant::CSProj => PackageType::Nuget,
        }
    }

    /// Asks this format whether `path` is one of its files.
    pub fn claims_path(&self, path: &str) -> (claimed: bool)
        ensures
            claimed == self.claims(path@),
    {
        match self {
            ParserVariant::CSProj => CSProj.is_path_lockfile(path),
        }
    }

    /// The ecosystem of this format.
    pub fn ecosystem(&self) -> (ecosystem: PackageType)
        ensures
            ecosystem == self.tag(),
    {
        match self {
            ParserVariant::CSProj => CSProj.package_type(),
        }
    }

    /// Readies the text of a file of this format for its deserializer.
    pub fn prepare<'a>(&self, data: &'a str) -> (text: &'a str)
        ensures
            text@ == without_marker(data@),
    {
        match self {
            ParserVariant::CSProj => CSProj.prepare(data),
        }
    }

    /// Turns what the deserializer of this format returned into descriptors.
    pub fn parse(&self, document: Result<Project, String>) -> (result: ParseResult)
        ensures
            result_view(result) == outcome(document),
    {
        match self {
            ParserVariant::CSProj => CSProj.parse(document),
        }
    }
}

/// The formats in their order of priority. Where two formats claim the same
/// path, the one that stands first has it.
pub struct Registry {
    pub variants: Vec<ParserVariant>,
}

/// Whether the format at `index` is the first of `variants` that claims
/// `path`.
pub open spec fn is_first_claim(variants: Seq<ParserVariant>, path: Seq<char>, index: int) -> bool {
    &&& 0 <= index < variants.len()
    &&& variants[index].claims(path)
    &&& forall|earlier: int| 0 <= earlier < index ==> !variants[earlier].claims(path)
}

/// Whether no format of `variants` claims `path`.
pub open spec fn unclaimed(variants: Seq<ParserVariant>, path: Seq<char>) -> bool {
    forall|index: int| 0 <= index < variants.len() ==> !variants[index].claims(path)
}

impl Registry {
    /// The registry of all formats, in their fixed order.
    pub fn new() -> (registry: Self)
        ensures
            registry.variants@ == seq![ParserVariant::CSProj],
    {
        let mut variants: Vec<ParserVariant> = Vec::new();
        variants.push(ParserVariant::CSProj);
        assert(variants@ =~= seq![ParserVariant::CSProj]);
        Registry { variants }
    }

    /// Finds the format that has `path`: the first in order that claims it.
    /// Where none does, the error is `UnclaimedFormat`.
    pub fn detect(&self, path: &str) -> (found: Result<ParserVariant, ParseError>)
        ensures
            match found {
                Ok(variant) => exists|index: int|
                    is_first_claim(self.variants@, path@, index) && self.variants@[index]
                        == variant,
                Err(error) => error@ == ParseErrorView::UnclaimedFormat && unclaimed(
                    self.variants@,
                    path@,
                ),
            },
    {
        let mut index: usize = 0;
        while index < self.variants.len()
            invariant
                index <= self.variants.len(),
                forall|earlier: int| 0 <= earlier < index ==> !self.variants@[earlier].claims(path@),
            decreases self.variants.len() - index,
        {
            if self.variants[index].claims_path(path) {
                assert(is_first_claim(self.variants@, path@, index as int));
                return Ok(self.variants[index]);
            }
            index += 1;
        }
        Err(ParseError::UnclaimedFormat)
    }

    /// Dispatches a deserialized document to the format that has `path` and
    /// hands back what that format returns, unchanged. Where no format
    /// claims the path, the error is `UnclaimedFormat`, whatever the document
    /// holds.
    pub fn parse(&self, path: &str, document: Result<Project, String>) -> (result: ParseResult)
        ensures
            result_view(result) == if unclaimed(self.variants@, path@) {
                Err(ParseErrorView::UnclaimedFormat)
            } else {
                outcome(document)
            },
    {
        match self.detect(path) {
            Ok(variant) => variant.parse(document),
            Err(error) => Err(error),
        }
    }

    /// Parses the text of the file at `path` with the deserializers that the
    /// caller brings. The first format that claims the path has the file: its
    /// deserializer is run once, on the prepared text, and what it returns
    /// decides the result. Where no format claims the path, no deserializer
    /// is run and the error is `UnclaimedFormat`.
    pub fn parse_text<F>(&self, path: &str, data: &str, deserialize: F) -> (result: ParseResult) where
        F: FnOnce(ParserVariant, &str) -> Result<Project, String>,

        requires
            forall|variant: ParserVariant, text: &str|
                text@ == without_marker(data@) ==> #[trigger] deserialize.requires(
                    (variant, text),
                ),
        ensures
            unclaimed(self.variants@, path@) ==> result_view(result) == Err::<
                Seq<DescriptorView>,
                ParseErrorView,
            >(ParseErrorView::UnclaimedFormat),
            !unclaimed(self.variants@, path@) ==> exists|
                index: int,
                text: &str,
                document: Result<Project, String>,
            |
                is_first_claim(self.variants@, path@, index) && text@ == without_marker(data@)
                    && #[trigger] deserialize.ensures((self.variants@[index], text), document)
                    && result_view(result) == outcome(document),
    {
        match self.detect(path) {
            Ok(variant) => {
                let text: &str = variant.prepare(data);
                let document = deserialize(variant, text);
                variant.parse(document)
            },
            Err(error) => Err(error),
        }
    }
}

} // verus!
