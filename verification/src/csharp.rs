//! The `.csproj` format: an XML project file in which item groups hold
//! package references.

use vstd::prelude::*;
use vstd::string::*;
use crate::error::{ParseError, ParseErrorView, ParseResult, result_view};
use crate::package::{DescriptorView, PackageDescriptor, PackageType, descriptor_views};
use crate::path::{extension, path_extension};

verus! {

/// A byte-order mark that some authoring tools leave at the start of a file.
/// It is the one anomaly of a file's encoding that is repaired rather than
/// reported: `prepare` drops it before the text reaches the deserializer.
pub const INVALID_CHAR: char = '\u{feff}';

/// The parser of `.csproj` files.
pub struct CSProj;

/// A package reference as mathematical values.
pub struct ReferenceView {
    pub name: Seq<char>,
    pub version: Seq<char>,
}

/// One `PackageReference` entry of an item group.
#[derive(Debug, PartialEq, Eq)]
pub struct PackageReference {
    pub name: String,
    pub version: String,
}

impl View for PackageReference {
    type V = ReferenceView;

    open spec fn view(&self) -> ReferenceView {
        ReferenceView { name: self.name@, version: self.version@ }
    }
}

/// One `ItemGroup` of a project: its package references in document order.
#[derive(Debug, PartialEq, Eq)]
pub struct ItemGroup {
    pub dependencies: Vec<PackageReference>,
}

impl View for ItemGroup {
    type V = Seq<ReferenceView>;

    open spec fn view(&self) -> Seq<ReferenceView> {
        self.dependencies@.map_values(|r: PackageReference| r@)
    }
}

/// A deserialized project file: its item groups in document order.
#[derive(Debug, PartialEq, Eq)]
pub struct Project {
    pub item_groups: Vec<ItemGroup>,
}

impl View for Project {
    type V = Seq<Seq<ReferenceView>>;

    open spec fn view(&self) -> Seq<Seq<ReferenceView>> {
        self.item_groups@.map_values(|g: ItemGroup| g@)
    }
}

/// The text of an optional attribute: empty where the attribute is absent.
pub open spec fn text_or_empty(attribute: Option<String>) -> Seq<char> {
    match attribute {
        Some(text) => text@,
        None => Seq::empty(),
    }
}

/// The descriptor that a reference stands for: its name and version as they
/// are, in the NuGet ecosystem.
pub open spec fn nuget(reference: ReferenceView) -> DescriptorView {
    DescriptorView {
        name: reference.name,
        version: reference.version,
        package_type: PackageType::Nuget,
    }
}

/// The descriptors of a document: one for each reference, the groups in
/// document order and the references of a group in document order.
pub open spec fn descriptors_of(document: Seq<Seq<ReferenceView>>) -> Seq<DescriptorView> {
    document.flatten().map_values(|r: ReferenceView| nuget(r))
}

/// What a deserialized document comes to: the descriptors of a project, or
/// `MalformedDocument` with the diagnostic of the deserializer.
pub open spec fn outcome(document: Result<Project, String>) -> Result<
    Seq<DescriptorView>,
    ParseErrorView,
> {
    match document {
        Ok(project) => Ok(descriptors_of(project@)),
        Err(cause) => Err(ParseErrorView::MalformedDocument(cause@)),
    }
}

/// `text` without the marks that it begins with.
pub open spec fn without_marker(text: Seq<char>) -> Seq<char>
    decreases text.len(),
{
    if text.len() > 0 && text[0] == INVALID_CHAR {
        without_marker(text.drop_first())
    } else {
        text
    }
}

impl PackageReference {
    /// Builds a reference from the `Include` and `Version` attributes of an
    /// entry. An attribute that the entry lacks gives the empty string.
    pub fn from_attributes(name: Option<String>, version: Option<String>) -> (reference: Self)
        ensures
            reference@.name == text_or_empty(name),
            reference@.version == text_or_empty(version),
            nuget(reference@).version == text_or_empty(version),
    {
        let name = match name {
            Some(text) => text,
            None => String::new(),
        };
        let version = match version {
            Some(text) => text,
            None => String::new(),
        };
        PackageReference { name, version }
    }

    /// The descriptor of this reference.
    pub fn descriptor(&self) -> (descriptor: PackageDescriptor)
        ensures
            descriptor@ == nuget(self@),
    {
        PackageDescriptor {
            name: self.name.clone(),
            version: self.version.clone(),
            package_type: PackageType::Nuget,
        }
    }
}

impl From<PackageReference> for PackageDescriptor {
    fn from(pkg_ref: PackageReference) -> (descriptor: PackageDescriptor) {
        PackageDescriptor {
            name: pkg_ref.name,
            version: pkg_ref.version,
            package_type: PackageType::Nuget,
        }
    }
}

impl vstd::std_specs::convert::FromSpecImpl<PackageReference> for PackageDescriptor {
    open spec fn obeys_from_spec() -> bool {
        true
    }

    open spec fn from_spec(pkg_ref: PackageReference) -> PackageDescriptor {
        PackageDescriptor {
            name: pkg_ref.name,
            version: pkg_ref.version,
            package_type: PackageType::Nuget,
        }
    }
}

impl Project {
    /// Flattens the item groups into one list of descriptors, in document
    /// order. Nothing is dropped and nothing is merged: a reference that
    /// occurs twice gives two descriptors.
    pub fn descriptors(&self) -> (list: Vec<PackageDescriptor>)
        ensures
            descriptor_views(list@) == descriptors_of(self@),
    {
        let mut list: Vec<PackageDescriptor> = Vec::new();
        let mut g: usize = 0;
        assert(descriptor_views(list@) =~= descriptors_of(self@.take(0)));
        while g < self.item_groups.len()
            invariant
                g <= self.item_groups.len(),
                descriptor_views(list@) == descriptors_of(self@.take(g as int)),
            decreases self.item_groups.len() - g,
        {
            let group: &ItemGroup = &self.item_groups[g];
            let ghost before = list@;
            let mut j: usize = 0;
            assert(descriptor_views(list@) =~= descriptor_views(before) + group@.take(
                0,
            ).map_values(|r: ReferenceView| nuget(r)));
            while j < group.dependencies.len()
                invariant
                    j <= group.dependencies.len(),
                    descriptor_views(list@) == descriptor_views(before) + group@.take(
                        j as int,
                    ).map_values(|r: ReferenceView| nuget(r)),
                decreases group.dependencies.len() - j,
            {
                let ghost filled = list@;
                let descriptor = group.dependencies[j].descriptor();
                list.push(descriptor);
                assert(descriptor_views(list@) =~= descriptor_views(filled).push(descriptor@));
                assert(group@.take(j + 1) =~= group@.take(j as int).push(group@[j as int]));
                assert(descriptor_views(list@) =~= descriptor_views(before) + group@.take(
                    j + 1,
                ).map_values(|r: ReferenceView| nuget(r)));
                j += 1;
            }
            proof {
                assert(group@.take(j as int) =~= group@);
                assert(self@.take(g + 1) =~= self@.take(g as int).push(group@));
                self@.take(g as int).lemma_flatten_push(group@);
            }
            g += 1;
        }
        assert(self@.take(g as int) =~= self@);
        list
    }
}

impl CSProj {
    /// Readies the text of a file for the XML deserializer: drops the marks
    /// that it begins with and leaves the rest as it is.
    pub fn prepare<'a>(&self, data: &'a str) -> (text: &'a str)
        ensures
            text@ == without_marker(data@),
    {
        let len: usize = data.unicode_len();
        let mut start: usize = 0;
        assert(data@.skip(0) =~= data@);
        while start < len && data.get_char(start) == INVALID_CHAR
            invariant
                start <= len,
                len == data@.len(),
                without_marker(data@) == without_marker(data@.skip(start as int)),
            decreases len - start,
        {
            assert(data@.skip(start as int).drop_first() =~= data@.skip(start + 1));
            start += 1;
        }
        assert(data@.subrange(start as int, len as int) =~= data@.skip(start as int));
        data.substring_char(start, len)
    }

    /// Turns what the deserializer made of a prepared text into descriptors.
    /// A project gives the descriptors of all its references, in document
    /// order; a diagnostic gives `MalformedDocument` with that diagnostic.
    pub fn parse(&self, document: Result<Project, String>) -> (result: ParseResult)
        ensures
            result_view(result) == outcome(document),
    {
        match document {
            Ok(project) => Ok(project.descriptors()),
            Err(cause) => Err(ParseError::MalformedDocument(cause)),
        }
    }

    /// Parses the text of a file with the XML deserializer that the caller
    /// brings. The deserializer is run once, on the prepared text, and what
    /// it returns decides the result as in `parse`.
    pub fn parse_text<F>(&self, data: &str, deserialize: F) -> (result: ParseResult) where
        F: FnOnce(&str) -> Result<Project, String>,

        requires
            forall|text: &str|
                text@ == without_marker(data@) ==> #[trigger] deserialize.requires((text,)),
        ensures
            exists|text: &str, document: Result<Project, String>|
                text@ == without_marker(data@) && #[trigger] deserialize.ensures((text,), document)
                    && result_view(result) == outcome(document),
    {
        let text: &str = self.prepare(data);
        let document = deserialize(text);
        self.parse(document)
    }

    /// The ecosystem of every descriptor that this parser returns.
    pub fn package_type(&self) -> (ecosystem: PackageType)
        ensures
            ecosystem == PackageType::Nuget,
    {
        PackageType::Nuget
    }

    /// Whether `path` names a file of this format: its last component has
    /// the extension `csproj`.
    pub fn is_path_lockfile(&self, path: &str) -> (claimed: bool)
        ensures
            claimed == (extension(path@) == Some("csproj"@)),
    {
        match path_extension(path) {
            Some(text) => text == "csproj".to_owned(),
            None => false,
        }
    }
}

/// Every descriptor of a document is a NuGet descriptor.
pub proof fn lemma_ecosystem_fixed(document: Seq<Seq<ReferenceView>>, i: int)
    requires
        0 <= i < descriptors_of(document).len(),
    ensures
        descriptors_of(document)[i].package_type == PackageType::Nuget,
{
}

/// A document without references has no descriptors, however many groups it
/// has.
pub proof fn lemma_no_references_no_descriptors(document: Seq<Seq<ReferenceView>>)
    requires
        forall|g: int| 0 <= g < document.len() ==> document[g].len() == 0,
    ensures
        descriptors_of(document) == Seq::<DescriptorView>::empty(),
    decreases document.len(),
{
    if document.len() > 0 {
        let rest = document.drop_first();
        assert forall|g: int| 0 <= g < rest.len() implies rest[g].len() == 0 by {
            assert(rest[g] == document[g + 1]);
        }
        lemma_no_references_no_descriptors(rest);
        assert(document.flatten() =~= document.first() + rest.flatten());
    }
    assert(descriptors_of(document) =~= Seq::<DescriptorView>::empty());
}

/// A project without references parses to no descriptors and to no error,
/// whether it has no groups or only empty ones.
pub proof fn lemma_empty_project_parses(project: Project)
    requires
        forall|g: int| 0 <= g < project@.len() ==> project@[g].len() == 0,
    ensures
        outcome(Ok(project)) == Ok::<Seq<DescriptorView>, ParseErrorView>(Seq::empty()),
{
    lemma_no_references_no_descriptors(project@);
}

/// The number of references in the groups before group `g`.
pub open spec fn references_before(document: Seq<Seq<ReferenceView>>, g: int) -> nat {
    document.take(g).flatten().len()
}

/// The place of a reference among the descriptors: the `j`-th reference of
/// group `g` comes after all references of earlier groups and after the
/// earlier references of its own group.
pub open spec fn position(document: Seq<Seq<ReferenceView>>, g: int, j: int) -> int {
    references_before(document, g) + j
}

/// The references before group `g + 1` are those before group `g` and those
/// of group `g`.
pub proof fn lemma_references_before_next(document: Seq<Seq<ReferenceView>>, g: int)
    requires
        0 <= g < document.len(),
    ensures
        document.take(g + 1).flatten() == document.take(g).flatten() + document[g],
        references_before(document, g + 1) == references_before(document, g) + document[g].len(),
{
    assert(document.take(g + 1) =~= document.take(g).push(document[g]));
    document.take(g).lemma_flatten_push(document[g]);
}

/// The descriptors keep the order of the document: the descriptor at the
/// place of a reference is the descriptor of that reference.
pub proof fn lemma_document_order(document: Seq<Seq<ReferenceView>>, g: int, j: int)
    requires
        0 <= g < document.len(),
        0 <= j < document[g].len(),
    ensures
        0 <= position(document, g, j) < descriptors_of(document).len(),
        descriptors_of(document)[position(document, g, j)] == nuget(document[g][j]),
{
    lemma_references_before_next(document, g);
    lemma_prefix_of_flattened(document, g + 1);
    let through = document.take(g + 1).flatten();
    assert(through[position(document, g, j)] == document[g][j]);
}

/// What the first `g` groups hold stands at the start of what all groups
/// hold.
pub proof fn lemma_prefix_of_flattened(document: Seq<Seq<ReferenceView>>, g: int)
    requires
        0 <= g <= document.len(),
    ensures
        document.take(g).flatten().len() <= document.flatten().len(),
        document.take(g).flatten() == document.flatten().take(
            document.take(g).flatten().len() as int,
        ),
    decreases document.len() - g,
{
    if g == document.len() {
        assert(document.take(g) =~= document);
        assert(document.flatten() =~= document.flatten().take(document.flatten().len() as int));
    } else {
        lemma_references_before_next(document, g);
        lemma_prefix_of_flattened(document, g + 1);
        let longer = document.take(g + 1).flatten();
        let shorter = document.take(g).flatten();
        assert(shorter =~= longer.take(shorter.len() as int));
        assert(shorter =~= document.flatten().take(shorter.len() as int));
    }
}

/// A reference that comes earlier in the document, in an earlier group or
/// earlier in the same group, has the earlier place among the descriptors.
pub proof fn lemma_places_increase(
    document: Seq<Seq<ReferenceView>>,
    g1: int,
    j1: int,
    g2: int,
    j2: int,
)
    requires
        0 <= g1 <= g2 < document.len(),
        0 <= j1 < document[g1].len(),
        0 <= j2 < document[g2].len(),
        g1 < g2 || j1 < j2,
    ensures
        position(document, g1, j1) < position(document, g2, j2),
    decreases g2 - g1,
{
    if g1 < g2 {
        lemma_references_before_next(document, g2 - 1);
        if g1 < g2 - 1 {
            let last = document[g2 - 1].len() as int;
            if last > 0 {
                lemma_places_increase(document, g1, j1, g2 - 1, last - 1);
            } else {
                lemma_group_starts_increase(document, g1 + 1, g2 - 1);
                lemma_references_before_next(document, g1);
            }
        }
    }
}

/// A later group starts no earlier than an earlier one.
pub proof fn lemma_group_starts_increase(document: Seq<Seq<ReferenceView>>, g1: int, g2: int)
    requires
        0 <= g1 <= g2 <= document.len(),
    ensures
        references_before(document, g1) <= references_before(document, g2),
    decreases g2 - g1,
{
    if g1 < g2 {
        lemma_references_before_next(document, g2 - 1);
        lemma_group_starts_increase(document, g1, g2 - 1);
    }
}

/// A mark in front of a text changes nothing of what is left once the marks
/// are dropped.
pub proof fn lemma_marker_ignored(text: Seq<char>)
    ensures
        without_marker(seq![INVALID_CHAR] + text) == without_marker(text),
{
    assert((seq![INVALID_CHAR] + text).drop_first() =~= text);
}

/// What `without_marker` leaves is the end of the text, begins with no mark,
/// and has nothing but marks in front of it.
pub proof fn lemma_without_marker(text: Seq<char>)
    ensures
        without_marker(text).len() <= text.len(),
        without_marker(text) == text.skip(text.len() - without_marker(text).len()),
        without_marker(text).len() > 0 ==> without_marker(text)[0] != INVALID_CHAR,
        forall|i: int|
            0 <= i < text.len() - without_marker(text).len() ==> text[i] == INVALID_CHAR,
        without_marker(without_marker(text)) == without_marker(text),
    decreases text.len(),
{
    if text.len() > 0 && text[0] == INVALID_CHAR {
        let rest = text.drop_first();
        lemma_without_marker(rest);
        let kept = without_marker(rest).len();
        assert(rest.skip(rest.len() - kept) =~= text.skip(text.len() - kept));
        assert forall|i: int| 0 <= i < text.len() - kept implies text[i] == INVALID_CHAR by {
            if i > 0 {
                assert(text[i] == rest[i - 1]);
            }
        }
    } else {
        assert(text.skip(0) =~= text);
    }
}

} // verus!
