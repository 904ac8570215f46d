//! The canonical package descriptor shared by every manifest format.

use vstd::prelude::*;

verus! {

/// The ecosystem a package belongs to.
#[derive(Clone, Copy, Debug, PartialEq, Eq, Structural)]
pub enum PackageType {
    Npm,
    PyPi,
    Maven,
    RubyGems,
    Nuget,
}

/// What a descriptor says, as mathematical values.
pub struct DescriptorView {
    pub name: Seq<char>,
    pub version: Seq<char>,
    pub package_type: PackageType,
}

/// One declared dependency: a name and a version, both taken verbatim from
/// the manifest, and the ecosystem of the manifest's format.
#[derive(Clone, Debug, PartialEq, Eq)]
pub struct PackageDescriptor {
    pub name: String,
    pub version: String,
    pub package_type: PackageType,
}

impl View for PackageDescriptor {
    type V = DescriptorView;

    open spec fn view(&self) -> DescriptorView {
        DescriptorView {
            name: self.name@,
            version: self.version@,
            package_type: self.package_type,
        }
    }
}

/// The views of a list of descriptors, in the list's order.
pub open spec fn descriptor_views(list: Seq<PackageDescriptor>) -> Seq<DescriptorView> {
    list.map_values(|d: PackageDescriptor| d@)
}

} // verus!
