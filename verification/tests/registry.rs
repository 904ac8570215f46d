use phylum::csharp::{ItemGroup, PackageReference, Project};
use phylum::error::ParseError;
use phylum::package::{PackageDescriptor, PackageType};
use phylum::registry::{ParserVariant, Registry};

fn sample() -> Project {
    Project {
        item_groups: vec![ItemGroup {
            dependencies: vec![PackageReference {
                name: "Alpha".to_string(),
                version: "1.0.0".to_string(),
            }],
        }],
    }
}

#[test]
fn registry_holds_the_formats_in_order() {
    assert_eq!(Registry::new().variants, vec![ParserVariant::CSProj]);
}

#[test]
fn detect_finds_the_claiming_format() {
    let registry = Registry::new();
    assert_eq!(registry.detect("app/App.csproj"), Ok(ParserVariant::CSProj));
}

#[test]
fn detect_reports_unclaimed_format() {
    let registry = Registry::new();
    assert_eq!(registry.detect("Cargo.lock"), Err(ParseError::UnclaimedFormat));
    assert_eq!(registry.detect(""), Err(ParseError::UnclaimedFormat));
}

#[test]
fn first_claiming_format_wins() {
    let registry = Registry { variants: vec![ParserVariant::CSProj, ParserVariant::CSProj] };
    assert_eq!(registry.detect("App.csproj"), Ok(ParserVariant::CSProj));
    let nothing = Registry { variants: vec![] };
    assert_eq!(nothing.detect("App.csproj"), Err(ParseError::UnclaimedFormat));
}

#[test]
fn parse_dispatches_to_the_format() {
    let registry = Registry::new();
    let pkgs = registry.parse("App.csproj", Ok(sample())).unwrap();
    assert_eq!(
        pkgs,
        vec![PackageDescriptor {
            name: "Alpha".to_string(),
            version: "1.0.0".to_string(),
            package_type: PackageType::Nuget,
        }]
    );
}

#[test]
fn parse_hands_the_error_back_unchanged() {
    let registry = Registry::new();
    let result = registry.parse("App.csproj", Err("1:1 no root element".to_string()));
    assert_eq!(result, Err(ParseError::MalformedDocument("1:1 no root element".to_string())));
}

#[test]
fn parse_of_unclaimed_path_is_not_a_syntax_error() {
    let registry = Registry::new();
    assert_eq!(registry.parse("package.json", Ok(sample())), Err(ParseError::UnclaimedFormat));
    assert_eq!(
        registry.parse("package.json", Err("broken".to_string())),
        Err(ParseError::UnclaimedFormat)
    );
}

#[test]
fn variant_speaks_for_its_format() {
    let variant = ParserVariant::CSProj;
    assert!(variant.claims_path("a.csproj"));
    assert!(!variant.claims_path("a.fsproj"));
    assert_eq!(variant.ecosystem(), PackageType::Nuget);
    assert_eq!(variant.prepare("\u{feff}<Project/>"), "<Project/>");
    assert_eq!(variant.parse(Ok(Project { item_groups: vec![] })), Ok(vec![]));
}
