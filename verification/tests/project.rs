use phylum::project::{
    list_header, needs_current_project, pad_to, pretty_print, project_list_header, project_name,
    threshold_key, threshold_names, threshold_update, ProjectCommand, ThresholdUpdate,
    CURRENT_PROJECT, NAME_COLUMN,
};
use phylum::config::ProjectConfig;

#[test]
fn pad_to_fills_with_spaces() {
    assert_eq!(pad_to("abc", 5), "abc  ");
    assert_eq!(pad_to("abc", 3), "abc");
    assert_eq!(pad_to("abcdef", 3), "abcdef");
    assert_eq!(pad_to("", 2), "  ");
    assert_eq!(pad_to("", 0), "");
    assert_eq!(pad_to("\u{e9}t\u{e9}", 4), "\u{e9}t\u{e9} ");
}

#[test]
fn list_header_aligns_the_second_column() {
    assert_eq!(NAME_COLUMN, 38);
    assert_eq!(list_header("demo", "id"), format!("demo{}id", " ".repeat(34)));
    assert_eq!(list_header("demo", "id"), format!("{:<38}{}", "demo", "id"));
    let long = "a".repeat(40);
    assert_eq!(list_header(&long, "id"), format!("{}id", long));
}

#[test]
fn project_list_header_is_blue() {
    let expected = format!(
        "\u{1b}[34mProject Name\u{1b}[0m{}\u{1b}[34mProject ID\u{1b}[0m",
        " ".repeat(17)
    );
    assert_eq!(project_list_header(), expected);

    let proj_title = format!("{}", ansi_term::Color::Blue.paint("Project Name"));
    let id_title = format!("{}", ansi_term::Color::Blue.paint("Project ID"));
    assert_eq!(project_list_header(), format!("{:<38}{}", proj_title, id_title));
}

#[test]
fn command_by_subcommand_name() {
    assert_eq!(ProjectCommand::from_name(Some("create")), ProjectCommand::Create);
    assert_eq!(ProjectCommand::from_name(Some("list")), ProjectCommand::List);
    assert_eq!(ProjectCommand::from_name(Some("link")), ProjectCommand::Link);
    assert_eq!(ProjectCommand::from_name(Some("set-thresholds")), ProjectCommand::SetThresholds);
}

#[test]
fn command_defaults_to_list() {
    assert_eq!(ProjectCommand::from_name(None), ProjectCommand::List);
    assert_eq!(ProjectCommand::from_name(Some("")), ProjectCommand::List);
    assert_eq!(ProjectCommand::from_name(Some("Create")), ProjectCommand::List);
    assert_eq!(ProjectCommand::from_name(Some("set_thresholds")), ProjectCommand::List);
}

#[test]
fn pretty_print_unless_json() {
    assert!(pretty_print(false, false));
    assert!(!pretty_print(true, false));
    assert!(!pretty_print(false, true));
    assert!(!pretty_print(true, true));
}

#[test]
fn current_project_is_looked_up_only_when_meant() {
    assert_eq!(CURRENT_PROJECT, "current");
    assert!(needs_current_project(None));
    assert!(needs_current_project(Some("current")));
    assert!(!needs_current_project(Some("demo")));
    assert!(!needs_current_project(Some("")));
}

#[test]
fn project_name_resolution() {
    assert_eq!(project_name(Some("demo"), Some("linked".to_string())), "demo");
    assert_eq!(project_name(Some("demo"), None), "demo");
    assert_eq!(project_name(Some("current"), Some("linked".to_string())), "linked");
    assert_eq!(project_name(None, Some("linked".to_string())), "linked");
    assert_eq!(project_name(Some("current"), None), "current");
    assert_eq!(project_name(None, None), "current");
}

#[test]
fn threshold_keys() {
    assert_eq!(threshold_key("total project"), "total");
    assert_eq!(threshold_key("malicious code"), "maliciousCode");
    assert_eq!(threshold_key("author"), "author");
    assert_eq!(threshold_key("engineering"), "engineering");
    assert_eq!(threshold_key("license"), "license");
    assert_eq!(threshold_key("vulnerability"), "vulnerability");
    assert_eq!(threshold_key(""), "");
}

#[test]
fn threshold_names_in_order_of_asking() {
    assert_eq!(
        threshold_names(),
        vec!["total project", "author", "engineering", "license", "malicious code", "vulnerability"]
    );
}

#[test]
fn threshold_update_from_answer() {
    assert_eq!(
        threshold_update("total project", Some((60, "break".to_string()))),
        ThresholdUpdate { key: "total".to_string(), threshold: 60, action: "break".to_string() }
    );
    assert_eq!(
        threshold_update("license", Some((-1, "warn".to_string()))),
        ThresholdUpdate { key: "license".to_string(), threshold: -1, action: "warn".to_string() }
    );
}

#[test]
fn threshold_update_without_answer() {
    assert_eq!(
        threshold_update("malicious code", None),
        ThresholdUpdate {
            key: "maliciousCode".to_string(),
            threshold: 0,
            action: "none".to_string()
        }
    );
}

#[test]
fn link_reads_the_identifier() {
    let link = ProjectConfig::link("a1a2a3a4-b1b2-c1c2-d1d2-d3d4d5d6d7d8", "demo".to_string(), 42);
    assert_eq!(
        link,
        Some(ProjectConfig {
            id: 0xa1a2a3a4b1b2c1c2d1d2d3d4d5d6d7d8,
            name: "demo".to_string(),
            created_at: 42,
            group_name: None,
        })
    );
    let simple = ProjectConfig::link("a1a2a3a4b1b2c1c2d1d2d3d4d5d6d7d8", "demo".to_string(), 42);
    assert_eq!(simple, link);
    let zero = ProjectConfig::link("00000000-0000-0000-0000-000000000000", String::new(), -1);
    assert_eq!(zero.map(|config| config.id), Some(0));
}

#[test]
fn link_rejects_what_is_no_identifier() {
    assert_eq!(ProjectConfig::link("", "demo".to_string(), 0), None);
    assert_eq!(ProjectConfig::link("demo", "demo".to_string(), 0), None);
    assert_eq!(ProjectConfig::link("a1a2a3a4-b1b2-c1c2-d1d2-d3d4d5d6d7", "demo".to_string(), 0), None);
}

#[test]
fn link_from_parsed_identifier() {
    assert_eq!(
        ProjectConfig::from_parsed(Some(7), "demo".to_string(), 1_650_000_000_000_000_000),
        Some(ProjectConfig {
            id: 7,
            name: "demo".to_string(),
            created_at: 1_650_000_000_000_000_000,
            group_name: None,
        })
    );
    assert_eq!(ProjectConfig::from_parsed(None, "demo".to_string(), 0), None);
}
