//! The decisions of the `project` command: which action a command line asks
//! for, which project it means, how a threshold is handed to the service,
//! and what links a directory to a project.

use vstd::prelude::*;
use vstd::string::*;
use crate::config::{ProjectConfig, ProjectConfigView};

verus! {

/// What the `project` command can do.
#[derive(Debug, Clone, Copy, PartialEq, Eq, Structural)]
pub enum ProjectCommand {
    /// Create a project and link the current directory to it.
    Create,
    /// List the projects of the account.
    List,
    /// Link the current directory to a project that exists.
    Link,
    /// Ask for the thresholds of a project and store them.
    SetThresholds,
}

/// The action that a subcommand's name stands for. Without a subcommand, and
/// with one that is not known, the projects are listed.
pub open spec fn command_named(name: Option<Seq<char>>) -> ProjectCommand {
    if name == Some("create"@) {
        ProjectCommand::Create
    } else if name == Some("link"@) {
        ProjectCommand::Link
    } else if name == Some("set-thresholds"@) {
        ProjectCommand::SetThresholds
    } else {
        ProjectCommand::List
    }
}

/// The text of an optional string slice.
pub open spec fn text_of(text: Option<&str>) -> Option<Seq<char>> {
    match text {
        Some(held) => Some(held@),
        None => None,
    }
}

/// Whether two texts are the same.
fn same_text(left: &str, right: &str) -> (same: bool)
    ensures
        same == (left@ == right@),
{
    left.to_owned() == right.to_owned()
}

impl ProjectCommand {
    /// Picks the action for the subcommand that was given, if any.
    pub fn from_name(name: Option<&str>) -> (command: Self)
        ensures
            command == command_named(text_of(name)),
    {
        match name {
            Some(given) => {
                if same_text(given, "create") {
                    ProjectCommand::Create
                } else if same_text(given, "link") {
                    ProjectCommand::Link
                } else if same_text(given, "set-thresholds") {
                    ProjectCommand::SetThresholds
                } else {
                    ProjectCommand::List
                }
            },
            None => ProjectCommand::List,
        }
    }
}

/// Whether a list of projects is printed as a table: unless JSON was asked
/// for, on the command itself or on its `list` subcommand.
pub fn pretty_print(json: bool, list_json: bool) -> (pretty: bool)
    ensures
        pretty == (!json && !list_json),
{
    !json && !list_json
}

/// The width of the column of project names, in characters.
pub const NAME_COLUMN: usize = 38;

/// `text` as a terminal shows it in blue: between the escape sequence that
/// sets a blue foreground and the one that resets all styles.
pub open spec fn blue(text: Seq<char>) -> Seq<char> {
    "\x1B[34m"@ + text + "\x1B[0m"@
}

/// `count` spaces.
pub open spec fn spaces(count: nat) -> Seq<char> {
    Seq::new(count, |i: int| ' ')
}

/// `text` filled up with spaces at its end to `width` characters; a text
/// that is as long or longer stays as it is.
pub open spec fn padded(text: Seq<char>, width: nat) -> Seq<char> {
    if text.len() >= width {
        text
    } else {
        text + spaces((width - text.len()) as nat)
    }
}

/// Formats `ansi_term::Colour::Blue.paint(text)`. The crate writes the
/// prefix of the style, the text and the suffix of the style; for a plain
/// blue foreground these are `ESC [ 3 4 m` and `ESC [ 0 m`.
#[verifier::external_body]
fn paint_blue(text: &str) -> (painted: String)
    ensures
        painted@ == blue(text@),
{
    format!("{}", ansi_term::Colour::Blue.paint(text))
}

/// Fills `text` up with spaces at its end to `width` characters.
pub fn pad_to(text: &str, width: usize) -> (filled: String)
    ensures
        filled@ == padded(text@, width as nat),
{
    let mut filled: String = text.to_owned();
    let mut len: usize = text.unicode_len();
    let ghost start = len;
    proof {
        reveal_strlit(" ");
        assert(text@ + spaces(0) =~= text@);
    }
    while len < width
        invariant
            start == text@.len(),
            start <= len,
            len <= width || len == start,
            filled@ == text@ + spaces((len - start) as nat),
            " "@ == seq![' '],
        decreases width - len,
    {
        filled.append(" ");
        len += 1;
        assert(filled@ =~= text@ + spaces((len - start) as nat));
    }
    filled
}

/// The line above a table of projects, from the titles of its two columns:
/// the first title filled up to the width of the name column, then the
/// second.
pub fn list_header(name_title: &str, id_title: &str) -> (line: String)
    ensures
        line@ == padded(name_title@, NAME_COLUMN as nat) + id_title@,
{
    let mut line: String = pad_to(name_title, NAME_COLUMN);
    line.append(id_title);
    line
}

/// The line above the table of projects, with both titles in blue.
pub fn project_list_header() -> (line: String)
    ensures
        line@ == padded(blue("Project Name"@), NAME_COLUMN as nat) + blue("Project ID"@),
{
    let name_title: String = paint_blue("Project Name");
    let id_title: String = paint_blue("Project ID");
    list_header(name_title.as_str(), id_title.as_str())
}

/// The name that stands for the project of the current directory.
pub const CURRENT_PROJECT: &'static str = "current";

/// The name that a request means before the current directory is looked at:
/// the one given, or `current` where none was given.
pub open spec fn requested_name(requested: Option<Seq<char>>) -> Seq<char> {
    match requested {
        Some(name) => name,
        None => CURRENT_PROJECT@,
    }
}

/// Whether the project of the current directory has to be looked up to know
/// which project a request means.
pub fn needs_current_project(requested: Option<&str>) -> (needed: bool)
    ensures
        needed == (requested_name(text_of(requested)) == CURRENT_PROJECT@),
{
    match requested {
        Some(name) => same_text(name, CURRENT_PROJECT),
        None => true,
    }
}

/// The project that a request means. A request for `current`, or for no
/// project by name, means the project that the current directory is linked
/// to; where the directory is linked to none, the name stays as it is.
pub fn project_name(requested: Option<&str>, current: Option<String>) -> (name: String)
    ensures
        name@ == if requested_name(text_of(requested)) == CURRENT_PROJECT@ && current.is_some() {
            current.unwrap()@
        } else {
            requested_name(text_of(requested))
        },
{
    let asked: &str = match requested {
        Some(name) => name,
        None => CURRENT_PROJECT,
    };
    if same_text(asked, CURRENT_PROJECT) {
        match current {
            Some(linked) => linked,
            None => asked.to_owned(),
        }
    } else {
        asked.to_owned()
    }
}

/// The key under which the service keeps the threshold that the user knows
/// as `name`.
pub open spec fn key_of(name: Seq<char>) -> Seq<char> {
    if name == "total project"@ {
        "total"@
    } else if name == "malicious code"@ {
        "maliciousCode"@
    } else {
        name
    }
}

/// The key under which the service keeps a threshold.
pub fn threshold_key(name: &str) -> (key: String)
    ensures
        key@ == key_of(name@),
{
    if same_text(name, "total project") {
        "total".to_owned()
    } else if same_text(name, "malicious code") {
        "maliciousCode".to_owned()
    } else {
        name.to_owned()
    }
}

/// The thresholds that the user is asked for, in the order of asking.
pub fn threshold_names() -> (names: Vec<&'static str>)
    ensures
        names@.len() == 6,
        names@[0]@ == "total project"@,
        names@[1]@ == "author"@,
        names@[2]@ == "engineering"@,
        names@[3]@ == "license"@,
        names@[4]@ == "malicious code"@,
        names@[5]@ == "vulnerability"@,
{
    let mut names: Vec<&'static str> = Vec::new();
    names.push("total project");
    names.push("author");
    names.push("engineering");
    names.push("license");
    names.push("malicious code");
    names.push("vulnerability");
    names
}

/// One threshold as it is sent to the service.
#[derive(Debug, Clone, PartialEq, Eq)]
pub struct ThresholdUpdate {
    pub key: String,
    pub threshold: i32,
    pub action: String,
}

/// The threshold to send for `name`, from what the user answered. Without
/// an answer the threshold is 0, which switches it off, and the action is
/// `none`.
pub fn threshold_update(name: &str, answer: Option<(i32, String)>) -> (update: ThresholdUpdate)
    ensures
        update.key@ == key_of(name@),
        update.threshold == match answer {
            Some(given) => given.0,
            None => 0i32,
        },
        update.action@ == match answer {
            Some(given) => given.1@,
            None => "none"@,
        },
{
    let key: String = threshold_key(name);
    match answer {
        Some(given) => ThresholdUpdate { key, threshold: given.0, action: given.1 },
        None => ThresholdUpdate { key, threshold: 0, action: "none".to_owned() },
    }
}

/// The number that `uuid::Uuid::parse_str` reads from a text, or `None`
/// where it rejects the text.
pub uninterp spec fn uuid_value(text: Seq<char>) -> Option<u128>;

/// Calls `uuid::Uuid::parse_str` on `text` and gives the identifier as the
/// 128-bit number that `Uuid::as_u128` returns for it. Which texts are
/// identifiers, and which number each one stands for, is left to that crate:
/// the contract only gives the outcome its name.
#[verifier::external_body]
fn parse_uuid(text: &str) -> (value: Option<u128>)
    ensures
        value == uuid_value(text@),
{
    match uuid::Uuid::parse_str(text) {
        Ok(id) => Some(id.as_u128()),
        Err(_) => None,
    }
}

/// The link to the project with the identifier `id`, if there is an
/// identifier: a link without a group.
pub open spec fn link_of(id: Option<u128>, name: Seq<char>, created_at: i64) -> Option<
    ProjectConfigView,
> {
    match id {
        Some(value) => Some(
            ProjectConfigView { id: value, name: name, created_at: created_at, group_name: None },
        ),
        None => None,
    }
}

/// The view of an optional link.
pub open spec fn link_view(link: Option<ProjectConfig>) -> Option<ProjectConfigView> {
    match link {
        Some(config) => Some(config@),
        None => None,
    }
}

impl ProjectConfig {
    /// The link to a project whose identifier was read already. Without an
    /// identifier there is no link.
    pub fn from_parsed(id: Option<u128>, name: String, created_at: i64) -> (link: Option<Self>)
        ensures
            link_view(link) == link_of(id, name@, created_at),
    {
        match id {
            Some(value) => Some(ProjectConfig { id: value, name, created_at, group_name: None }),
            None => None,
        }
    }

    /// The link to the project that the service knows under the identifier
    /// `id`, written as a UUID. A text that is no UUID gives no link.
    pub fn link(id: &str, name: String, created_at: i64) -> (link: Option<Self>)
        ensures
            link_view(link) == link_of(uuid_value(id@), name@, created_at),
    {
        ProjectConfig::from_parsed(parse_uuid(id), name, created_at)
    }
}

} // verus!
