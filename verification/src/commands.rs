//! The Homebrew commands the application runs: which arguments each one
//! gets, which package names may be handed to `brew`, and what each
//! command's output means.
//!
//! Running the commands is left to the caller; everything decided before
//! and after a run is here.

use vstd::prelude::*;

use crate::actions::{kind_label, kind_str};
use crate::app::{OperationResult, OperationSuccess};
use crate::text::{has_line, lines_of, output_lines, trim, trimmed, views};
use crate::types::{Cask, Package, PackageInfo};

verus! {

// ---------------------------------------------------------------------------
// Package names
// ---------------------------------------------------------------------------

/// Whether `char::is_alphanumeric` holds of a character (the Unicode
/// `Alphabetic` or `Numeric` property).
pub uninterp spec fn unicode_alphanumeric(c: char) -> bool;

/// An ASCII letter or digit.
pub open spec fn ascii_alphanumeric(c: char) -> bool {
    ||| 97 <= (c as u32) <= 122
    ||| 65 <= (c as u32) <= 90
    ||| 48 <= (c as u32) <= 57
}

/// An ASCII character.
pub open spec fn is_ascii_char(c: char) -> bool {
    (c as u32) < 128
}

/// Calls `char::is_alphanumeric` from std. Trusted: the result is
/// `unicode_alphanumeric(c)`, and for an ASCII character it holds exactly
/// of the letters and digits (the only ASCII characters with the Unicode
/// `Alphabetic` or `Numeric` property); the Unicode tables beyond ASCII are
/// not stated.
#[verifier::external_body]
fn is_alphanumeric(c: char) -> (r: bool)
    ensures
        r == unicode_alphanumeric(c),
        is_ascii_char(c) ==> (r == ascii_alphanumeric(c)),
{
    c.is_alphanumeric()
}

/// One of the punctuation characters that package names may hold.
pub open spec fn name_punctuation(c: char) -> bool {
    c == '-' || c == '_' || c == '@' || c == '/' || c == '.'
}

/// A character that may appear in a package name: alphanumeric, or one of
/// `-`, `_`, `@`, `/`, `.`. Among ASCII characters that means a letter, a
/// digit or one of those five.
pub open spec fn name_char_allowed(c: char) -> bool {
    if is_ascii_char(c) {
        ascii_alphanumeric(c) || name_punctuation(c)
    } else {
        unicode_alphanumeric(c)
    }
}

/// Why a package name is refused before it is handed to `brew`.
#[derive(Debug, Clone)]
pub enum NameError {
    /// The name is empty.
    Empty,
    /// The name holds a NUL or a line feed.
    ControlCharacters,
    /// The name holds a character that package names never hold.
    InvalidCharacters(String),
}

/// The name holds a NUL or a line feed.
pub open spec fn has_control_chars(name: Seq<char>) -> bool {
    name.contains('\0') || name.contains('\n')
}

/// Every character of the name may appear in a package name.
pub open spec fn all_chars_allowed(name: Seq<char>) -> bool {
    forall|i: int| 0 <= i < name.len() ==> #[trigger] name_char_allowed(name[i])
}

/// A name that may be handed to `brew`.
pub open spec fn valid_package_name(name: Seq<char>) -> bool {
    name.len() > 0 && !has_control_chars(name) && all_chars_allowed(name)
}

impl NameError {
    /// The error message.
    pub fn message(&self) -> (r: String)
        ensures
            r@ == match self {
                NameError::Empty => "Package name cannot be empty"@,
                NameError::ControlCharacters => "Invalid characters in package name"@,
                NameError::InvalidCharacters(name) => "Package name contains invalid characters: "@
                    + name@,
            },
    {
        match self {
            NameError::Empty => "Package name cannot be empty".to_owned(),
            NameError::ControlCharacters => "Invalid characters in package name".to_owned(),
            NameError::InvalidCharacters(name) => {
                let mut r = "Package name contains invalid characters: ".to_owned();
                r.append(name.as_str());
                r
            },
        }
    }
}

/// `r` is the answer of the name check for `name`: success for a valid
/// name; otherwise the first failing rule of empty name, control
/// characters, other characters (carrying the name).
pub open spec fn name_checked(r: Result<(), NameError>, name: Seq<char>) -> bool {
    &&& (r is Ok <==> valid_package_name(name))
    &&& (r matches Err(NameError::Empty) <==> name.len() == 0)
    &&& (r matches Err(NameError::ControlCharacters) <==> (name.len() > 0 && has_control_chars(
        name,
    )))
    &&& (r matches Err(NameError::InvalidCharacters(n)) ==> n@ == name)
    &&& (r matches Err(NameError::InvalidCharacters(_)) <==> (name.len() > 0 && !has_control_chars(
        name,
    ) && !all_chars_allowed(name)))
}

/// Checks a package name before it is handed to `brew`, to keep shell
/// syntax and stray characters out of the command: the name must not be
/// empty, must not hold NUL or line feed, and may only hold alphanumeric
/// characters and `-`, `_`, `@`, `/`, `.`.
pub fn validate_package_name(name: &str) -> (r: Result<(), NameError>)
    ensures
        name_checked(r, name@),
{
    let chars = crate::text::chars_of(name);
    if chars.len() == 0 {
        return Err(NameError::Empty);
    }
    let mut i: usize = 0;
    while i < chars.len()
        invariant
            i <= chars@.len(),
            chars@ == name@,
            forall|j: int| 0 <= j < i ==> chars@[j] != '\0' && chars@[j] != '\n',
        decreases chars@.len() - i,
    {
        if chars[i] == '\0' || chars[i] == '\n' {
            assert(name@.contains(chars@[i as int]));
            return Err(NameError::ControlCharacters);
        }
        i += 1;
    }
    assert(!has_control_chars(name@)) by {
        if name@.contains('\0') {
            let k = choose|k: int| 0 <= k < name@.len() && name@[k] == '\0';
            assert(chars@[k] != '\0');
        }
        if name@.contains('\n') {
            let k = choose|k: int| 0 <= k < name@.len() && name@[k] == '\n';
            assert(chars@[k] != '\n');
        }
    }
    let mut i: usize = 0;
    while i < chars.len()
        invariant
            i <= chars@.len(),
            chars@ == name@,
            chars@.len() > 0,
            !has_control_chars(name@),
            forall|j: int| 0 <= j < i ==> #[trigger] name_char_allowed(chars@[j]),
        decreases chars@.len() - i,
    {
        let c = chars[i];
        let alnum = is_alphanumeric(c);
        if !(alnum || c == '-' || c == '_' || c == '@' || c == '/' || c == '.') {
            assert(!name_char_allowed(name@[i as int]));
            return Err(NameError::InvalidCharacters(name.to_owned()));
        }
        i += 1;
    }
    Ok(())
}

/// A name holding any ASCII character other than a letter, a digit or one
/// of `-`, `_`, `@`, `/`, `.` is refused: spaces, quotes and shell syntax
/// such as `;`, `|`, `&`, `$` or a backquote never reach `brew`.
pub proof fn lemma_shell_characters_refused(name: Seq<char>, i: int)
    requires
        0 <= i < name.len(),
        is_ascii_char(name[i]),
        !ascii_alphanumeric(name[i]),
        !name_punctuation(name[i]),
    ensures
        !valid_package_name(name),
{
    assert(!name_char_allowed(name[i]));
}

// ---------------------------------------------------------------------------
// Commands
// ---------------------------------------------------------------------------

/// A `brew` invocation.
#[derive(Debug, Clone)]
pub enum BrewCommand {
    /// The installed formulae, as JSON.
    ListFormulae,
    /// The installed casks, as JSON.
    ListCasks,
    /// The names of the outdated formulae.
    OutdatedFormulae,
    /// The names of the outdated casks.
    OutdatedCasks,
    /// The details of one package, as JSON.
    Info { name: String },
    /// What an installed package depends on.
    Dependencies { name: String },
    /// What installed packages depend on a package.
    Dependents { name: String },
    /// Whether a formula is among the pinned ones.
    IsPinned { name: String },
    /// Upgrade one package.
    Upgrade { name: String, is_cask: bool },
    /// Upgrade every outdated package.
    UpgradeAll,
    /// Uninstall one package.
    Uninstall { name: String },
    /// Pin one formula.
    Pin { name: String },
    /// Unpin one formula.
    Unpin { name: String },
    /// Remove old versions and clear the download cache.
    Cleanup,
}

/// The arguments given to `brew` for a command.
pub open spec fn brew_args(c: BrewCommand) -> Seq<Seq<char>> {
    match c {
        BrewCommand::ListFormulae => seq!["info"@, "--json=v2"@, "--installed"@],
        BrewCommand::ListCasks => seq!["info"@, "--json=v2"@, "--installed"@, "--cask"@],
        BrewCommand::OutdatedFormulae => seq!["outdated"@, "--formula"@, "--quiet"@],
        BrewCommand::OutdatedCasks => seq!["outdated"@, "--cask"@, "--quiet"@],
        BrewCommand::Info { name } => seq!["info"@, "--json=v2"@, name@],
        BrewCommand::Dependencies { name } => seq!["deps"@, "--installed"@, name@],
        BrewCommand::Dependents { name } => seq!["uses"@, "--installed"@, name@],
        BrewCommand::IsPinned { .. } => seq!["list"@, "--pinned"@],
        BrewCommand::Upgrade { name, is_cask } => if is_cask {
            seq!["upgrade"@, "--cask"@, name@]
        } else {
            seq!["upgrade"@, name@]
        },
        BrewCommand::UpgradeAll => seq!["upgrade"@],
        BrewCommand::Uninstall { name } => seq!["uninstall"@, name@],
        BrewCommand::Pin { name } => seq!["pin"@, name@],
        BrewCommand::Unpin { name } => seq!["unpin"@, name@],
        BrewCommand::Cleanup => seq!["cleanup"@, "--prune=all"@],
    }
}

/// The package name that must pass [`validate_package_name`] before the
/// command runs, for the commands that change packages.
pub open spec fn checked_name(c: BrewCommand) -> Option<Seq<char>> {
    match c {
        BrewCommand::Upgrade { name, .. } => Some(name@),
        BrewCommand::Uninstall { name } => Some(name@),
        BrewCommand::Pin { name } => Some(name@),
        BrewCommand::Unpin { name } => Some(name@),
        _ => None,
    }
}

/// What the output of a finished command means.
#[derive(Debug, Clone)]
pub enum Outcome {
    /// The command failed; the operation fails with this message.
    Failed(String),
    /// The standard output is JSON to be read.
    Json,
    /// The operation gives these lines of output.
    Lines(Vec<String>),
    /// The operation gives this answer.
    Flag(bool),
    /// The operation succeeded with this message.
    Done(String),
}

/// What the output of a finished command means, with text as characters.
pub enum OutcomeView {
    Failed(Seq<char>),
    Json,
    Lines(Seq<Seq<char>>),
    Flag(bool),
    Done(Seq<char>),
}

impl View for Outcome {
    type V = OutcomeView;

    open spec fn view(&self) -> OutcomeView {
        match self {
            Outcome::Failed(m) => OutcomeView::Failed(m@),
            Outcome::Json => OutcomeView::Json,
            Outcome::Lines(ls) => OutcomeView::Lines(views(ls@)),
            Outcome::Flag(b) => OutcomeView::Flag(*b),
            Outcome::Done(m) => OutcomeView::Done(m@),
        }
    }
}

/// What the output of a command means, given whether it succeeded and what
/// it wrote. Listing commands that fail give no lines (or `false`) rather
/// than an error.
pub open spec fn command_outcome(c: BrewCommand, success: bool, stdout: Seq<char>, stderr: Seq<char>) -> OutcomeView {
    match c {
        BrewCommand::ListFormulae => if success {
            OutcomeView::Json
        } else {
            OutcomeView::Failed("Failed to list formulae: "@ + stderr)
        },
        BrewCommand::ListCasks => if success {
            OutcomeView::Json
        } else {
            OutcomeView::Failed("Failed to list casks: "@ + stderr)
        },
        BrewCommand::Info { .. } => if success {
            OutcomeView::Json
        } else {
            OutcomeView::Failed("Failed to get package info: "@ + stderr)
        },
        BrewCommand::OutdatedFormulae | BrewCommand::OutdatedCasks | BrewCommand::Dependencies {
            ..
        } | BrewCommand::Dependents { .. } => OutcomeView::Lines(
            if success {
                lines_of(stdout)
            } else {
                Seq::empty()
            },
        ),
        BrewCommand::IsPinned { name } => OutcomeView::Flag(
            success && lines_of(stdout).contains(name@),
        ),
        BrewCommand::Upgrade { name, is_cask } => if success {
            OutcomeView::Done("Updated "@ + name@ + " ("@ + kind_label(is_cask) + ")"@)
        } else {
            OutcomeView::Failed("Failed to update "@ + name@ + ": "@ + trimmed(stderr))
        },
        BrewCommand::UpgradeAll => if success {
            OutcomeView::Done("Updated all packages\n"@ + stdout + stderr)
        } else {
            OutcomeView::Failed("Failed to update all packages: "@ + stderr)
        },
        BrewCommand::Uninstall { name } => if success {
            OutcomeView::Done("Uninstalled "@ + name@)
        } else {
            OutcomeView::Failed("Failed to uninstall "@ + name@ + ": "@ + trimmed(stderr))
        },
        BrewCommand::Pin { name } => if success {
            OutcomeView::Done("Pinned "@ + name@)
        } else {
            OutcomeView::Failed("Failed to pin "@ + name@ + ": "@ + stderr)
        },
        BrewCommand::Unpin { name } => if success {
            OutcomeView::Done("Unpinned "@ + name@)
        } else {
            OutcomeView::Failed("Failed to unpin "@ + name@ + ": "@ + stderr)
        },
        BrewCommand::Cleanup => if success {
            OutcomeView::Done("Cleanup completed\n"@ + stdout + stderr)
        } else {
            OutcomeView::Failed("Failed to cleanup: "@ + stderr)
        },
    }
}

/// What the output of each command means. A listing of outdated packages,
/// dependencies or dependents gives the lines that `brew` printed when it
/// succeeds and no lines when it fails; the pinned check answers whether the
/// name is one of the printed lines of a successful run; the JSON commands
/// hand their output on when they succeed and fail with the error output
/// otherwise.
pub proof fn lemma_listing_outcomes(name: String, success: bool, stdout: Seq<char>, stderr: Seq<char>)
    ensures
        command_outcome(BrewCommand::OutdatedFormulae, success, stdout, stderr) == OutcomeView::Lines(
            if success { lines_of(stdout) } else { Seq::empty() },
        ),
        command_outcome(BrewCommand::OutdatedCasks, success, stdout, stderr) == OutcomeView::Lines(
            if success { lines_of(stdout) } else { Seq::empty() },
        ),
        command_outcome(BrewCommand::Dependencies { name }, success, stdout, stderr)
            == OutcomeView::Lines(if success { lines_of(stdout) } else { Seq::empty() }),
        command_outcome(BrewCommand::Dependents { name }, success, stdout, stderr)
            == OutcomeView::Lines(if success { lines_of(stdout) } else { Seq::empty() }),
        command_outcome(BrewCommand::IsPinned { name }, success, stdout, stderr) == OutcomeView::Flag(
            success && lines_of(stdout).contains(name@),
        ),
        success ==> command_outcome(BrewCommand::ListFormulae, success, stdout, stderr)
            == OutcomeView::Json,
        success ==> command_outcome(BrewCommand::ListCasks, success, stdout, stderr)
            == OutcomeView::Json,
        success ==> command_outcome(BrewCommand::Info { name }, success, stdout, stderr)
            == OutcomeView::Json,
        !success ==> command_outcome(BrewCommand::ListFormulae, success, stdout, stderr)
            == OutcomeView::Failed("Failed to list formulae: "@ + stderr),
        !success ==> command_outcome(BrewCommand::ListCasks, success, stdout, stderr)
            == OutcomeView::Failed("Failed to list casks: "@ + stderr),
        !success ==> command_outcome(BrewCommand::Info { name }, success, stdout, stderr)
            == OutcomeView::Failed("Failed to get package info: "@ + stderr),
{
}

/// What the commands that change packages report: on success a message
/// naming the package (or, for the commands on all packages, followed by
/// what `brew` printed); on failure a message naming the package, followed
/// by the error output (trimmed for upgrade and uninstall).
pub proof fn lemma_change_outcomes(name: String, is_cask: bool, stdout: Seq<char>, stderr: Seq<char>)
    ensures
        command_outcome(BrewCommand::Upgrade { name, is_cask }, true, stdout, stderr)
            == OutcomeView::Done("Updated "@ + name@ + " ("@ + kind_label(is_cask) + ")"@),
        command_outcome(BrewCommand::Upgrade { name, is_cask }, false, stdout, stderr)
            == OutcomeView::Failed("Failed to update "@ + name@ + ": "@ + trimmed(stderr)),
        command_outcome(BrewCommand::UpgradeAll, true, stdout, stderr) == OutcomeView::Done(
            "Updated all packages\n"@ + stdout + stderr,
        ),
        command_outcome(BrewCommand::UpgradeAll, false, stdout, stderr) == OutcomeView::Failed(
            "Failed to update all packages: "@ + stderr,
        ),
        command_outcome(BrewCommand::Uninstall { name }, true, stdout, stderr) == OutcomeView::Done(
            "Uninstalled "@ + name@,
        ),
        command_outcome(BrewCommand::Uninstall { name }, false, stdout, stderr)
            == OutcomeView::Failed("Failed to uninstall "@ + name@ + ": "@ + trimmed(stderr)),
        command_outcome(BrewCommand::Pin { name }, true, stdout, stderr) == OutcomeView::Done(
            "Pinned "@ + name@,
        ),
        command_outcome(BrewCommand::Pin { name }, false, stdout, stderr) == OutcomeView::Failed(
            "Failed to pin "@ + name@ + ": "@ + stderr,
        ),
        command_outcome(BrewCommand::Unpin { name }, true, stdout, stderr) == OutcomeView::Done(
            "Unpinned "@ + name@,
        ),
        command_outcome(BrewCommand::Unpin { name }, false, stdout, stderr) == OutcomeView::Failed(
            "Failed to unpin "@ + name@ + ": "@ + stderr,
        ),
        command_outcome(BrewCommand::Cleanup, true, stdout, stderr) == OutcomeView::Done(
            "Cleanup completed\n"@ + stdout + stderr,
        ),
        command_outcome(BrewCommand::Cleanup, false, stdout, stderr) == OutcomeView::Failed(
            "Failed to cleanup: "@ + stderr,
        ),
{
}

/// The arguments of each command: the package name, where there is one,
/// comes last, after the `brew` subcommand and its options.
pub proof fn lemma_command_arguments(name: String, is_cask: bool)
    ensures
        brew_args(BrewCommand::ListFormulae) == seq!["info"@, "--json=v2"@, "--installed"@],
        brew_args(BrewCommand::ListCasks) == seq!["info"@, "--json=v2"@, "--installed"@, "--cask"@],
        brew_args(BrewCommand::OutdatedFormulae) == seq!["outdated"@, "--formula"@, "--quiet"@],
        brew_args(BrewCommand::OutdatedCasks) == seq!["outdated"@, "--cask"@, "--quiet"@],
        brew_args(BrewCommand::Info { name }) == seq!["info"@, "--json=v2"@, name@],
        brew_args(BrewCommand::Dependencies { name }) == seq!["deps"@, "--installed"@, name@],
        brew_args(BrewCommand::Dependents { name }) == seq!["uses"@, "--installed"@, name@],
        brew_args(BrewCommand::IsPinned { name }) == seq!["list"@, "--pinned"@],
        brew_args(BrewCommand::Upgrade { name, is_cask }) == (if is_cask {
            seq!["upgrade"@, "--cask"@, name@]
        } else {
            seq!["upgrade"@, name@]
        }),
        brew_args(BrewCommand::UpgradeAll) == seq!["upgrade"@],
        brew_args(BrewCommand::Uninstall { name }) == seq!["uninstall"@, name@],
        brew_args(BrewCommand::Pin { name }) == seq!["pin"@, name@],
        brew_args(BrewCommand::Unpin { name }) == seq!["unpin"@, name@],
        brew_args(BrewCommand::Cleanup) == seq!["cleanup"@, "--prune=all"@],
{
}

fn strings(parts: &[&str]) -> (r: Vec<String>)
    ensures
        views(r@) == parts@.map_values(|p: &str| p@),
{
    let mut r: Vec<String> = Vec::new();
    let mut i: usize = 0;
    while i < parts.len()
        invariant
            i <= parts@.len(),
            views(r@) == parts@.map_values(|p: &str| p@).take(i as int),
        decreases parts@.len() - i,
    {
        let ghost before = r@;
        r.push(parts[i].to_owned());
        assert(views(r@) =~= views(before).push(parts@[i as int]@));
        assert(parts@.map_values(|p: &str| p@).take(i + 1) =~= parts@.map_values(|p: &str| p@).take(
            i as int,
        ).push(parts@[i as int]@));
        i += 1;
    }
    assert(parts@.map_values(|p: &str| p@).take(parts@.len() as int) =~= parts@.map_values(
        |p: &str| p@,
    ));
    r
}

fn message2(a: &str, b: &str) -> (r: String)
    ensures
        r@ == a@ + b@,
{
    let mut r = a.to_owned();
    r.append(b);
    r
}

fn message4(a: &str, b: &str, c: &str, d: &str) -> (r: String)
    ensures
        r@ == a@ + b@ + c@ + d@,
{
    let mut r = a.to_owned();
    r.append(b);
    r.append(c);
    r.append(d);
    r
}

impl BrewCommand {
    /// The arguments given to `brew`.
    pub fn args(&self) -> (r: Vec<String>)
        ensures
            views(r@) == brew_args(*self),
    {
        let r = match self {
            BrewCommand::ListFormulae => strings(&["info", "--json=v2", "--installed"]),
            BrewCommand::ListCasks => strings(&["info", "--json=v2", "--installed", "--cask"]),
            BrewCommand::OutdatedFormulae => strings(&["outdated", "--formula", "--quiet"]),
            BrewCommand::OutdatedCasks => strings(&["outdated", "--cask", "--quiet"]),
            BrewCommand::Info { name } => strings(&["info", "--json=v2", name.as_str()]),
            BrewCommand::Dependencies { name } => strings(&["deps", "--installed", name.as_str()]),
            BrewCommand::Dependents { name } => strings(&["uses", "--installed", name.as_str()]),
            BrewCommand::IsPinned { .. } => strings(&["list", "--pinned"]),
            BrewCommand::Upgrade { name, is_cask } => if *is_cask {
                strings(&["upgrade", "--cask", name.as_str()])
            } else {
                strings(&["upgrade", name.as_str()])
            },
            BrewCommand::UpgradeAll => strings(&["upgrade"]),
            BrewCommand::Uninstall { name } => strings(&["uninstall", name.as_str()]),
            BrewCommand::Pin { name } => strings(&["pin", name.as_str()]),
            BrewCommand::Unpin { name } => strings(&["unpin", name.as_str()]),
            BrewCommand::Cleanup => strings(&["cleanup", "--prune=all"]),
        };
        proof {
            assert(views(r@) =~= brew_args(*self));
        }
        r
    }

    /// Checks the package name of a command that changes packages; the
    /// other commands always pass.
    pub fn validate(&self) -> (r: Result<(), NameError>)
        ensures
            match checked_name(*self) {
                Some(name) => name_checked(r, name),
                None => r is Ok,
            },
    {
        match self {
            BrewCommand::Upgrade { name, .. } => validate_package_name(name.as_str()),
            BrewCommand::Uninstall { name } => validate_package_name(name.as_str()),
            BrewCommand::Pin { name } => validate_package_name(name.as_str()),
            BrewCommand::Unpin { name } => validate_package_name(name.as_str()),
            _ => Ok(()),
        }
    }

    /// What the output of the finished command means.
    pub fn outcome(&self, success: bool, stdout: &str, stderr: &str) -> (r: Outcome)
        ensures
            r@ == command_outcome(*self, success, stdout@, stderr@),
    {
        proof {
            reveal_strlit("");
        }
        match self {
            BrewCommand::ListFormulae => if success {
                Outcome::Json
            } else {
                Outcome::Failed(message2("Failed to list formulae: ", stderr))
            },
            BrewCommand::ListCasks => if success {
                Outcome::Json
            } else {
                Outcome::Failed(message2("Failed to list casks: ", stderr))
            },
            BrewCommand::Info { .. } => if success {
                Outcome::Json
            } else {
                Outcome::Failed(message2("Failed to get package info: ", stderr))
            },
            BrewCommand::OutdatedFormulae | BrewCommand::OutdatedCasks | BrewCommand::Dependencies {
                ..
            } | BrewCommand::Dependents { .. } => if success {
                Outcome::Lines(output_lines(stdout))
            } else {
                let empty: Vec<String> = Vec::new();
                assert(views(empty@) =~= Seq::<Seq<char>>::empty());
                Outcome::Lines(empty)
            },
            BrewCommand::IsPinned { name } => Outcome::Flag(
                success && has_line(stdout, name.as_str()),
            ),
            BrewCommand::Upgrade { name, is_cask } => if success {
                Outcome::Done(message4("Updated ", name.as_str(), " (", kind_str(*is_cask)).concat(")"))
            } else {
                let detail = trim(stderr);
                Outcome::Failed(message4("Failed to update ", name.as_str(), ": ", detail.as_str()))
            },
            BrewCommand::UpgradeAll => if success {
                Outcome::Done(message4("Updated all packages\n", stdout, stderr, ""))
            } else {
                Outcome::Failed(message2("Failed to update all packages: ", stderr))
            },
            BrewCommand::Uninstall { name } => if success {
                Outcome::Done(message2("Uninstalled ", name.as_str()))
            } else {
                let detail = trim(stderr);
                Outcome::Failed(message4("Failed to uninstall ", name.as_str(), ": ", detail.as_str()))
            },
            BrewCommand::Pin { name } => if success {
                Outcome::Done(message2("Pinned ", name.as_str()))
            } else {
                Outcome::Failed(message4("Failed to pin ", name.as_str(), ": ", stderr))
            },
            BrewCommand::Unpin { name } => if success {
                Outcome::Done(message2("Unpinned ", name.as_str()))
            } else {
                Outcome::Failed(message4("Failed to unpin ", name.as_str(), ": ", stderr))
            },
            BrewCommand::Cleanup => if success {
                Outcome::Done(message4("Cleanup completed\n", stdout, stderr, ""))
            } else {
                Outcome::Failed(message2("Failed to cleanup: ", stderr))
            },
        }
    }
}

// ---------------------------------------------------------------------------
// Loading the package lists
// ---------------------------------------------------------------------------

/// Whether one of `list` equals `s`.
fn contains_string(list: &Vec<String>, s: &String) -> (r: bool)
    ensures
        r == views(list@).contains(s@),
{
    let mut i: usize = 0;
    while i < list.len()
        invariant
            i <= list@.len(),
            forall|j: int| 0 <= j < i ==> list@[j]@ != s@,
        decreases list@.len() - i,
    {
        if list[i] == *s {
            assert(views(list@)[i as int] == s@);
            return true;
        }
        i += 1;
    }
    proof {
        if views(list@).contains(s@) {
            let k = choose|k: int| 0 <= k < views(list@).len() && views(list@)[k] == s@;
            assert(list@[k]@ == s@);
        }
    }
    false
}

/// The formulae, each marked outdated exactly when its name is listed in
/// `names`.
pub open spec fn formulae_marked(ps: Seq<Package>, names: Seq<Seq<char>>) -> Seq<Package> {
    Seq::new(ps.len(), |i: int| Package { outdated: names.contains(ps[i].name@), ..ps[i] })
}

/// The casks, each marked outdated exactly when its token is listed in
/// `names`.
pub open spec fn casks_marked(cs: Seq<Cask>, names: Seq<Seq<char>>) -> Seq<Cask> {
    Seq::new(cs.len(), |i: int| Cask { outdated: names.contains(cs[i].token@), ..cs[i] })
}

/// The names a listing gave, or none when it failed.
pub open spec fn names_or_none(r: Result<Vec<String>, String>) -> Seq<Seq<char>> {
    match r {
        Ok(names) => views(names@),
        Err(_) => Seq::empty(),
    }
}

/// Marking the outdated packages keeps every package, in order, with all
/// its other fields, and marks a package outdated exactly when its name
/// (a cask's token) is among the listed names.
pub proof fn lemma_marking_outdated(ps: Seq<Package>, cs: Seq<Cask>, names: Seq<Seq<char>>)
    ensures
        formulae_marked(ps, names).len() == ps.len(),
        forall|i: int|
            0 <= i < ps.len() ==> {
                let q = #[trigger] formulae_marked(ps, names)[i];
                &&& q.outdated == names.contains(ps[i].name@)
                &&& q.name == ps[i].name
                &&& q.full_name == ps[i].full_name
                &&& q.versions == ps[i].versions
                &&& q.desc == ps[i].desc
                &&& q.homepage == ps[i].homepage
                &&& q.pinned == ps[i].pinned
                &&& q.installed == ps[i].installed
                &&& q.dependencies == ps[i].dependencies
            },
        casks_marked(cs, names).len() == cs.len(),
        forall|i: int|
            0 <= i < cs.len() ==> {
                let d = #[trigger] casks_marked(cs, names)[i];
                &&& d.outdated == names.contains(cs[i].token@)
                &&& d.token == cs[i].token
                &&& d.name == cs[i].name
                &&& d.version == cs[i].version
                &&& d.desc == cs[i].desc
                &&& d.homepage == cs[i].homepage
            },
{
}

/// Marks each formula as outdated exactly when its name is in `outdated`.
pub fn mark_outdated_formulae(packages: Vec<Package>, outdated: &Vec<String>) -> (r: Vec<Package>)
    ensures
        r@ == formulae_marked(packages@, views(outdated@)),
{
    let mut packages = packages;
    let ghost before = packages@;
    let mut i: usize = 0;
    while i < packages.len()
        invariant
            i <= packages@.len(),
            packages@.len() == before.len(),
            forall|j: int| 0 <= j < i ==> packages@[j] == formulae_marked(before, views(outdated@))[j],
            forall|j: int| i <= j < packages@.len() ==> packages@[j] == before[j],
        decreases packages@.len() - i,
    {
        let listed = contains_string(outdated, &packages[i].name);
        packages[i].outdated = listed;
        i += 1;
    }
    assert(packages@ =~= formulae_marked(before, views(outdated@)));
    packages
}

/// Marks each cask as outdated exactly when its token is in `outdated`.
pub fn mark_outdated_casks(casks: Vec<Cask>, outdated: &Vec<String>) -> (r: Vec<Cask>)
    ensures
        r@ == casks_marked(casks@, views(outdated@)),
{
    let mut casks = casks;
    let ghost before = casks@;
    let mut i: usize = 0;
    while i < casks.len()
        invariant
            i <= casks@.len(),
            casks@.len() == before.len(),
            forall|j: int| 0 <= j < i ==> casks@[j] == casks_marked(before, views(outdated@))[j],
            forall|j: int| i <= j < casks@.len() ==> casks@[j] == before[j],
        decreases casks@.len() - i,
    {
        let listed = contains_string(outdated, &casks[i].token);
        casks[i].outdated = listed;
        i += 1;
    }
    assert(casks@ =~= casks_marked(before, views(outdated@)));
    casks
}

/// Puts together the outcome of loading the package lists: an error names
/// the list that failed (formulae first); the outdated listings count as
/// empty when they failed.
pub fn packages_loaded(
    formulae: Result<Vec<Package>, String>,
    casks: Result<Vec<Cask>, String>,
    outdated_formulae: Result<Vec<String>, String>,
    outdated_casks: Result<Vec<String>, String>,
) -> (r: OperationResult)
    ensures
        match formulae {
            Err(e) => r matches Err(m) && m@ == "Error loading formulae: "@ + e@,
            Ok(ps) => match casks {
                Err(e) => r matches Err(m) && m@ == "Error loading casks: "@ + e@,
                Ok(cs) => r matches Ok(OperationSuccess::PackagesLoaded { packages, casks })
                    && packages@ == formulae_marked(ps@, names_or_none(outdated_formulae))
                    && casks@ == casks_marked(cs@, names_or_none(outdated_casks)),
            },
        },
{
    let packages = match formulae {
        Ok(ps) => ps,
        Err(e) => {
            return Err(message2("Error loading formulae: ", e.as_str()));
        },
    };
    let outdated_f = match outdated_formulae {
        Ok(names) => names,
        Err(_) => Vec::new(),
    };
    assert(views(outdated_f@) == names_or_none(outdated_formulae)) by {
        if outdated_formulae is Err {
            assert(views(outdated_f@) =~= Seq::<Seq<char>>::empty());
        }
    }
    let packages = mark_outdated_formulae(packages, &outdated_f);
    let casks = match casks {
        Ok(cs) => cs,
        Err(e) => {
            return Err(message2("Error loading casks: ", e.as_str()));
        },
    };
    let outdated_c = match outdated_casks {
        Ok(names) => names,
        Err(_) => Vec::new(),
    };
    assert(views(outdated_c@) == names_or_none(outdated_casks)) by {
        if outdated_casks is Err {
            assert(views(outdated_c@) =~= Seq::<Seq<char>>::empty());
        }
    }
    let casks = mark_outdated_casks(casks, &outdated_c);
    Ok(OperationSuccess::PackagesLoaded { packages, casks })
}

// ---------------------------------------------------------------------------
// Package details
// ---------------------------------------------------------------------------

/// The fields read from one JSON entry of `brew info`; a field is absent
/// when the entry lacks it or holds another kind of value.
#[derive(Debug, Clone)]
pub struct InfoFields {
    /// The formula name, or the cask token.
    pub name: Option<String>,
    /// The stable formula version, or the cask version.
    pub version: Option<String>,
    pub description: Option<String>,
    pub homepage: Option<String>,
    pub outdated: Option<bool>,
}

/// Whether `serde_json::from_slice` reads `doc` as a JSON value.
pub uninterp spec fn json_parses(doc: Seq<u8>) -> bool;

/// The number of items of the member `key` of the top-level object of the
/// JSON document `doc`, when it is an array (serde_json's `Value::get` and
/// `Value::as_array`); absent when the document does not parse, has no such
/// member, or the member is not an array.
pub uninterp spec fn json_list_len(doc: Seq<u8>, key: Seq<char>) -> Option<usize>;

/// The member `key` of the top-level object of `doc` is an array with at
/// least one item.
pub open spec fn json_first_item_present(doc: Seq<u8>, key: Seq<char>) -> bool {
    json_list_len(doc, key) matches Some(n) && n > 0
}

/// The string that serde_json's `Value::pointer` finds at the JSON pointer
/// `pointer` in the document `doc`; absent when there is no value there or
/// it is not a string.
pub uninterp spec fn json_text_at(doc: Seq<u8>, pointer: Seq<char>) -> Option<Seq<char>>;

/// The boolean that serde_json's `Value::pointer` finds at the JSON pointer
/// `pointer` in the document `doc`; absent when there is no value there or
/// it is not a boolean.
pub uninterp spec fn json_flag_at(doc: Seq<u8>, pointer: Seq<char>) -> Option<bool>;

/// Parses `doc` with `serde_json::from_slice`. Trusted: the answer is
/// `json_parses(doc)`; which byte strings are JSON is not stated here.
#[verifier::external_body]
fn parses_as_json(doc: &[u8]) -> (r: bool)
    ensures
        r == json_parses(doc@),
{
    serde_json::from_slice::<serde_json::Value>(doc).is_ok()
}

/// Parses `doc` with `serde_json::from_slice` and looks up the member
/// `key` with `Value::get` and `Value::as_array`, giving the array's
/// length. Trusted: the answer is `json_list_len(doc, key)`.
#[verifier::external_body]
fn list_len(doc: &[u8], key: &str) -> (r: Option<usize>)
    ensures
        r == json_list_len(doc@, key@),
{
    match serde_json::from_slice::<serde_json::Value>(doc) {
        Ok(value) => match value.get(key).and_then(serde_json::Value::as_array) {
            Some(items) => Some(items.len()),
            None => None,
        },
        Err(_) => None,
    }
}

/// Whether the member `key` of the top-level object of `doc` is an array
/// with at least one item.
fn first_item_present(doc: &[u8], key: &str) -> (r: bool)
    ensures
        r == json_first_item_present(doc@, key@),
{
    match list_len(doc, key) {
        Some(n) => n > 0,
        None => false,
    }
}

/// Parses `doc` with `serde_json::from_slice` and reads the string at
/// `pointer` with `Value::pointer` and `Value::as_str`. Trusted: the answer
/// is `json_text_at(doc, pointer)`.
#[verifier::external_body]
fn text_at(doc: &[u8], pointer: &str) -> (r: Option<String>)
    ensures
        text_of(r) == json_text_at(doc@, pointer@),
{
    match serde_json::from_slice::<serde_json::Value>(doc) {
        Ok(value) => match value.pointer(pointer).and_then(serde_json::Value::as_str) {
            Some(text) => Some(text.to_owned()),
            None => None,
        },
        Err(_) => None,
    }
}

/// Parses `doc` with `serde_json::from_slice` and reads the boolean at
/// `pointer` with `Value::pointer` and `Value::as_bool`. Trusted: the
/// answer is `json_flag_at(doc, pointer)`.
#[verifier::external_body]
fn flag_at(doc: &[u8], pointer: &str) -> (r: Option<bool>)
    ensures
        r == json_flag_at(doc@, pointer@),
{
    match serde_json::from_slice::<serde_json::Value>(doc) {
        Ok(value) => value.pointer(pointer).and_then(serde_json::Value::as_bool),
        Err(_) => None,
    }
}

/// An optional text as characters.
pub open spec fn text_of(t: Option<String>) -> Option<Seq<char>> {
    match t {
        Some(s) => Some(s@),
        None => None,
    }
}

/// Where the JSON of `brew info --json=v2` describes the package.
#[derive(Debug, Clone)]
pub enum InfoSource {
    /// The first entry under `formulae`, with its fields.
    Formula(InfoFields),
    /// The first entry under `casks`, with its fields.
    Cask(InfoFields),
    /// Neither list has an entry.
    NotFound,
    /// The output is not JSON.
    Unreadable,
}

/// The fields of `f` are those of the first formula in `doc`: `name`,
/// `versions.stable`, `desc`, `homepage` and `outdated`.
pub open spec fn formula_fields_read(f: InfoFields, doc: Seq<u8>) -> bool {
    &&& text_of(f.name) == json_text_at(doc, "/formulae/0/name"@)
    &&& text_of(f.version) == json_text_at(doc, "/formulae/0/versions/stable"@)
    &&& text_of(f.description) == json_text_at(doc, "/formulae/0/desc"@)
    &&& text_of(f.homepage) == json_text_at(doc, "/formulae/0/homepage"@)
    &&& f.outdated == json_flag_at(doc, "/formulae/0/outdated"@)
}

/// The fields of `f` are those of the first cask in `doc`: `token`,
/// `version`, `desc`, `homepage` and `outdated`.
pub open spec fn cask_fields_read(f: InfoFields, doc: Seq<u8>) -> bool {
    &&& text_of(f.name) == json_text_at(doc, "/casks/0/token"@)
    &&& text_of(f.version) == json_text_at(doc, "/casks/0/version"@)
    &&& text_of(f.description) == json_text_at(doc, "/casks/0/desc"@)
    &&& text_of(f.homepage) == json_text_at(doc, "/casks/0/homepage"@)
    &&& f.outdated == json_flag_at(doc, "/casks/0/outdated"@)
}

/// The details of a formula come from the first entry of `formulae`:
/// `name`, `versions.stable`, `desc`, `homepage`, `outdated`; those of a cask
/// from the first entry of `casks`: `token`, `version`, `desc`, `homepage`,
/// `outdated`.
pub proof fn lemma_info_field_sources(f: InfoFields, doc: Seq<u8>)
    ensures
        formula_fields_read(f, doc) <==> {
            &&& text_of(f.name) == json_text_at(doc, "/formulae/0/name"@)
            &&& text_of(f.version) == json_text_at(doc, "/formulae/0/versions/stable"@)
            &&& text_of(f.description) == json_text_at(doc, "/formulae/0/desc"@)
            &&& text_of(f.homepage) == json_text_at(doc, "/formulae/0/homepage"@)
            &&& f.outdated == json_flag_at(doc, "/formulae/0/outdated"@)
        },
        cask_fields_read(f, doc) <==> {
            &&& text_of(f.name) == json_text_at(doc, "/casks/0/token"@)
            &&& text_of(f.version) == json_text_at(doc, "/casks/0/version"@)
            &&& text_of(f.description) == json_text_at(doc, "/casks/0/desc"@)
            &&& text_of(f.homepage) == json_text_at(doc, "/casks/0/homepage"@)
            &&& f.outdated == json_flag_at(doc, "/casks/0/outdated"@)
        },
{
}

/// Reads the JSON that `brew info --json=v2` wrote: a formula is looked
/// for first, then a cask.
pub fn info_source(doc: &[u8]) -> (r: InfoSource)
    ensures
        r is Unreadable <==> !json_parses(doc@),
        r is Formula <==> json_parses(doc@) && json_first_item_present(doc@, "formulae"@),
        r is Cask <==> json_parses(doc@) && !json_first_item_present(doc@, "formulae"@)
            && json_first_item_present(doc@, "casks"@),
        r is NotFound <==> json_parses(doc@) && !json_first_item_present(doc@, "formulae"@)
            && !json_first_item_present(doc@, "casks"@),
        r matches InfoSource::Formula(f) ==> formula_fields_read(f, doc@),
        r matches InfoSource::Cask(f) ==> cask_fields_read(f, doc@),
{
    if !parses_as_json(doc) {
        return InfoSource::Unreadable;
    }
    if first_item_present(doc, "formulae") {
        return InfoSource::Formula(
            InfoFields {
                name: text_at(doc, "/formulae/0/name"),
                version: text_at(doc, "/formulae/0/versions/stable"),
                description: text_at(doc, "/formulae/0/desc"),
                homepage: text_at(doc, "/formulae/0/homepage"),
                outdated: flag_at(doc, "/formulae/0/outdated"),
            },
        );
    }
    if first_item_present(doc, "casks") {
        return InfoSource::Cask(
            InfoFields {
                name: text_at(doc, "/casks/0/token"),
                version: text_at(doc, "/casks/0/version"),
                description: text_at(doc, "/casks/0/desc"),
                homepage: text_at(doc, "/casks/0/homepage"),
                outdated: flag_at(doc, "/casks/0/outdated"),
            },
        );
    }
    InfoSource::NotFound
}

/// The text of an optional field, or `default` when it is absent.
pub open spec fn or_default(field: Option<String>, default: Seq<char>) -> Seq<char> {
    match field {
        Some(s) => s@,
        None => default,
    }
}

fn text_or(field: Option<String>, default: &str) -> (r: String)
    ensures
        r@ == or_default(field, default@),
{
    match field {
        Some(s) => s,
        None => default.to_owned(),
    }
}

/// The details of a formula: the name asked for stands in for a missing
/// name, "unknown" for a missing version, and empty text for a missing
/// description or homepage.
pub fn formula_info(
    fields: InfoFields,
    query: &str,
    dependencies: Vec<String>,
    dependents: Vec<String>,
    pinned: bool,
) -> (r: PackageInfo)
    ensures
        r.name@ == or_default(fields.name, query@),
        r.version@ == or_default(fields.version, "unknown"@),
        r.description@ == or_default(fields.description, ""@),
        r.homepage@ == or_default(fields.homepage, ""@),
        r.dependencies == dependencies,
        r.dependents == dependents,
        r.pinned == pinned,
        r.outdated == fields.outdated.unwrap_or(false),
{
    let outdated = match fields.outdated {
        Some(b) => b,
        None => false,
    };
    PackageInfo {
        name: text_or(fields.name, query),
        version: text_or(fields.version, "unknown"),
        description: text_or(fields.description, ""),
        homepage: text_or(fields.homepage, ""),
        dependencies,
        dependents,
        pinned,
        outdated,
    }
}

/// The details of a cask: as for a formula, with no dependencies, no
/// dependents and never pinned.
pub fn cask_info(fields: InfoFields, query: &str) -> (r: PackageInfo)
    ensures
        r.name@ == or_default(fields.name, query@),
        r.version@ == or_default(fields.version, "unknown"@),
        r.description@ == or_default(fields.description, ""@),
        r.homepage@ == or_default(fields.homepage, ""@),
        r.dependencies@.len() == 0,
        r.dependents@.len() == 0,
        !r.pinned,
        r.outdated == fields.outdated.unwrap_or(false),
{
    let outdated = match fields.outdated {
        Some(b) => b,
        None => false,
    };
    PackageInfo {
        name: text_or(fields.name, query),
        version: text_or(fields.version, "unknown"),
        description: text_or(fields.description, ""),
        homepage: text_or(fields.homepage, ""),
        dependencies: Vec::new(),
        dependents: Vec::new(),
        pinned: false,
        outdated,
    }
}

/// The error when `brew info` knows neither a formula nor a cask by the name.
pub fn package_not_found(name: &str) -> (r: String)
    ensures
        r@ == "Package not found: "@ + name@,
{
    message2("Package not found: ", name)
}

} // verus!
