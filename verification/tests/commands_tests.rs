use brew_tui::actions::ConfirmAction;
use brew_tui::app::OperationSuccess;
use brew_tui::commands::{
    cask_info, formula_info, info_source, mark_outdated_casks, mark_outdated_formulae,
    package_not_found, packages_loaded, BrewCommand, InfoFields, InfoSource, Outcome,
};
use brew_tui::text::output_lines;
use brew_tui::types::{Cask, Package, Versions};

fn pkg(name: &str) -> Package {
    Package {
        name: name.to_string(),
        full_name: name.to_string(),
        versions: Versions::default(),
        desc: None,
        homepage: None,
        pinned: false,
        outdated: false,
        installed: vec![],
        dependencies: vec![],
    }
}

fn cask(token: &str) -> Cask {
    Cask {
        token: token.to_string(),
        name: vec![],
        version: "1".to_string(),
        desc: None,
        homepage: None,
        outdated: false,
    }
}

fn s(v: &[&str]) -> Vec<String> {
    v.iter().map(|x| x.to_string()).collect()
}

#[test]
fn command_arguments() {
    assert_eq!(BrewCommand::ListFormulae.args(), s(&["info", "--json=v2", "--installed"]));
    assert_eq!(BrewCommand::ListCasks.args(), s(&["info", "--json=v2", "--installed", "--cask"]));
    assert_eq!(BrewCommand::OutdatedFormulae.args(), s(&["outdated", "--formula", "--quiet"]));
    assert_eq!(BrewCommand::OutdatedCasks.args(), s(&["outdated", "--cask", "--quiet"]));
    assert_eq!(
        BrewCommand::Info { name: "git".into() }.args(),
        s(&["info", "--json=v2", "git"])
    );
    assert_eq!(
        BrewCommand::Dependencies { name: "git".into() }.args(),
        s(&["deps", "--installed", "git"])
    );
    assert_eq!(
        BrewCommand::Dependents { name: "git".into() }.args(),
        s(&["uses", "--installed", "git"])
    );
    assert_eq!(BrewCommand::IsPinned { name: "git".into() }.args(), s(&["list", "--pinned"]));
    assert_eq!(
        BrewCommand::Upgrade { name: "firefox".into(), is_cask: true }.args(),
        s(&["upgrade", "--cask", "firefox"])
    );
    assert_eq!(
        BrewCommand::Upgrade { name: "git".into(), is_cask: false }.args(),
        s(&["upgrade", "git"])
    );
    assert_eq!(BrewCommand::UpgradeAll.args(), s(&["upgrade"]));
    assert_eq!(BrewCommand::Uninstall { name: "git".into() }.args(), s(&["uninstall", "git"]));
    assert_eq!(BrewCommand::Pin { name: "git".into() }.args(), s(&["pin", "git"]));
    assert_eq!(BrewCommand::Unpin { name: "git".into() }.args(), s(&["unpin", "git"]));
    assert_eq!(BrewCommand::Cleanup.args(), s(&["cleanup", "--prune=all"]));
}

#[test]
fn changing_commands_check_the_name() {
    assert!(BrewCommand::Pin { name: "git".into() }.validate().is_ok());
    assert!(BrewCommand::Pin { name: "git; rm".into() }.validate().is_err());
    assert!(BrewCommand::Upgrade { name: "".into(), is_cask: false }.validate().is_err());
    assert!(BrewCommand::Uninstall { name: "a\nb".into() }.validate().is_err());
    assert!(BrewCommand::Unpin { name: "$x".into() }.validate().is_err());
    // listing commands pass whatever the name
    assert!(BrewCommand::Info { name: "a b".into() }.validate().is_ok());
}

fn refusal(c: BrewCommand) -> String {
    match c.validate() {
        Err(e) => e.message(),
        Ok(()) => panic!("expected a refusal"),
    }
}

#[test]
fn changing_commands_report_the_name_error() {
    assert_eq!(refusal(BrewCommand::Pin { name: "".into() }), "Package name cannot be empty");
    assert_eq!(
        refusal(BrewCommand::Pin { name: "a b".into() }),
        "Package name contains invalid characters: a b"
    );
    assert_eq!(
        refusal(BrewCommand::Unpin { name: "x\ny".into() }),
        "Invalid characters in package name"
    );
    assert_eq!(
        refusal(BrewCommand::Unpin { name: "a\0".into() }),
        "Invalid characters in package name"
    );
    assert_eq!(
        refusal(BrewCommand::Upgrade { name: "".into(), is_cask: true }),
        "Package name cannot be empty"
    );
    assert_eq!(
        refusal(BrewCommand::Uninstall { name: "x;y".into() }),
        "Package name contains invalid characters: x;y"
    );
}

fn done(o: Outcome) -> String {
    match o {
        Outcome::Done(m) => m,
        other => panic!("{other:?}"),
    }
}

fn failed(o: Outcome) -> String {
    match o {
        Outcome::Failed(m) => m,
        other => panic!("{other:?}"),
    }
}

#[test]
fn outcome_messages() {
    let up = BrewCommand::Upgrade { name: "git".into(), is_cask: false };
    assert_eq!(done(up.outcome(true, "", "")), "Updated git (formula)");
    assert_eq!(
        failed(up.outcome(false, "", "  Error: No such keg\n")),
        "Failed to update git: Error: No such keg"
    );
    let upc = BrewCommand::Upgrade { name: "firefox".into(), is_cask: true };
    assert_eq!(done(upc.outcome(true, "", "")), "Updated firefox (cask)");
    assert_eq!(
        done(BrewCommand::UpgradeAll.outcome(true, "a\n", "b")),
        "Updated all packages\na\nb"
    );
    assert_eq!(
        failed(BrewCommand::UpgradeAll.outcome(false, "", "oops")),
        "Failed to update all packages: oops"
    );
    let un = BrewCommand::Uninstall { name: "wget".into() };
    assert_eq!(done(un.outcome(true, "", "")), "Uninstalled wget");
    assert_eq!(failed(un.outcome(false, "", "\tbusy  ")), "Failed to uninstall wget: busy");
    let pin = BrewCommand::Pin { name: "git".into() };
    assert_eq!(done(pin.outcome(true, "", "")), "Pinned git");
    assert_eq!(failed(pin.outcome(false, "", " x ")), "Failed to pin git:  x ");
    let unpin = BrewCommand::Unpin { name: "git".into() };
    assert_eq!(done(unpin.outcome(true, "", "")), "Unpinned git");
    assert_eq!(failed(unpin.outcome(false, "", "y")), "Failed to unpin git: y");
    assert_eq!(
        done(BrewCommand::Cleanup.outcome(true, "Removing x\n", "")),
        "Cleanup completed\nRemoving x\n"
    );
    assert_eq!(failed(BrewCommand::Cleanup.outcome(false, "", "z")), "Failed to cleanup: z");
    assert_eq!(
        failed(BrewCommand::ListFormulae.outcome(false, "", "e")),
        "Failed to list formulae: e"
    );
    assert_eq!(failed(BrewCommand::ListCasks.outcome(false, "", "e")), "Failed to list casks: e");
    assert_eq!(
        failed(BrewCommand::Info { name: "q".into() }.outcome(false, "", "e")),
        "Failed to get package info: e"
    );
    assert!(matches!(BrewCommand::ListFormulae.outcome(true, "{}", ""), Outcome::Json));
}

#[test]
fn listing_outcomes() {
    match BrewCommand::OutdatedFormulae.outcome(true, "git\nwget\n", "") {
        Outcome::Lines(l) => assert_eq!(l, s(&["git", "wget"])),
        other => panic!("{other:?}"),
    }
    match (BrewCommand::Dependencies { name: "git".into() }).outcome(false, "x\n", "") {
        Outcome::Lines(l) => assert!(l.is_empty()),
        other => panic!("{other:?}"),
    }
    let pinned = BrewCommand::IsPinned { name: "git".into() };
    assert!(matches!(pinned.outcome(true, "curl\ngit\n", ""), Outcome::Flag(true)));
    assert!(matches!(pinned.outcome(true, "curl\ngitk\n", ""), Outcome::Flag(false)));
    assert!(matches!(pinned.outcome(false, "git\n", ""), Outcome::Flag(false)));
}

#[test]
fn lines_split_like_str_lines() {
    for text in ["", "a", "a\n", "a\nb", "a\r\nb\r\n", "\n\nx", "a\rb\n", "x\r", "\n"] {
        let expected: Vec<String> = text.lines().map(|l| l.to_string()).collect();
        assert_eq!(output_lines(text), expected, "{text:?}");
    }
}

#[test]
fn outdated_marks_follow_the_listing() {
    let mut p = pkg("wget");
    p.outdated = true;
    let marked = mark_outdated_formulae(vec![pkg("git"), p, pkg("curl")], &s(&["git", "zsh"]));
    let flags: Vec<bool> = marked.iter().map(|p| p.outdated).collect();
    assert_eq!(flags, vec![true, false, false]);
    let marked = mark_outdated_casks(vec![cask("firefox"), cask("iterm2")], &s(&["iterm2"]));
    let flags: Vec<bool> = marked.iter().map(|c| c.outdated).collect();
    assert_eq!(flags, vec![false, true]);
}

#[test]
fn loading_outcome() {
    match packages_loaded(
        Ok(vec![pkg("git")]),
        Ok(vec![cask("firefox")]),
        Err("x".into()),
        Ok(s(&["firefox"])),
    ) {
        Ok(OperationSuccess::PackagesLoaded { packages, casks }) => {
            assert!(!packages[0].outdated);
            assert!(casks[0].outdated);
        }
        other => panic!("{other:?}"),
    }
    match packages_loaded(Err("bad".into()), Err("worse".into()), Ok(vec![]), Ok(vec![])) {
        Err(m) => assert_eq!(m, "Error loading formulae: bad"),
        other => panic!("{other:?}"),
    }
    match packages_loaded(Ok(vec![]), Err("worse".into()), Ok(vec![]), Ok(vec![])) {
        Err(m) => assert_eq!(m, "Error loading casks: worse"),
        other => panic!("{other:?}"),
    }
}

#[test]
fn details_defaults() {
    let empty = InfoFields { name: None, version: None, description: None, homepage: None, outdated: None };
    let info = formula_info(empty.clone(), "git", s(&["pcre2"]), s(&["tig"]), true);
    assert_eq!(info.name, "git");
    assert_eq!(info.version, "unknown");
    assert_eq!(info.description, "");
    assert_eq!(info.homepage, "");
    assert_eq!(info.dependencies, s(&["pcre2"]));
    assert_eq!(info.dependents, s(&["tig"]));
    assert!(info.pinned && !info.outdated);
    let full = InfoFields {
        name: Some("firefox".into()),
        version: Some("128.0".into()),
        description: Some("Web browser".into()),
        homepage: Some("https://www.mozilla.org/firefox/".into()),
        outdated: Some(true),
    };
    let info = cask_info(full, "ff");
    assert_eq!(info.name, "firefox");
    assert_eq!(info.version, "128.0");
    assert!(info.dependencies.is_empty() && info.dependents.is_empty() && !info.pinned);
    assert!(info.outdated);
    assert_eq!(package_not_found("nope"), "Package not found: nope");
}

#[test]
fn confirmation_questions() {
    let a = ConfirmAction::Update { name: "git".into(), is_cask: false };
    assert_eq!(a.message(), "Update git (formula)? ");
    let a = ConfirmAction::Remove { name: "firefox".into(), is_cask: true };
    assert_eq!(a.message(), "Remove firefox (cask)? This cannot be undone.");
    assert_eq!(ConfirmAction::UpdateAll.message(), "Update all outdated packages?");
    assert_eq!(ConfirmAction::Cleanup.message(), "Remove all old versions and clear cache?");
    assert_eq!(a.progress_message(), "Removing firefox...");
}

#[test]
fn info_reads_the_first_formula() {
    let doc = br#"{"formulae":[{"name":"wget","versions":{"stable":"1.24.5","head":"HEAD"},
        "desc":"Internet file retriever","homepage":"https://www.gnu.org/software/wget/",
        "outdated":true},{"name":"other"}],"casks":[{"token":"firefox"}]}"#;
    match info_source(doc) {
        InfoSource::Formula(f) => {
            assert_eq!(f.name.as_deref(), Some("wget"));
            assert_eq!(f.version.as_deref(), Some("1.24.5"));
            assert_eq!(f.description.as_deref(), Some("Internet file retriever"));
            assert_eq!(f.homepage.as_deref(), Some("https://www.gnu.org/software/wget/"));
            assert_eq!(f.outdated, Some(true));
        }
        other => panic!("expected a formula, got {:?}", other),
    }
}

#[test]
fn info_reads_a_cask_when_no_formula() {
    let doc = br#"{"formulae":[],"casks":[{"token":"firefox","version":"128.0",
        "desc":"Web browser","homepage":"https://www.mozilla.org/firefox/","outdated":false}]}"#;
    match info_source(doc) {
        InfoSource::Cask(f) => {
            assert_eq!(f.name.as_deref(), Some("firefox"));
            assert_eq!(f.version.as_deref(), Some("128.0"));
            assert_eq!(f.description.as_deref(), Some("Web browser"));
            assert_eq!(f.homepage.as_deref(), Some("https://www.mozilla.org/firefox/"));
            assert_eq!(f.outdated, Some(false));
        }
        other => panic!("expected a cask, got {:?}", other),
    }
}

#[test]
fn info_missing_or_mistyped_fields_are_absent() {
    let doc = br#"{"formulae":[{"name":7,"desc":null,"outdated":"yes"}]}"#;
    match info_source(doc) {
        InfoSource::Formula(f) => {
            assert_eq!(f.name, None);
            assert_eq!(f.version, None);
            assert_eq!(f.description, None);
            assert_eq!(f.homepage, None);
            assert_eq!(f.outdated, None);
            let info = formula_info(f, "jq", vec![], vec![], false);
            assert_eq!(info.name, "jq");
            assert_eq!(info.version, "unknown");
            assert!(!info.outdated);
        }
        other => panic!("expected a formula, got {:?}", other),
    }
}

#[test]
fn info_not_found_and_unreadable() {
    assert!(matches!(info_source(br#"{"formulae":[],"casks":[]}"#), InfoSource::NotFound));
    assert!(matches!(info_source(br#"{"formulae":{"0":{"name":"x"}}}"#), InfoSource::NotFound));
    assert!(matches!(info_source(b"not json"), InfoSource::Unreadable));
    assert!(matches!(info_source(b""), InfoSource::Unreadable));
}
