use brew_tui::actions::Action;
use brew_tui::app::{App, OperationEvent, OperationSuccess};
use brew_tui::text::{highlight_match, Highlight};
use brew_tui::types::{
    Cask, DependencyTreeData, InstalledVersion, Package, PackageDisplay, PackageInfo, Versions,
};
use brew_tui::view::{
    status_tone, ContentLayout, DetailsView, InfoStatus, Overlay, StatusLine, StatusTone, TreeView,
};

fn pkg(name: &str, desc: Option<&str>, outdated: bool, pinned: bool) -> Package {
    Package {
        name: name.to_string(),
        full_name: name.to_string(),
        versions: Versions { stable: Some("1.0".to_string()), head: None, bottle: false },
        desc: desc.map(|d| d.to_string()),
        homepage: None,
        pinned,
        outdated,
        installed: vec![],
        dependencies: vec![],
    }
}

fn loaded(packages: Vec<Package>, casks: Vec<Cask>) -> App {
    let mut app = App::new();
    app.start_load_packages();
    app.poll_operation(OperationEvent::Finished(Ok(OperationSuccess::PackagesLoaded {
        packages,
        casks,
    })));
    app
}

#[test]
fn display_of_formulae() {
    let mut p = pkg("git", Some("Revision control"), true, false);
    assert_eq!(p.display_name(), "git");
    assert_eq!(p.display_version(), "1.0");
    assert_eq!(p.display_description(), "Revision control");
    assert_eq!(p.status_display(), "Outdated");
    assert!(p.is_outdated() && !p.is_pinned());
    p.installed.push(InstalledVersion {
        version: "2.1".to_string(),
        installed_on_request: true,
        installed_as_dependency: false,
    });
    assert_eq!(p.display_version(), "2.1");
    p.pinned = true;
    assert_eq!(p.status_display(), "Pinned");
    let mut q = pkg("x", None, false, false);
    q.versions.stable = None;
    assert_eq!(q.display_version(), "unknown");
    assert_eq!(q.display_description(), "");
    assert_eq!(q.status_display(), "Current");
}

#[test]
fn display_of_casks() {
    let mut c = Cask {
        token: "firefox".to_string(),
        name: vec![],
        version: "128.0".to_string(),
        desc: None,
        homepage: None,
        outdated: false,
    };
    assert_eq!(c.display_name(), "firefox");
    c.name.push("Mozilla Firefox".to_string());
    assert_eq!(c.display_name(), "Mozilla Firefox");
    assert_eq!(c.display_version(), "128.0");
    assert_eq!(c.status_display(), "Current");
    assert!(!c.is_pinned());
    c.outdated = true;
    assert_eq!(c.status_display(), "Outdated");
}

#[test]
fn highlight_cuts_at_the_first_match() {
    assert!(matches!(highlight_match("Git", ""), Highlight::Plain));
    assert!(matches!(highlight_match("Git", "zz"), Highlight::Plain));
    match highlight_match("MyGitTool", "git") {
        Highlight::Parts { before, matched, after } => {
            assert_eq!((before.as_str(), matched.as_str(), after.as_str()), ("My", "Git", "Tool"));
        }
        _ => panic!("expected parts"),
    }
    match highlight_match("git", "git") {
        Highlight::Parts { before, matched, after } => {
            assert_eq!((before.as_str(), matched.as_str(), after.as_str()), ("", "git", ""));
        }
        _ => panic!("expected parts"),
    }
}

#[test]
fn highlight_shows_plain_text_when_lowercasing_shifts_the_match() {
    // "İ" lowercases to two characters, so positions in the lowercased text
    // no longer line up with the given text: the text is shown whole.
    assert!(matches!(highlight_match("İx", "x"), Highlight::Plain));
    assert!(matches!(highlight_match("İa", "a"), Highlight::Plain));
}

#[test]
fn rows_of_the_formulae_list() {
    let long = "a very long description that goes on and on beyond fifty bytes";
    let mut app = loaded(
        vec![
            pkg("git", Some(long), false, false),
            pkg("wget", None, true, false),
            pkg("curl", None, false, true),
        ],
        vec![],
    );
    let rows = app.list_rows();
    assert_eq!(rows.len(), 3);
    assert_eq!(rows[0].name, "git");
    assert_eq!(rows[0].status_text, "✓ Current");
    assert_eq!(rows[0].description, format!("{}…", &long[..49]));
    assert!(!rows[0].alternate && rows[1].alternate && !rows[2].alternate);
    assert_eq!(rows[1].status, "Outdated");
    assert_eq!(rows[1].status_text, "↑ Outdated");
    assert_eq!(rows[2].status_text, "📌 Pinned");
    assert_eq!(rows[2].version, "1.0");
    assert!(matches!(rows[0].highlight, Highlight::Plain));
    app.handle_action(Action::SearchInput('G'));
    let rows = app.list_rows();
    assert_eq!(rows.len(), 2);
    match &rows[0].highlight {
        Highlight::Parts { matched, .. } => assert_eq!(matched, "g"),
        _ => panic!("expected a highlight"),
    }
}

#[test]
fn rows_of_the_casks_list() {
    let mut app = loaded(
        vec![],
        vec![Cask {
            token: "firefox".to_string(),
            name: vec!["Mozilla Firefox".to_string()],
            version: "128.0".to_string(),
            desc: Some("Web browser".to_string()),
            homepage: None,
            outdated: true,
        }],
    );
    app.handle_action(Action::NextTab);
    let rows = app.list_rows();
    assert_eq!(rows.len(), 1);
    assert_eq!(rows[0].name, "Mozilla Firefox");
    assert_eq!(rows[0].status_text, "↑ Outdated");
    assert_eq!(rows[0].description, "Web browser");
    assert_eq!(app.selected_tab_index(), 1);
}

#[test]
fn status_bar() {
    let mut app = loaded(
        vec![pkg("git", None, false, false), pkg("wget", None, true, false)],
        vec![],
    );
    assert_eq!(app.status_counts(), (2, 1));
    assert!(matches!(app.status_line(), StatusLine::Empty));
    app.handle_action(Action::Refresh);
    match app.status_line() {
        StatusLine::Loading { spinner, message } => {
            assert_eq!(spinner, '⠋');
            assert_eq!(message, "Loading packages...");
        }
        _ => panic!("expected loading"),
    }
    app.poll_operation(OperationEvent::Finished(Err("bad".to_string())));
    match app.status_line() {
        StatusLine::Message { text, is_error } => {
            assert_eq!(text, "Error: bad");
            assert!(is_error);
        }
        _ => panic!("expected message"),
    }
    app.status_message = Some("Pinned git".to_string());
    assert!(matches!(app.status_line(), StatusLine::Message { is_error: false, .. }));
    app.handle_action(Action::EnterSearch);
    app.handle_action(Action::SearchInput('w'));
    match app.status_line() {
        StatusLine::Search(f) => assert_eq!(f, "w"),
        _ => panic!("expected search"),
    }
    app.loading = true;
    app.status_message = None;
    app.handle_action(Action::ExitSearch);
    match app.status_line() {
        StatusLine::Loading { message, .. } => assert_eq!(message, "Working..."),
        _ => panic!("expected loading"),
    }
}

#[test]
fn layout_and_overlays() {
    let mut app = loaded(vec![pkg("git", None, false, false)], vec![]);
    assert_eq!(app.content_layout(), ContentLayout::List);
    assert!(matches!(app.overlay(), Overlay::Nothing));
    app.handle_action(Action::ToggleHelp);
    assert!(matches!(app.overlay(), Overlay::Help));
    app.handle_action(Action::UpdateSelected);
    match app.overlay() {
        Overlay::Confirm(m) => assert_eq!(m, "Update git (formula)? "),
        _ => panic!("expected confirm"),
    }
    app.show_dependency_tree = true;
    assert_eq!(app.content_layout(), ContentLayout::ListWithTree);
    app.show_details = true;
    assert_eq!(app.content_layout(), ContentLayout::ListWithDetails);
}

#[test]
fn details_panel() {
    let mut app = loaded(vec![], vec![]);
    match app.details_view() {
        DetailsView::Placeholder(m) => assert_eq!(m, "No formulae installed"),
        _ => panic!("expected placeholder"),
    }
    app.handle_action(Action::NextTab);
    match app.details_view() {
        DetailsView::Placeholder(m) => assert_eq!(m, "No casks installed"),
        _ => panic!("expected placeholder"),
    }
    let mut app = loaded(vec![pkg("git", None, false, false)], vec![]);
    match app.details_view() {
        DetailsView::Placeholder(m) => assert_eq!(m, "Press Enter or 'd' to view details"),
        _ => panic!("expected placeholder"),
    }
    app.selected_package_info = Some(PackageInfo {
        name: "git".to_string(),
        version: "2.45".to_string(),
        description: "Revision control".to_string(),
        homepage: String::new(),
        dependencies: vec!["gettext".to_string(), "pcre2".to_string()],
        dependents: vec![],
        pinned: false,
        outdated: true,
    });
    match app.details_view() {
        DetailsView::Info(d) => {
            assert_eq!(d.version, "v2.45");
            assert_eq!(d.status, InfoStatus::Outdated);
            assert!(d.homepage.is_none());
            assert_eq!(d.dependencies_title, "Dependencies (2)");
            assert_eq!(d.dependencies_text, "gettext, pcre2");
            assert_eq!(d.dependents_title, "Used by (0)");
            assert_eq!(d.dependents_text, "Nothing");
        }
        _ => panic!("expected details"),
    }
}

#[test]
fn dependency_tree_panel() {
    let mut app = loaded(vec![pkg("git", None, false, false)], vec![]);
    assert!(matches!(app.tree_view(), TreeView::NoSelection));
    app.handle_action(Action::ToggleDependencyTree);
    assert!(matches!(app.tree_view(), TreeView::Loading('⠋')));
    app.poll_operation(OperationEvent::Finished(Ok(OperationSuccess::DependencyTree(
        DependencyTreeData {
            package_name: "git".to_string(),
            dependencies: vec!["gettext".to_string(), "pcre2".to_string()],
            dependents: vec![],
        },
    ))));
    match app.tree_view() {
        TreeView::Tree(t) => {
            assert_eq!(t.title, " Dependencies of \"git\" ");
            assert_eq!(t.lines.len(), 2);
            assert_eq!(t.lines[0].branch, "  ├─ ");
            assert_eq!(t.lines[1].branch, "  └─ ");
            assert_eq!(t.lines[1].name, "pcre2");
            assert_eq!(t.dependencies_count, "2 dependencies");
            assert_eq!(t.dependents_count, "0 dependents");
        }
        _ => panic!("expected tree"),
    }
    app.handle_action(Action::NextTab);
    match app.tree_view() {
        TreeView::Tree(t) => {
            assert_eq!(t.title, " Dependents of \"git\" ");
            assert!(t.lines.is_empty());
            assert_eq!(t.empty_message, "  No packages depend on this");
        }
        _ => panic!("expected tree"),
    }
}

#[test]
fn status_labels_pick_their_colour() {
    assert_eq!(status_tone("Current"), StatusTone::Current);
    assert_eq!(status_tone("Outdated"), StatusTone::Outdated);
    assert_eq!(status_tone("Pinned"), StatusTone::Pinned);
    assert_eq!(status_tone("pinned"), StatusTone::Plain);
    assert_eq!(status_tone("Current "), StatusTone::Plain);
    assert_eq!(status_tone(""), StatusTone::Plain);
    let p = pkg("wget", None, true, true);
    assert_eq!(status_tone(p.status_display()), StatusTone::Pinned);
}
