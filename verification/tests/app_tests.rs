use brew_tui::actions::{Action, ConfirmAction};
use brew_tui::app::{
    App, DependencyTreeMode, InputMode, OperationEvent, OperationSuccess, Tab, Task,
};
use brew_tui::types::{Cask, DependencyTreeData, Package, PackageInfo, Versions};

fn pkg(name: &str, desc: Option<&str>, outdated: bool, pinned: bool) -> Package {
    Package {
        name: name.to_string(),
        full_name: name.to_string(),
        versions: Versions { stable: Some("1.0".to_string()), head: None, bottle: true },
        desc: desc.map(|d| d.to_string()),
        homepage: None,
        pinned,
        outdated,
        installed: vec![],
        dependencies: vec![],
    }
}

fn cask(token: &str, names: &[&str], outdated: bool) -> Cask {
    Cask {
        token: token.to_string(),
        name: names.iter().map(|n| n.to_string()).collect(),
        version: "2.0".to_string(),
        desc: None,
        homepage: None,
        outdated,
    }
}

fn loaded(packages: Vec<Package>, casks: Vec<Cask>) -> App {
    let mut app = App::new();
    let t = app.start_load_packages();
    assert!(matches!(t, Some(Task::LoadPackages)));
    let t = app.poll_operation(OperationEvent::Finished(Ok(OperationSuccess::PackagesLoaded {
        packages,
        casks,
    })));
    assert!(t.is_none());
    app
}

fn sample() -> App {
    loaded(
        vec![
            pkg("git", Some("Distributed revision control"), false, false),
            pkg("wget", Some("Internet file retriever"), true, false),
            pkg("curl", None, false, true),
        ],
        vec![cask("firefox", &["Mozilla Firefox"], true), cask("iterm2", &[], false)],
    )
}

fn names(app: &mut App) -> Vec<String> {
    app.filtered_packages().iter().map(|p| p.name.clone()).collect()
}

#[test]
fn new_app_starts_idle_with_first_rows_selected() {
    let app = App::new();
    assert_eq!(app.active_tab, Tab::Formulae);
    assert_eq!(app.formulae_selected, Some(0));
    assert_eq!(app.casks_selected, Some(0));
    assert_eq!(app.input_mode, InputMode::Normal);
    assert_eq!(app.dependency_tree_mode, DependencyTreeMode::Dependencies);
    assert!(!app.loading && !app.should_quit && app.filter.is_empty());
}

#[test]
fn loading_marks_busy_and_finishing_clears_status() {
    let mut app = App::new();
    assert!(app.start_load_packages().is_some());
    assert!(app.loading);
    assert_eq!(app.status_message.as_deref(), Some("Loading packages..."));
    assert!(app.start_load_packages().is_none());
    app.poll_operation(OperationEvent::Finished(Ok(OperationSuccess::PackagesLoaded {
        packages: vec![],
        casks: vec![],
    })));
    assert!(!app.loading);
    assert_eq!(app.status_message, None);
    // the empty list leaves nothing selected
    assert_eq!(app.formulae_selected, None);
}

#[test]
fn still_running_changes_nothing_and_lost_reports_failure() {
    let mut app = App::new();
    app.start_load_packages();
    assert!(app.poll_operation(OperationEvent::Running).is_none());
    assert!(app.loading);
    app.poll_operation(OperationEvent::Lost);
    assert!(!app.loading);
    assert_eq!(app.status_message.as_deref(), Some("Operation failed unexpectedly"));
}

#[test]
fn navigation_wraps_and_pages() {
    let mut app = sample();
    assert_eq!(app.formulae_selected, Some(0));
    app.handle_action(Action::PreviousItem);
    assert_eq!(app.formulae_selected, Some(2));
    app.handle_action(Action::NextItem);
    assert_eq!(app.formulae_selected, Some(0));
    app.handle_action(Action::NextItem);
    app.handle_action(Action::PreviousItem);
    assert_eq!(app.formulae_selected, Some(0));
    app.handle_action(Action::LastItem);
    assert_eq!(app.formulae_selected, Some(2));
    app.handle_action(Action::FirstItem);
    assert_eq!(app.formulae_selected, Some(0));
    app.handle_action(Action::PageDown);
    assert_eq!(app.formulae_selected, Some(2));
    app.handle_action(Action::PageUp);
    assert_eq!(app.formulae_selected, Some(0));
}

#[test]
fn page_moves_by_ten_on_long_lists() {
    let packages = (0..25).map(|i| pkg(&format!("p{i}"), None, false, false)).collect();
    let mut app = loaded(packages, vec![]);
    app.handle_action(Action::PageDown);
    assert_eq!(app.formulae_selected, Some(10));
    app.handle_action(Action::PageDown);
    assert_eq!(app.formulae_selected, Some(20));
    app.handle_action(Action::PageDown);
    assert_eq!(app.formulae_selected, Some(24));
    app.handle_action(Action::PageUp);
    assert_eq!(app.formulae_selected, Some(14));
}

#[test]
fn tabs_switch_and_keep_their_own_selection() {
    let mut app = sample();
    app.handle_action(Action::NextItem);
    app.handle_action(Action::NextTab);
    assert_eq!(app.active_tab, Tab::Casks);
    app.handle_action(Action::NextItem);
    assert_eq!(app.casks_selected, Some(1));
    assert_eq!(app.formulae_selected, Some(1));
    app.handle_action(Action::PreviousTab);
    assert_eq!(app.active_tab, Tab::Formulae);
    app.handle_action(Action::SelectTab(1));
    assert_eq!(app.active_tab, Tab::Casks);
    app.handle_action(Action::SelectTab(0));
    assert_eq!(app.active_tab, Tab::Formulae);
    app.handle_action(Action::SelectTab(7));
    assert_eq!(app.active_tab, Tab::Casks);
}

#[test]
fn search_matches_names_and_descriptions_ignoring_case() {
    let mut app = sample();
    app.handle_action(Action::EnterSearch);
    assert_eq!(app.input_mode, InputMode::Search);
    for c in "GIT".chars() {
        app.handle_action(Action::SearchInput(c));
    }
    assert_eq!(app.filter, "GIT");
    assert_eq!(names(&mut app), vec!["git"]);
    for _ in 0..3 {
        app.handle_action(Action::SearchBackspace);
    }
    for c in "retriever".chars() {
        app.handle_action(Action::SearchInput(c));
    }
    assert_eq!(names(&mut app), vec!["wget"]);
    app.handle_action(Action::ExitSearch);
    assert_eq!(app.input_mode, InputMode::Normal);
}

#[test]
fn search_on_casks_looks_at_token_and_names() {
    let mut app = sample();
    app.handle_action(Action::NextTab);
    for c in "mozilla".chars() {
        app.handle_action(Action::SearchInput(c));
    }
    let found: Vec<String> = app.filtered_casks().iter().map(|c| c.token.clone()).collect();
    assert_eq!(found, vec!["firefox"]);
    assert_eq!(app.selected_package_name().as_deref(), Some("firefox"));
}

#[test]
fn no_match_empties_the_list_and_clears_the_selection() {
    let mut app = sample();
    for c in "zzzznonexistent".chars() {
        app.handle_action(Action::SearchInput(c));
    }
    assert!(names(&mut app).is_empty());
    assert_eq!(app.formulae_selected, None);
    assert_eq!(app.selected_package_name(), None);
    app.handle_action(Action::NextItem);
    assert_eq!(app.formulae_selected, None);
}

#[test]
fn typing_then_erasing_restores_the_search() {
    let mut app = sample();
    app.handle_action(Action::SearchInput('g'));
    app.handle_action(Action::SearchInput('é'));
    app.handle_action(Action::SearchBackspace);
    assert_eq!(app.filter, "g");
    app.handle_action(Action::SearchBackspace);
    app.handle_action(Action::SearchBackspace);
    assert_eq!(app.filter, "");
}

#[test]
fn outdated_filter_lists_outdated_only_and_toggles_back() {
    let mut app = sample();
    app.handle_action(Action::LastItem);
    app.handle_action(Action::ToggleOutdatedFilter);
    assert!(app.show_outdated_only);
    assert_eq!(names(&mut app), vec!["wget"]);
    assert_eq!(app.formulae_selected, Some(0));
    app.handle_action(Action::ToggleOutdatedFilter);
    assert_eq!(names(&mut app), vec!["git", "wget", "curl"]);
}

#[test]
fn cached_results_equal_fresh_ones() {
    let mut app = sample();
    let first = names(&mut app);
    let second = names(&mut app);
    assert_eq!(first, second);
    let casks1: Vec<String> = app.filtered_casks().iter().map(|c| c.token.clone()).collect();
    let casks2: Vec<String> = app.filtered_casks().iter().map(|c| c.token.clone()).collect();
    assert_eq!(casks1, vec!["firefox", "iterm2"]);
    assert_eq!(casks1, casks2);
}

#[test]
fn update_asks_for_confirmation_and_confirm_runs_it() {
    let mut app = sample();
    app.show_help = true;
    app.handle_action(Action::NextItem);
    assert!(app.handle_action(Action::UpdateSelected).is_none());
    assert_eq!(app.input_mode, InputMode::Confirm);
    assert!(!app.show_help);
    assert!(matches!(
        &app.pending_action,
        Some(ConfirmAction::Update { name, is_cask: false }) if name == "wget"
    ));
    let task = app.handle_action(Action::ConfirmAction);
    match task {
        Some(Task::Run(ConfirmAction::Update { name, is_cask })) => {
            assert_eq!(name, "wget");
            assert!(!is_cask);
        }
        other => panic!("{other:?}"),
    }
    assert!(app.loading);
    assert_eq!(app.status_message.as_deref(), Some("Updating wget (formula)..."));
    assert!(app.pending_action.is_none());
    assert_eq!(app.input_mode, InputMode::Normal);
}

#[test]
fn cancel_closes_the_confirmation() {
    let mut app = sample();
    app.handle_action(Action::NextTab);
    app.handle_action(Action::RemoveSelected);
    assert!(matches!(
        &app.pending_action,
        Some(ConfirmAction::Remove { name, is_cask: true }) if name == "firefox"
    ));
    assert!(app.handle_action(Action::CancelAction).is_none());
    assert!(app.pending_action.is_none());
    assert_eq!(app.input_mode, InputMode::Normal);
}

#[test]
fn update_all_and_cleanup_need_no_selection() {
    let mut app = loaded(vec![], vec![]);
    app.handle_action(Action::UpdateAll);
    assert!(matches!(app.pending_action, Some(ConfirmAction::UpdateAll)));
    match app.handle_action(Action::ConfirmAction) {
        Some(Task::Run(ConfirmAction::UpdateAll)) => {}
        other => panic!("{other:?}"),
    }
    assert_eq!(app.status_message.as_deref(), Some("Updating all packages..."));
    app.poll_operation(OperationEvent::Finished(Err("boom".to_string())));
    app.handle_action(Action::Cleanup);
    match app.handle_action(Action::ConfirmAction) {
        Some(Task::Run(ConfirmAction::Cleanup)) => {}
        other => panic!("{other:?}"),
    }
    assert_eq!(app.status_message.as_deref(), Some("Running cleanup..."));
}

#[test]
fn nothing_starts_while_an_operation_runs() {
    let mut app = sample();
    app.start_load_packages();
    assert!(app.handle_action(Action::Refresh).is_none());
    assert!(app.handle_action(Action::TogglePin).is_none());
    assert!(app.handle_action(Action::ToggleDetails).is_none());
    app.handle_action(Action::UpdateAll);
    assert!(app.handle_action(Action::ConfirmAction).is_none());
    assert_eq!(app.status_message.as_deref(), Some("Loading packages..."));
}

#[test]
fn pin_round_trip() {
    let mut app = sample();
    match app.handle_action(Action::TogglePin) {
        Some(Task::Pin { name }) => assert_eq!(name, "git"),
        other => panic!("{other:?}"),
    }
    assert_eq!(app.status_message.as_deref(), Some("Pinning git..."));
    app.poll_operation(OperationEvent::Finished(Ok(OperationSuccess::PinToggled {
        name: "git".to_string(),
        pinned: true,
    })));
    assert!(app.packages[0].pinned);
    assert!(!app.loading);
    assert_eq!(app.status_message.as_deref(), Some("Pinned git"));
    match app.handle_action(Action::TogglePin) {
        Some(Task::Unpin { name }) => assert_eq!(name, "git"),
        other => panic!("{other:?}"),
    }
    assert_eq!(app.status_message.as_deref(), Some("Unpinning git..."));
    app.poll_operation(OperationEvent::Finished(Ok(OperationSuccess::PinToggled {
        name: "git".to_string(),
        pinned: false,
    })));
    assert!(!app.packages[0].pinned);
    assert_eq!(app.status_message.as_deref(), Some("Unpinned git"));
}

#[test]
fn pinning_is_only_for_formulae() {
    let mut app = sample();
    app.handle_action(Action::NextTab);
    assert!(app.handle_action(Action::TogglePin).is_none());
    assert!(!app.loading);
}

#[test]
fn package_operation_message_triggers_a_reload() {
    let mut app = sample();
    app.start_load_packages();
    let t = app.poll_operation(OperationEvent::Finished(Ok(OperationSuccess::Message(
        "Updated wget (formula)".to_string(),
    ))));
    assert!(matches!(t, Some(Task::LoadPackages)));
    assert!(app.loading);
    assert_eq!(app.status_message.as_deref(), Some("Loading packages..."));
}

#[test]
fn errors_are_reported() {
    let mut app = sample();
    app.start_load_packages();
    app.poll_operation(OperationEvent::Finished(Err("no network".to_string())));
    assert_eq!(app.status_message.as_deref(), Some("Error: no network"));
    assert!(!app.loading);
}

#[test]
fn details_load_and_close() {
    let mut app = sample();
    match app.handle_action(Action::ToggleDetails) {
        Some(Task::LoadDetails { name }) => assert_eq!(name, "git"),
        other => panic!("{other:?}"),
    }
    assert!(app.show_details);
    assert_eq!(app.status_message.as_deref(), Some("Loading details for git..."));
    let info = PackageInfo {
        name: "git".to_string(),
        version: "2.45".to_string(),
        description: "Distributed revision control".to_string(),
        homepage: "https://git-scm.com".to_string(),
        dependencies: vec!["gettext".to_string()],
        dependents: vec![],
        pinned: false,
        outdated: false,
    };
    app.poll_operation(OperationEvent::Finished(Ok(OperationSuccess::PackageInfo(Box::new(info)))));
    assert_eq!(app.selected_package_info.as_ref().map(|i| i.version.as_str()), Some("2.45"));
    assert!(app.handle_action(Action::ToggleDetails).is_none());
    assert!(!app.show_details);
    assert!(app.selected_package_info.is_none());
}

#[test]
fn dependency_tree_replaces_details_and_tab_switches_its_mode() {
    let mut app = sample();
    app.show_details = true;
    match app.handle_action(Action::ToggleDependencyTree) {
        Some(Task::LoadDependencyTree { name }) => assert_eq!(name, "git"),
        other => panic!("{other:?}"),
    }
    assert!(app.show_dependency_tree && !app.show_details);
    assert_eq!(app.status_message.as_deref(), Some("Loading dependencies for git..."));
    app.poll_operation(OperationEvent::Finished(Ok(OperationSuccess::DependencyTree(
        DependencyTreeData {
            package_name: "git".to_string(),
            dependencies: vec!["gettext".to_string(), "pcre2".to_string()],
            dependents: vec![],
        },
    ))));
    assert!(app.dependency_tree_data.is_some());
    assert_eq!(app.status_message, None);
    app.handle_action(Action::NextTab);
    assert_eq!(app.dependency_tree_mode, DependencyTreeMode::Dependents);
    assert_eq!(app.active_tab, Tab::Formulae);
    app.toggle_dependency_tree_mode();
    assert_eq!(app.dependency_tree_mode, DependencyTreeMode::Dependencies);
    app.handle_action(Action::ToggleDependencyTree);
    assert!(!app.show_dependency_tree);
    assert!(app.dependency_tree_data.is_none());
}

#[test]
fn help_and_quit() {
    let mut app = App::new();
    app.handle_action(Action::ToggleHelp);
    assert!(app.show_help);
    app.handle_action(Action::ToggleHelp);
    assert!(!app.show_help);
    app.handle_action(Action::Noop);
    assert!(!app.should_quit);
    app.handle_action(Action::Quit);
    assert!(app.should_quit);
}

#[test]
fn tick_wraps_and_spinner_cycles() {
    let mut app = App::new();
    assert_eq!(app.spinner_char(), '⠋');
    app.tick();
    assert_eq!(app.spinner_char(), '⠙');
    app.tick = 19;
    assert_eq!(app.spinner_char(), '⠏');
    app.tick = usize::MAX;
    app.tick();
    assert_eq!(app.tick, 0);
}

#[test]
fn stale_selection_is_pulled_back_into_the_list() {
    let mut app = sample();
    app.formulae_selected = Some(10);
    app.handle_action(Action::SearchInput('w'));
    assert_eq!(app.formulae_selected, Some(0));
}

#[test]
fn outdated_filter_never_adds_rows() {
    let mut app = sample();
    app.handle_action(Action::EnterSearch);
    app.handle_action(Action::SearchInput('r'));
    let wide = names(&mut app);
    app.handle_action(Action::ToggleOutdatedFilter);
    let narrow = names(&mut app);
    assert_eq!(wide, vec!["git", "wget", "curl"]);
    assert_eq!(narrow, vec!["wget"]);
    assert!(narrow.iter().all(|n| wide.contains(n)));
}

#[test]
fn typing_more_search_text_never_adds_rows() {
    let mut app = sample();
    app.handle_action(Action::EnterSearch);
    let mut before = names(&mut app);
    for c in "ret".chars() {
        app.handle_action(Action::SearchInput(c));
        let after = names(&mut app);
        assert!(after.iter().all(|n| before.contains(n)), "{after:?} not within {before:?}");
        before = after;
    }
    assert_eq!(before, vec!["wget"]);
}
