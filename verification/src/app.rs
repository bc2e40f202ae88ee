//! The application state and how it answers actions and finished
//! background operations.
//!
//! The state machine never performs work itself: where the user asks for
//! something that talks to Homebrew, the transition returns a [`Task`] that
//! the runner carries out, and the runner reports the outcome back through
//! [`App::poll_operation`].

use vstd::prelude::*;

use crate::actions::{progress_message, Action, ConfirmAction, ConfirmActionView};
use crate::text::{contains_str, lowercase_of, occurs_at, occurs_in, to_lowercase};
use crate::types::{Cask, DependencyTreeData, Package, PackageInfo};

verus! {

/// How far a page move goes.
pub const PAGE_SIZE: usize = 10;

/// Which relation the dependency tree shows.
#[derive(Debug, Clone, Copy, PartialEq, Eq, Structural)]
pub enum DependencyTreeMode {
    Dependencies,
    Dependents,
}

impl Default for DependencyTreeMode {
    fn default() -> (r: Self)
        ensures
            r == DependencyTreeMode::Dependencies,
    {
        DependencyTreeMode::Dependencies
    }
}

/// The two package lists.
#[derive(Debug, Clone, Copy, PartialEq, Eq, Structural)]
pub enum Tab {
    Formulae,
    Casks,
}

impl Default for Tab {
    fn default() -> (r: Self)
        ensures
            r == Tab::Formulae,
    {
        Tab::Formulae
    }
}

/// What keys currently do.
#[derive(Debug, Clone, Copy, PartialEq, Eq, Structural)]
pub enum InputMode {
    Normal,
    Search,
    Confirm,
}

impl Default for InputMode {
    fn default() -> (r: Self)
        ensures
            r == InputMode::Normal,
    {
        InputMode::Normal
    }
}

/// The outcome of a background operation: what it produced, or an error
/// message.
pub type OperationResult = Result<OperationSuccess, String>;

/// What a background operation produced.
#[derive(Debug, Clone)]
pub enum OperationSuccess {
    Message(String),
    PackagesLoaded { packages: Vec<Package>, casks: Vec<Cask> },
    PackageInfo(Box<PackageInfo>),
    PinToggled { name: String, pinned: bool },
    DependencyTree(DependencyTreeData),
}

/// What polling the running background operation reported.
pub enum OperationEvent {
    /// The operation finished with this outcome.
    Finished(OperationResult),
    /// The operation is still running.
    Running,
    /// The operation ended without reporting an outcome.
    Lost,
}

/// Background work that the application asks its runner to start.
#[derive(Debug, Clone)]
pub enum Task {
    /// List the installed formulae and casks and which of them are outdated.
    LoadPackages,
    /// Fetch the details of a package.
    LoadDetails { name: String },
    /// Pin a formula.
    Pin { name: String },
    /// Unpin a formula.
    Unpin { name: String },
    /// Fetch what a package depends on and what depends on it.
    LoadDependencyTree { name: String },
    /// Run a confirmed operation.
    Run(ConfirmAction),
}

/// A task with the package names as characters.
pub enum TaskView {
    LoadPackages,
    LoadDetails { name: Seq<char> },
    Pin { name: Seq<char> },
    Unpin { name: Seq<char> },
    LoadDependencyTree { name: Seq<char> },
    Run(ConfirmActionView),
}

impl View for Task {
    type V = TaskView;

    open spec fn view(&self) -> TaskView {
        match self {
            Task::LoadPackages => TaskView::LoadPackages,
            Task::LoadDetails { name } => TaskView::LoadDetails { name: name@ },
            Task::Pin { name } => TaskView::Pin { name: name@ },
            Task::Unpin { name } => TaskView::Unpin { name: name@ },
            Task::LoadDependencyTree { name } => TaskView::LoadDependencyTree { name: name@ },
            Task::Run(a) => TaskView::Run(a@),
        }
    }
}

/// The view of an optional task.
pub open spec fn task_view(t: Option<Task>) -> Option<TaskView> {
    match t {
        Some(t) => Some(t@),
        None => None,
    }
}

/// The view of an optional string.
pub open spec fn opt_view(s: Option<String>) -> Option<Seq<char>> {
    match s {
        Some(s) => Some(s@),
        None => None,
    }
}

/// The view of an optional confirmable operation.
pub open spec fn pending_view(a: Option<ConfirmAction>) -> Option<ConfirmActionView> {
    match a {
        Some(a) => Some(a@),
        None => None,
    }
}

// ---------------------------------------------------------------------------
// Filtering
// ---------------------------------------------------------------------------

/// The lowercased `text` contains the lowercased search text.
pub open spec fn search_matches(text: Seq<char>, filter: Seq<char>) -> bool {
    occurs_in(lowercase_of(text), lowercase_of(filter))
}

/// A formula is listed under the search text `filter` (matched against its
/// name and description, ignoring case) and the outdated-only switch.
pub open spec fn package_matches(p: Package, filter: Seq<char>, outdated_only: bool) -> bool {
    &&& (filter.len() == 0 || search_matches(p.name@, filter) || (p.desc matches Some(d)
        && search_matches(d@, filter)))
    &&& (!outdated_only || p.outdated)
}

/// A cask is listed under the search text `filter` (matched against its
/// token, its names and its description, ignoring case) and the
/// outdated-only switch.
pub open spec fn cask_matches(c: Cask, filter: Seq<char>, outdated_only: bool) -> bool {
    &&& (filter.len() == 0 || search_matches(c.token@, filter) || (exists|i: int|
        0 <= i < c.name@.len() && #[trigger] search_matches(c.name@[i]@, filter)) || (
    c.desc matches Some(d) && search_matches(d@, filter)))
    &&& (!outdated_only || c.outdated)
}

/// Positions, in order, of the listed formulae among the first `n`.
pub open spec fn package_indices(ps: Seq<Package>, filter: Seq<char>, outdated_only: bool, n: int) -> Seq<usize>
    decreases n,
{
    if n <= 0 {
        Seq::empty()
    } else {
        let prev = package_indices(ps, filter, outdated_only, n - 1);
        if package_matches(ps[n - 1], filter, outdated_only) {
            prev.push((n - 1) as usize)
        } else {
            prev
        }
    }
}

/// Positions, in order, of the listed casks among the first `n`.
pub open spec fn cask_indices(cs: Seq<Cask>, filter: Seq<char>, outdated_only: bool, n: int) -> Seq<usize>
    decreases n,
{
    if n <= 0 {
        Seq::empty()
    } else {
        let prev = cask_indices(cs, filter, outdated_only, n - 1);
        if cask_matches(cs[n - 1], filter, outdated_only) {
            prev.push((n - 1) as usize)
        } else {
            prev
        }
    }
}

/// The listed formulae are exactly the matching ones, each once, in the
/// order of the full list.
pub proof fn lemma_package_indices(ps: Seq<Package>, filter: Seq<char>, outdated_only: bool, n: int)
    requires
        0 <= n <= ps.len(),
        ps.len() <= usize::MAX,
    ensures
        ({
            let idx = package_indices(ps, filter, outdated_only, n);
            &&& forall|k: int|
                0 <= k < idx.len() ==> 0 <= #[trigger] idx[k] < n && package_matches(
                    ps[idx[k] as int],
                    filter,
                    outdated_only,
                )
            &&& forall|k: int, l: int| 0 <= k < l < idx.len() ==> idx[k] < idx[l]
            &&& forall|i: int|
                0 <= i < n && package_matches(#[trigger] ps[i], filter, outdated_only)
                    ==> idx.contains(i as usize)
        }),
    decreases n,
{
    if n > 0 {
        lemma_package_indices(ps, filter, outdated_only, n - 1);
        let prev = package_indices(ps, filter, outdated_only, n - 1);
        let idx = package_indices(ps, filter, outdated_only, n);
        assert forall|i: int|
            0 <= i < n && package_matches(#[trigger] ps[i], filter, outdated_only) implies idx.contains(
            i as usize,
        ) by {
            if i < n - 1 {
                let k = choose|k: int| 0 <= k < prev.len() && prev[k] == i as usize;
                assert(idx[k] == i as usize);
            } else {
                assert(idx[idx.len() - 1] == i as usize);
            }
        }
    }
}

/// The listed casks are exactly the matching ones, each once, in the
/// order of the full list.
pub proof fn lemma_cask_indices(cs: Seq<Cask>, filter: Seq<char>, outdated_only: bool, n: int)
    requires
        0 <= n <= cs.len(),
        cs.len() <= usize::MAX,
    ensures
        ({
            let idx = cask_indices(cs, filter, outdated_only, n);
            &&& forall|k: int|
                0 <= k < idx.len() ==> 0 <= #[trigger] idx[k] < n && cask_matches(
                    cs[idx[k] as int],
                    filter,
                    outdated_only,
                )
            &&& forall|k: int, l: int| 0 <= k < l < idx.len() ==> idx[k] < idx[l]
            &&& forall|i: int|
                0 <= i < n && cask_matches(#[trigger] cs[i], filter, outdated_only)
                    ==> idx.contains(i as usize)
        }),
    decreases n,
{
    if n > 0 {
        lemma_cask_indices(cs, filter, outdated_only, n - 1);
        let prev = cask_indices(cs, filter, outdated_only, n - 1);
        let idx = cask_indices(cs, filter, outdated_only, n);
        assert forall|i: int|
            0 <= i < n && cask_matches(#[trigger] cs[i], filter, outdated_only) implies idx.contains(
            i as usize,
        ) by {
            if i < n - 1 {
                let k = choose|k: int| 0 <= k < prev.len() && prev[k] == i as usize;
                assert(idx[k] == i as usize);
            } else {
                assert(idx[idx.len() - 1] == i as usize);
            }
        }
    }
}

/// Lists whose entries match alike give the same positions.
proof fn lemma_package_indices_same(
    a: Seq<Package>,
    b: Seq<Package>,
    filter: Seq<char>,
    outdated_only: bool,
    n: int,
)
    requires
        0 <= n <= a.len(),
        a.len() == b.len(),
        forall|i: int|
            0 <= i < a.len() ==> package_matches(a[i], filter, outdated_only) == package_matches(
                b[i],
                filter,
                outdated_only,
            ),
    ensures
        package_indices(a, filter, outdated_only, n) == package_indices(
            b,
            filter,
            outdated_only,
            n,
        ),
    decreases n,
{
    if n > 0 {
        lemma_package_indices_same(a, b, filter, outdated_only, n - 1);
    }
}

/// Pinning or unpinning a formula does not change which formulae are
/// listed, whatever the search.
proof fn lemma_pin_keeps_listing(ps: Seq<Package>, qs: Seq<Package>, i: int, pinned: bool)
    requires
        0 <= i < ps.len(),
        qs == ps.update(i, Package { pinned, ..ps[i] }),
    ensures
        forall|filter: Seq<char>, outdated_only: bool, n: int|
            0 <= n <= ps.len() ==> #[trigger] package_indices(qs, filter, outdated_only, n)
                == package_indices(ps, filter, outdated_only, n),
{
    assert forall|filter: Seq<char>, outdated_only: bool, n: int|
        0 <= n <= ps.len() implies #[trigger] package_indices(qs, filter, outdated_only, n)
        == package_indices(ps, filter, outdated_only, n) by {
        assert forall|j: int| 0 <= j < ps.len() implies package_matches(
            qs[j],
            filter,
            outdated_only,
        ) == package_matches(ps[j], filter, outdated_only) by {
            if j == i {
                assert(qs[j].name == ps[j].name);
                assert(qs[j].desc == ps[j].desc);
                assert(qs[j].outdated == ps[j].outdated);
            }
        }
        lemma_package_indices_same(qs, ps, filter, outdated_only, n);
    }
}

// ---------------------------------------------------------------------------
// The observable state
// ---------------------------------------------------------------------------

/// Everything about the application that its behaviour depends on, with
/// strings as characters. The filter cache is not part of it.
pub struct AppState {
    pub packages: Seq<Package>,
    pub casks: Seq<Cask>,
    pub active_tab: Tab,
    pub formulae_selected: Option<usize>,
    pub casks_selected: Option<usize>,
    pub filter: Seq<char>,
    pub show_outdated_only: bool,
    pub show_help: bool,
    pub show_details: bool,
    pub show_dependency_tree: bool,
    pub dependency_tree_mode: DependencyTreeMode,
    pub dependency_tree_data: Option<DependencyTreeData>,
    pub input_mode: InputMode,
    pub pending_action: Option<ConfirmActionView>,
    pub loading: bool,
    pub status_message: Option<Seq<char>>,
    pub selected_package_info: Option<PackageInfo>,
    pub should_quit: bool,
    pub tick: usize,
}

impl AppState {
    /// Positions of the formulae that the list shows.
    pub open spec fn visible_packages(self) -> Seq<usize> {
        package_indices(
            self.packages,
            self.filter,
            self.show_outdated_only,
            self.packages.len() as int,
        )
    }

    /// Positions of the casks that the list shows.
    pub open spec fn visible_casks(self) -> Seq<usize> {
        cask_indices(self.casks, self.filter, self.show_outdated_only, self.casks.len() as int)
    }

    /// Length of the list of the active tab.
    pub open spec fn current_len(self) -> nat {
        match self.active_tab {
            Tab::Formulae => self.visible_packages().len(),
            Tab::Casks => self.visible_casks().len(),
        }
    }

    /// The selection in the list of the active tab.
    pub open spec fn selected(self) -> Option<usize> {
        match self.active_tab {
            Tab::Formulae => self.formulae_selected,
            Tab::Casks => self.casks_selected,
        }
    }

    /// The state with another selection in the list of the active tab.
    pub open spec fn with_selected(self, sel: Option<usize>) -> AppState {
        match self.active_tab {
            Tab::Formulae => AppState { formulae_selected: sel, ..self },
            Tab::Casks => AppState { casks_selected: sel, ..self },
        }
    }

    /// The name (formula name or cask token) of the selected list entry,
    /// when the selection lies within the list.
    pub open spec fn selected_name(self) -> Option<Seq<char>> {
        match self.selected() {
            None => None,
            Some(i) => if (i as int) < self.current_len() {
                match self.active_tab {
                    Tab::Formulae => Some(self.packages[self.visible_packages()[i as int] as int].name@),
                    Tab::Casks => Some(self.casks[self.visible_casks()[i as int] as int].token@),
                }
            } else {
                None
            },
        }
    }
}

// ---------------------------------------------------------------------------
// Transitions
// ---------------------------------------------------------------------------

/// The entry after `cur` in a list of `len`, wrapping to the first.
pub open spec fn next_index(cur: usize, len: nat) -> usize {
    if cur >= len - 1 {
        0
    } else {
        (cur + 1) as usize
    }
}

/// The entry before `cur` in a list of `len`, wrapping to the last.
pub open spec fn previous_index(cur: usize, len: nat) -> usize {
    if cur == 0 {
        (len - 1) as usize
    } else {
        (cur - 1) as usize
    }
}

/// A page further than `cur`, stopping at the last entry.
pub open spec fn page_down_index(cur: usize, len: nat) -> usize {
    if cur + PAGE_SIZE < len - 1 {
        (cur + PAGE_SIZE) as usize
    } else {
        (len - 1) as usize
    }
}

/// A page before `cur`, stopping at the first entry.
pub open spec fn page_up_index(cur: usize) -> usize {
    if cur >= PAGE_SIZE {
        (cur - PAGE_SIZE) as usize
    } else {
        0
    }
}

/// A selection brought back into a list of `len`: none for an empty list,
/// the last entry when it lies beyond the end, and unchanged otherwise.
pub open spec fn validated(sel: Option<usize>, len: nat) -> Option<usize> {
    if len == 0 {
        None
    } else if sel.unwrap_or(0) >= len {
        Some((len - 1) as usize)
    } else {
        sel
    }
}

pub open spec fn after_next_item(s: AppState) -> AppState {
    if s.current_len() == 0 {
        s
    } else {
        s.with_selected(Some(next_index(s.selected().unwrap_or(0), s.current_len())))
    }
}

pub open spec fn after_previous_item(s: AppState) -> AppState {
    if s.current_len() == 0 {
        s
    } else {
        s.with_selected(Some(previous_index(s.selected().unwrap_or(0), s.current_len())))
    }
}

pub open spec fn after_first_item(s: AppState) -> AppState {
    if s.current_len() > 0 {
        s.with_selected(Some(0))
    } else {
        s
    }
}

pub open spec fn after_last_item(s: AppState) -> AppState {
    if s.current_len() > 0 {
        s.with_selected(Some((s.current_len() - 1) as usize))
    } else {
        s
    }
}

pub open spec fn after_page_down(s: AppState) -> AppState {
    if s.current_len() == 0 {
        s
    } else {
        s.with_selected(Some(page_down_index(s.selected().unwrap_or(0), s.current_len())))
    }
}

pub open spec fn after_page_up(s: AppState) -> AppState {
    if s.current_len() == 0 {
        s
    } else {
        s.with_selected(Some(page_up_index(s.selected().unwrap_or(0))))
    }
}

pub open spec fn after_validate_selection(s: AppState) -> AppState {
    s.with_selected(validated(s.selected(), s.current_len()))
}

pub open spec fn other_tab(t: Tab) -> Tab {
    match t {
        Tab::Formulae => Tab::Casks,
        Tab::Casks => Tab::Formulae,
    }
}

pub open spec fn other_mode(m: DependencyTreeMode) -> DependencyTreeMode {
    match m {
        DependencyTreeMode::Dependencies => DependencyTreeMode::Dependents,
        DependencyTreeMode::Dependents => DependencyTreeMode::Dependencies,
    }
}

pub open spec fn after_next_tab(s: AppState) -> AppState {
    AppState { active_tab: other_tab(s.active_tab), selected_package_info: None, ..s }
}

pub open spec fn after_select_tab(s: AppState, index: usize) -> AppState {
    AppState {
        active_tab: if index == 0 {
            Tab::Formulae
        } else {
            Tab::Casks
        },
        selected_package_info: None,
        ..s
    }
}

pub open spec fn after_start_load_packages(s: AppState) -> (AppState, Option<TaskView>) {
    if s.loading {
        (s, None)
    } else {
        (
            AppState { loading: true, status_message: Some("Loading packages..."@), ..s },
            Some(TaskView::LoadPackages),
        )
    }
}

pub open spec fn after_start_load_details(s: AppState) -> (AppState, Option<TaskView>) {
    match s.selected_name() {
        None => (s, None),
        Some(name) => if s.loading {
            (s, None)
        } else {
            (
                AppState {
                    loading: true,
                    status_message: Some("Loading details for "@ + name + "..."@),
                    ..s
                },
                Some(TaskView::LoadDetails { name }),
            )
        },
    }
}

pub open spec fn after_start_load_tree(s: AppState) -> (AppState, Option<TaskView>) {
    match s.selected_name() {
        None => (s, None),
        Some(name) => if s.loading {
            (s, None)
        } else {
            (
                AppState {
                    loading: true,
                    status_message: Some("Loading dependencies for "@ + name + "..."@),
                    ..s
                },
                Some(TaskView::LoadDependencyTree { name }),
            )
        },
    }
}

pub open spec fn after_toggle_details(s: AppState) -> (AppState, Option<TaskView>) {
    let s1 = AppState { show_details: !s.show_details, ..s };
    if s1.show_details {
        after_start_load_details(s1)
    } else {
        (AppState { selected_package_info: None, ..s1 }, None)
    }
}

pub open spec fn after_toggle_tree(s: AppState) -> (AppState, Option<TaskView>) {
    let s1 = AppState { show_dependency_tree: !s.show_dependency_tree, ..s };
    if s1.show_dependency_tree {
        after_start_load_tree(AppState { show_details: false, selected_package_info: None, ..s1 })
    } else {
        (AppState { dependency_tree_data: None, ..s1 }, None)
    }
}

/// Position of the first formula called `name`, searching from `i` on.
pub open spec fn first_named_from(ps: Seq<Package>, name: Seq<char>, i: int) -> Option<int>
    decreases ps.len() - i,
{
    if i < 0 || i >= ps.len() {
        None
    } else if ps[i].name@ == name {
        Some(i)
    } else {
        first_named_from(ps, name, i + 1)
    }
}

/// Position of the first formula called `name`.
pub open spec fn first_named(ps: Seq<Package>, name: Seq<char>) -> Option<int> {
    first_named_from(ps, name, 0)
}

/// Whether the first formula called `name` is pinned (false when there is
/// none).
pub open spec fn pinned_named(ps: Seq<Package>, name: Seq<char>) -> bool {
    match first_named(ps, name) {
        Some(i) => ps[i].pinned,
        None => false,
    }
}

/// The formulae with the pin of the first one called `name` set.
pub open spec fn with_pin(ps: Seq<Package>, name: Seq<char>, pinned: bool) -> Seq<Package> {
    match first_named(ps, name) {
        Some(i) => ps.update(i, Package { pinned, ..ps[i] }),
        None => ps,
    }
}

pub open spec fn after_toggle_pin(s: AppState) -> (AppState, Option<TaskView>) {
    if s.active_tab != Tab::Formulae {
        (s, None)
    } else {
        match s.selected_name() {
            None => (s, None),
            Some(name) => if s.loading {
                (s, None)
            } else {
                let pinned = pinned_named(s.packages, name);
                (
                    AppState {
                        loading: true,
                        status_message: Some(
                            (if pinned {
                                "Unpinning "@
                            } else {
                                "Pinning "@
                            }) + name + "..."@,
                        ),
                        ..s
                    },
                    Some(
                        if pinned {
                            TaskView::Unpin { name }
                        } else {
                            TaskView::Pin { name }
                        },
                    ),
                )
            },
        }
    }
}

pub open spec fn after_execute_pending(s: AppState) -> (AppState, Option<TaskView>) {
    match s.pending_action {
        None => (s, None),
        Some(a) => if s.loading {
            (s, None)
        } else {
            (
                AppState { loading: true, status_message: Some(progress_message(a)), ..s },
                Some(TaskView::Run(a)),
            )
        },
    }
}

pub open spec fn ask_confirmation(s: AppState, a: ConfirmActionView) -> AppState {
    AppState { pending_action: Some(a), input_mode: InputMode::Confirm, show_help: false, ..s }
}

pub open spec fn after_confirm_selected(s: AppState, remove: bool) -> AppState {
    match s.selected_name() {
        None => s,
        Some(name) => {
            let is_cask = s.active_tab == Tab::Casks;
            ask_confirmation(
                s,
                if remove {
                    ConfirmActionView::Remove { name, is_cask }
                } else {
                    ConfirmActionView::Update { name, is_cask }
                },
            )
        },
    }
}

/// The search text without its last character (unchanged when empty).
pub open spec fn without_last(f: Seq<char>) -> Seq<char> {
    if f.len() > 0 {
        f.drop_last()
    } else {
        f
    }
}

/// How the state changes, and what work starts, when the user asks for
/// `action`.
pub open spec fn after_action(s: AppState, action: Action) -> (AppState, Option<TaskView>) {
    match action {
        Action::Quit => (AppState { should_quit: true, ..s }, None),
        Action::NextItem => (after_next_item(s), None),
        Action::PreviousItem => (after_previous_item(s), None),
        Action::FirstItem => (after_first_item(s), None),
        Action::LastItem => (after_last_item(s), None),
        Action::PageDown => (after_page_down(s), None),
        Action::PageUp => (after_page_up(s), None),
        Action::NextTab => if s.show_dependency_tree {
            (AppState { dependency_tree_mode: other_mode(s.dependency_tree_mode), ..s }, None)
        } else {
            (after_next_tab(s), None)
        },
        Action::PreviousTab => (after_next_tab(s), None),
        Action::SelectTab(index) => (after_select_tab(s, index), None),
        Action::ToggleDetails => after_toggle_details(s),
        Action::ToggleHelp => (AppState { show_help: !s.show_help, ..s }, None),
        Action::ToggleDependencyTree => after_toggle_tree(s),
        Action::ToggleOutdatedFilter => (
            after_validate_selection(AppState { show_outdated_only: !s.show_outdated_only, ..s }),
            None,
        ),
        Action::EnterSearch => (
            AppState { input_mode: InputMode::Search, filter: Seq::empty(), ..s },
            None,
        ),
        Action::ExitSearch => (AppState { input_mode: InputMode::Normal, ..s }, None),
        Action::SearchInput(c) => (
            after_validate_selection(AppState { filter: s.filter.push(c), ..s }),
            None,
        ),
        Action::SearchBackspace => (
            after_validate_selection(AppState { filter: without_last(s.filter), ..s }),
            None,
        ),
        Action::UpdateSelected => (after_confirm_selected(s, false), None),
        Action::UpdateAll => (ask_confirmation(s, ConfirmActionView::UpdateAll), None),
        Action::RemoveSelected => (after_confirm_selected(s, true), None),
        Action::Cleanup => (ask_confirmation(s, ConfirmActionView::Cleanup), None),
        Action::TogglePin => after_toggle_pin(s),
        Action::Refresh => after_start_load_packages(s),
        Action::ConfirmAction => {
            let (s1, t) = after_execute_pending(s);
            (AppState { pending_action: None, input_mode: InputMode::Normal, ..s1 }, t)
        },
        Action::CancelAction => (
            AppState { pending_action: None, input_mode: InputMode::Normal, ..s },
            None,
        ),
        Action::Noop => (s, None),
    }
}

/// How the state changes, and what work starts, when polling the running
/// operation reports `event`.
pub open spec fn after_poll(s: AppState, event: OperationEvent) -> (AppState, Option<TaskView>) {
    match event {
        OperationEvent::Running => (s, None),
        OperationEvent::Lost => (
            AppState {
                loading: false,
                status_message: Some("Operation failed unexpectedly"@),
                ..s
            },
            None,
        ),
        OperationEvent::Finished(result) => {
            let s0 = AppState { loading: false, ..s };
            match result {
                Ok(OperationSuccess::Message(msg)) => after_start_load_packages(
                    AppState { status_message: Some(msg@), ..s0 },
                ),
                Ok(OperationSuccess::PackagesLoaded { packages, casks }) => (
                    after_validate_selection(
                        AppState {
                            packages: packages@,
                            casks: casks@,
                            status_message: None,
                            ..s0
                        },
                    ),
                    None,
                ),
                Ok(OperationSuccess::PackageInfo(info)) => (
                    AppState { selected_package_info: Some(*info), ..s0 },
                    None,
                ),
                Ok(OperationSuccess::PinToggled { name, pinned }) => (
                    AppState {
                        packages: with_pin(s.packages, name@, pinned),
                        status_message: Some(
                            (if pinned {
                                "Pinned "@
                            } else {
                                "Unpinned "@
                            }) + name@,
                        ),
                        ..s0
                    },
                    None,
                ),
                Ok(OperationSuccess::DependencyTree(data)) => (
                    AppState { dependency_tree_data: Some(data), status_message: None, ..s0 },
                    None,
                ),
                Err(e) => (AppState { status_message: Some("Error: "@ + e@), ..s0 }, None),
            }
        },
    }
}

/// The characters of the loading spinner, one per frame.
pub open spec fn spinner_frames() -> Seq<char> {
    seq!['⠋', '⠙', '⠹', '⠸', '⠼', '⠴', '⠦', '⠧', '⠇', '⠏']
}

} // verus!

verus! {

// ---------------------------------------------------------------------------
// The application
// ---------------------------------------------------------------------------

/// A remembered list of positions for one search text and outdated switch.
struct CacheEntry {
    filter_text: String,
    show_outdated: bool,
    indices: Vec<usize>,
}

/// The positions of the listed formulae and casks, remembered until the
/// search text or the outdated switch changes or new lists arrive.
pub struct FilterCache {
    packages: Option<CacheEntry>,
    casks: Option<CacheEntry>,
}

impl FilterCache {
    /// A cache that remembers nothing.
    pub fn empty() -> (r: FilterCache)
        ensures
            r.is_empty(),
    {
        FilterCache { packages: None, casks: None }
    }

    /// The cache remembers nothing.
    pub closed spec fn is_empty(self) -> bool {
        self.packages is None && self.casks is None
    }
}

/// The state of the application.
pub struct App {
    pub packages: Vec<Package>,
    pub casks: Vec<Cask>,
    pub active_tab: Tab,
    /// Selected row of the formulae list.
    pub formulae_selected: Option<usize>,
    /// Selected row of the casks list.
    pub casks_selected: Option<usize>,
    pub filter: String,
    pub show_outdated_only: bool,
    pub show_help: bool,
    pub show_details: bool,
    pub show_dependency_tree: bool,
    pub dependency_tree_mode: DependencyTreeMode,
    pub dependency_tree_data: Option<DependencyTreeData>,
    pub input_mode: InputMode,
    pub pending_action: Option<ConfirmAction>,
    pub loading: bool,
    pub status_message: Option<String>,
    pub selected_package_info: Option<PackageInfo>,
    pub should_quit: bool,
    pub tick: usize,
    pub filter_cache: FilterCache,
}

impl View for App {
    type V = AppState;

    open spec fn view(&self) -> AppState {
        AppState {
            packages: self.packages@,
            casks: self.casks@,
            active_tab: self.active_tab,
            formulae_selected: self.formulae_selected,
            casks_selected: self.casks_selected,
            filter: self.filter@,
            show_outdated_only: self.show_outdated_only,
            show_help: self.show_help,
            show_details: self.show_details,
            show_dependency_tree: self.show_dependency_tree,
            dependency_tree_mode: self.dependency_tree_mode,
            dependency_tree_data: self.dependency_tree_data,
            input_mode: self.input_mode,
            pending_action: pending_view(self.pending_action),
            loading: self.loading,
            status_message: opt_view(self.status_message),
            selected_package_info: self.selected_package_info,
            should_quit: self.should_quit,
            tick: self.tick,
        }
    }
}

fn package_listed(p: &Package, filter: &String, filter_lower: &String, outdated_only: bool) -> (r: bool)
    requires
        filter_lower@ == lowercase_of(filter@),
    ensures
        r == package_matches(*p, filter@, outdated_only),
{
    let matches_search = if filter.as_str().is_empty() {
        true
    } else {
        contains_str(to_lowercase(p.name.as_str()).as_str(), filter_lower.as_str()) || match &p.desc {
            Some(d) => contains_str(to_lowercase(d.as_str()).as_str(), filter_lower.as_str()),
            None => false,
        }
    };
    matches_search && (!outdated_only || p.outdated)
}

fn cask_listed(c: &Cask, filter: &String, filter_lower: &String, outdated_only: bool) -> (r: bool)
    requires
        filter_lower@ == lowercase_of(filter@),
    ensures
        r == cask_matches(*c, filter@, outdated_only),
{
    let matches_search = if filter.as_str().is_empty() {
        true
    } else if contains_str(to_lowercase(c.token.as_str()).as_str(), filter_lower.as_str()) {
        true
    } else {
        let mut found = false;
        let mut i: usize = 0;
        while i < c.name.len()
            invariant
                i <= c.name@.len(),
                filter_lower@ == lowercase_of(filter@),
                found == (exists|j: int| 0 <= j < i && #[trigger] search_matches(c.name@[j]@, filter@)),
            decreases c.name@.len() - i,
        {
            let hit = contains_str(to_lowercase(c.name[i].as_str()).as_str(), filter_lower.as_str());
            assert(hit == search_matches(c.name@[i as int]@, filter@));
            if hit {
                found = true;
            }
            i += 1;
        }
        found || match &c.desc {
            Some(d) => contains_str(to_lowercase(d.as_str()).as_str(), filter_lower.as_str()),
            None => false,
        }
    };
    matches_search && (!outdated_only || c.outdated)
}

fn compute_package_indices(packages: &Vec<Package>, filter: &String, outdated_only: bool) -> (r: Vec<usize>)
    ensures
        r@ == package_indices(packages@, filter@, outdated_only, packages@.len() as int),
{
    let filter_lower = to_lowercase(filter.as_str());
    let mut r: Vec<usize> = Vec::new();
    let mut i: usize = 0;
    while i < packages.len()
        invariant
            i <= packages@.len(),
            filter_lower@ == lowercase_of(filter@),
            r@ == package_indices(packages@, filter@, outdated_only, i as int),
        decreases packages@.len() - i,
    {
        if package_listed(&packages[i], filter, &filter_lower, outdated_only) {
            r.push(i);
        }
        i += 1;
    }
    r
}

fn compute_cask_indices(casks: &Vec<Cask>, filter: &String, outdated_only: bool) -> (r: Vec<usize>)
    ensures
        r@ == cask_indices(casks@, filter@, outdated_only, casks@.len() as int),
{
    let filter_lower = to_lowercase(filter.as_str());
    let mut r: Vec<usize> = Vec::new();
    let mut i: usize = 0;
    while i < casks.len()
        invariant
            i <= casks@.len(),
            filter_lower@ == lowercase_of(filter@),
            r@ == cask_indices(casks@, filter@, outdated_only, i as int),
        decreases casks@.len() - i,
    {
        if cask_listed(&casks[i], filter, &filter_lower, outdated_only) {
            r.push(i);
        }
        i += 1;
    }
    r
}

fn copy_indices(v: &Vec<usize>) -> (r: Vec<usize>)
    ensures
        r@ == v@,
{
    let mut r: Vec<usize> = Vec::new();
    let mut i: usize = 0;
    while i < v.len()
        invariant
            i <= v@.len(),
            r@ == v@.take(i as int),
        decreases v@.len() - i,
    {
        r.push(v[i]);
        assert(v@.take(i + 1) =~= v@.take(i as int).push(v@[i as int]));
        i += 1;
    }
    assert(v@.take(v@.len() as int) =~= v@);
    r
}

/// Pushes a character onto a string.
/// Calls `String::push` from std. Trusted: the string afterwards holds its
/// previous characters followed by `c`.
#[verifier::external_body]
fn push_char(s: &mut String, c: char)
    ensures
        final(s)@ == old(s)@.push(c),
{
    s.push(c);
}

} // verus!

verus! {

/// The state right after start: empty lists with the first row of each
/// selected, normal input mode, nothing loading.
pub open spec fn initial_state() -> AppState {
    AppState {
        packages: Seq::empty(),
        casks: Seq::empty(),
        active_tab: Tab::Formulae,
        formulae_selected: Some(0),
        casks_selected: Some(0),
        filter: Seq::empty(),
        show_outdated_only: false,
        show_help: false,
        show_details: false,
        show_dependency_tree: false,
        dependency_tree_mode: DependencyTreeMode::Dependencies,
        dependency_tree_data: None,
        input_mode: InputMode::Normal,
        pending_action: None,
        loading: false,
        status_message: None,
        selected_package_info: None,
        should_quit: false,
        tick: 0,
    }
}

impl Default for App {
    fn default() -> (r: Self)
        ensures
            r.wf(),
            r@ == initial_state(),
    {
        App {
            packages: Vec::new(),
            casks: Vec::new(),
            active_tab: Tab::Formulae,
            formulae_selected: Some(0),
            casks_selected: Some(0),
            filter: String::new(),
            show_outdated_only: false,
            show_help: false,
            show_details: false,
            show_dependency_tree: false,
            dependency_tree_mode: DependencyTreeMode::Dependencies,
            dependency_tree_data: None,
            input_mode: InputMode::Normal,
            pending_action: None,
            loading: false,
            status_message: None,
            selected_package_info: None,
            should_quit: false,
            tick: 0,
            filter_cache: FilterCache::empty(),
        }
    }
}

impl App {
    /// Every position list the filter cache remembers is the one that its
    /// search text and outdated switch give for the current lists.
    pub closed spec fn wf(self) -> bool {
        &&& (self.filter_cache.packages matches Some(e) ==> e.indices@ == package_indices(
            self.packages@,
            e.filter_text@,
            e.show_outdated,
            self.packages@.len() as int,
        ))
        &&& (self.filter_cache.casks matches Some(e) ==> e.indices@ == cask_indices(
            self.casks@,
            e.filter_text@,
            e.show_outdated,
            self.casks@.len() as int,
        ))
    }

    /// A new application in its initial state.
    pub fn new() -> (r: Self)
        ensures
            r.wf(),
            r@ == initial_state(),
    {
        Self::default()
    }

    /// Advances the animation counter, wrapping around.
    pub fn tick(&mut self)
        ensures
            old(self).wf() ==> final(self).wf(),
            final(self)@ == (AppState { tick: old(self).tick.wrapping_add(1), ..old(self)@ }),
    {
        self.tick = self.tick.wrapping_add(1);
    }

    /// The spinner character for the current tick.
    pub fn spinner_char(&self) -> (r: char)
        ensures
            r == spinner_frames()[(self.tick % 10) as int],
    {
        let frame = self.tick % 10;
        if frame == 0 {
            '⠋'
        } else if frame == 1 {
            '⠙'
        } else if frame == 2 {
            '⠹'
        } else if frame == 3 {
            '⠸'
        } else if frame == 4 {
            '⠼'
        } else if frame == 5 {
            '⠴'
        } else if frame == 6 {
            '⠦'
        } else if frame == 7 {
            '⠧'
        } else if frame == 8 {
            '⠇'
        } else {
            '⠏'
        }
    }

    /// Forgets every remembered filter result.
    fn invalidate_filter_cache(&mut self)
        ensures
            final(self).wf(),
            final(self)@ == old(self)@,
    {
        self.filter_cache = FilterCache::empty();
    }

    fn visible_package_indices(&mut self) -> (r: Vec<usize>)
        requires
            old(self).wf(),
        ensures
            final(self).wf(),
            final(self)@ == old(self)@,
            r@ == old(self)@.visible_packages(),
    {
        let hit = match &self.filter_cache.packages {
            Some(e) => e.filter_text == self.filter && e.show_outdated == self.show_outdated_only,
            None => false,
        };
        if hit {
            match &self.filter_cache.packages {
                Some(e) => {
                    return copy_indices(&e.indices);
                },
                None => {},
            }
        }
        let indices = compute_package_indices(&self.packages, &self.filter, self.show_outdated_only);
        let kept = copy_indices(&indices);
        self.filter_cache.packages = Some(
            CacheEntry {
                filter_text: self.filter.clone(),
                show_outdated: self.show_outdated_only,
                indices: kept,
            },
        );
        indices
    }

    fn visible_cask_indices(&mut self) -> (r: Vec<usize>)
        requires
            old(self).wf(),
        ensures
            final(self).wf(),
            final(self)@ == old(self)@,
            r@ == old(self)@.visible_casks(),
    {
        let hit = match &self.filter_cache.casks {
            Some(e) => e.filter_text == self.filter && e.show_outdated == self.show_outdated_only,
            None => false,
        };
        if hit {
            match &self.filter_cache.casks {
                Some(e) => {
                    return copy_indices(&e.indices);
                },
                None => {},
            }
        }
        let indices = compute_cask_indices(&self.casks, &self.filter, self.show_outdated_only);
        let kept = copy_indices(&indices);
        self.filter_cache.casks = Some(
            CacheEntry {
                filter_text: self.filter.clone(),
                show_outdated: self.show_outdated_only,
                indices: kept,
            },
        );
        indices
    }

    /// The formulae that the list shows: those matching the search text and
    /// the outdated switch, in the order of the full list. The result is the same
    /// whether or not it was remembered from an earlier call.
    pub fn filtered_packages(&mut self) -> (r: Vec<&Package>)
        requires
            old(self).wf(),
        ensures
            final(self).wf(),
            final(self)@ == old(self)@,
            r@.len() == old(self)@.visible_packages().len(),
            forall|k: int|
                0 <= k < r@.len() ==> *r@[k] == old(self)@.packages[old(
                    self,
                )@.visible_packages()[k] as int],
    {
        let indices = self.visible_package_indices();
        let _count = self.packages.len();
        proof {
            lemma_package_indices(
                self.packages@,
                self.filter@,
                self.show_outdated_only,
                self.packages@.len() as int,
            );
        }
        let packages = &self.packages;
        let mut r: Vec<&Package> = Vec::new();
        let mut k: usize = 0;
        while k < indices.len()
            invariant
                k <= indices@.len(),
                forall|j: int| 0 <= j < indices@.len() ==> indices@[j] < packages@.len(),
                r@.len() == k,
                forall|j: int| 0 <= j < k ==> *r@[j] == packages@[indices@[j] as int],
            decreases indices@.len() - k,
        {
            r.push(&packages[indices[k]]);
            k += 1;
        }
        r
    }

    /// The casks that the list shows: those matching the search text and the
    /// outdated switch, in the order of the full list. The result is the same
    /// whether or not it was remembered from an earlier call.
    pub fn filtered_casks(&mut self) -> (r: Vec<&Cask>)
        requires
            old(self).wf(),
        ensures
            final(self).wf(),
            final(self)@ == old(self)@,
            r@.len() == old(self)@.visible_casks().len(),
            forall|k: int|
                0 <= k < r@.len() ==> *r@[k] == old(self)@.casks[old(
                    self,
                )@.visible_casks()[k] as int],
    {
        let indices = self.visible_cask_indices();
        let _count = self.casks.len();
        proof {
            lemma_cask_indices(
                self.casks@,
                self.filter@,
                self.show_outdated_only,
                self.casks@.len() as int,
            );
        }
        let casks = &self.casks;
        let mut r: Vec<&Cask> = Vec::new();
        let mut k: usize = 0;
        while k < indices.len()
            invariant
                k <= indices@.len(),
                forall|j: int| 0 <= j < indices@.len() ==> indices@[j] < casks@.len(),
                r@.len() == k,
                forall|j: int| 0 <= j < k ==> *r@[j] == casks@[indices@[j] as int],
            decreases indices@.len() - k,
        {
            r.push(&casks[indices[k]]);
            k += 1;
        }
        r
    }
}

} // verus!

verus! {

fn pinned_of_first_named(packages: &Vec<Package>, name: &String) -> (r: bool)
    ensures
        r == pinned_named(packages@, name@),
{
    let mut i: usize = 0;
    while i < packages.len()
        invariant
            i <= packages@.len(),
            first_named(packages@, name@) == first_named_from(packages@, name@, i as int),
        decreases packages@.len() - i,
    {
        if packages[i].name == *name {
            return packages[i].pinned;
        }
        i += 1;
    }
    false
}

/// A status text made of a prefix, a name and a suffix.
fn framed(prefix: &str, name: &str, suffix: &str) -> (r: String)
    ensures
        r@ == prefix@ + name@ + suffix@,
{
    let mut r = prefix.to_owned();
    r.append(name);
    r.append(suffix);
    r
}

impl App {
    fn current_list_len(&mut self) -> (r: usize)
        requires
            old(self).wf(),
        ensures
            final(self).wf(),
            final(self)@ == old(self)@,
            r == old(self)@.current_len(),
    {
        match self.active_tab {
            Tab::Formulae => self.visible_package_indices().len(),
            Tab::Casks => self.visible_cask_indices().len(),
        }
    }

    fn current_selected(&self) -> (r: Option<usize>)
        ensures
            r == self@.selected(),
    {
        match self.active_tab {
            Tab::Formulae => self.formulae_selected,
            Tab::Casks => self.casks_selected,
        }
    }

    fn select(&mut self, sel: Option<usize>)
        requires
            old(self).wf(),
        ensures
            final(self).wf(),
            final(self)@ == old(self)@.with_selected(sel),
    {
        match self.active_tab {
            Tab::Formulae => self.formulae_selected = sel,
            Tab::Casks => self.casks_selected = sel,
        }
    }

    fn validate_selection(&mut self)
        requires
            old(self).wf(),
        ensures
            final(self).wf(),
            final(self)@ == after_validate_selection(old(self)@),
    {
        let len = self.current_list_len();
        if len == 0 {
            self.select(None);
        } else {
            let selected = match self.current_selected() {
                Some(s) => s,
                None => 0,
            };
            if selected >= len {
                self.select(Some(len - 1));
            }
        }
    }

    /// The name (formula name or cask token) of the selected list entry,
    /// when the selection lies within the list.
    pub fn selected_package_name(&mut self) -> (r: Option<String>)
        requires
            old(self).wf(),
        ensures
            final(self).wf(),
            final(self)@ == old(self)@,
            opt_view(r) == old(self)@.selected_name(),
    {
        match self.active_tab {
            Tab::Formulae => {
                let selected = match self.formulae_selected {
                    Some(s) => s,
                    None => {
                        return None;
                    },
                };
                let indices = self.visible_package_indices();
                if selected < indices.len() {
                    let _count = self.packages.len();
                    proof {
                        lemma_package_indices(
                            self.packages@,
                            self.filter@,
                            self.show_outdated_only,
                            self.packages@.len() as int,
                        );
                    }
                    Some(self.packages[indices[selected]].name.clone())
                } else {
                    None
                }
            },
            Tab::Casks => {
                let selected = match self.casks_selected {
                    Some(s) => s,
                    None => {
                        return None;
                    },
                };
                let indices = self.visible_cask_indices();
                if selected < indices.len() {
                    let _count = self.casks.len();
                    proof {
                        lemma_cask_indices(
                            self.casks@,
                            self.filter@,
                            self.show_outdated_only,
                            self.casks@.len() as int,
                        );
                    }
                    Some(self.casks[indices[selected]].token.clone())
                } else {
                    None
                }
            },
        }
    }

    fn next_item(&mut self)
        requires
            old(self).wf(),
        ensures
            final(self).wf(),
            final(self)@ == after_next_item(old(self)@),
    {
        let len = self.current_list_len();
        if len == 0 {
            return;
        }
        let current = match self.current_selected() {
            Some(c) => c,
            None => 0,
        };
        let next = if current >= len - 1 {
            0
        } else {
            current + 1
        };
        self.select(Some(next));
    }

    fn previous_item(&mut self)
        requires
            old(self).wf(),
        ensures
            final(self).wf(),
            final(self)@ == after_previous_item(old(self)@),
    {
        let len = self.current_list_len();
        if len == 0 {
            return;
        }
        let current = match self.current_selected() {
            Some(c) => c,
            None => 0,
        };
        let prev = if current == 0 {
            len - 1
        } else {
            current - 1
        };
        self.select(Some(prev));
    }

    fn first_item(&mut self)
        requires
            old(self).wf(),
        ensures
            final(self).wf(),
            final(self)@ == after_first_item(old(self)@),
    {
        if self.current_list_len() > 0 {
            self.select(Some(0));
        }
    }

    fn last_item(&mut self)
        requires
            old(self).wf(),
        ensures
            final(self).wf(),
            final(self)@ == after_last_item(old(self)@),
    {
        let len = self.current_list_len();
        if len > 0 {
            self.select(Some(len - 1));
        }
    }

    fn page_down(&mut self)
        requires
            old(self).wf(),
        ensures
            final(self).wf(),
            final(self)@ == after_page_down(old(self)@),
    {
        let len = self.current_list_len();
        if len == 0 {
            return;
        }
        let current = match self.current_selected() {
            Some(c) => c,
            None => 0,
        };
        let next = if current >= len - 1 || len - 1 - current <= PAGE_SIZE {
            len - 1
        } else {
            current + PAGE_SIZE
        };
        self.select(Some(next));
    }

    fn page_up(&mut self)
        requires
            old(self).wf(),
        ensures
            final(self).wf(),
            final(self)@ == after_page_up(old(self)@),
    {
        let len = self.current_list_len();
        if len == 0 {
            return;
        }
        let current = match self.current_selected() {
            Some(c) => c,
            None => 0,
        };
        let prev = if current >= PAGE_SIZE {
            current - PAGE_SIZE
        } else {
            0
        };
        self.select(Some(prev));
    }

    fn next_tab(&mut self)
        requires
            old(self).wf(),
        ensures
            final(self).wf(),
            final(self)@ == after_next_tab(old(self)@),
    {
        self.active_tab = match self.active_tab {
            Tab::Formulae => Tab::Casks,
            Tab::Casks => Tab::Formulae,
        };
        self.selected_package_info = None;
    }

    /// With two tabs, stepping back is the same as stepping forward.
    fn previous_tab(&mut self)
        requires
            old(self).wf(),
        ensures
            final(self).wf(),
            final(self)@ == after_next_tab(old(self)@),
    {
        self.next_tab();
    }

    fn select_tab(&mut self, index: usize)
        requires
            old(self).wf(),
        ensures
            final(self).wf(),
            final(self)@ == after_select_tab(old(self)@, index),
    {
        self.active_tab = if index == 0 {
            Tab::Formulae
        } else {
            Tab::Casks
        };
        self.selected_package_info = None;
    }

    /// Starts listing the packages, unless an operation is already running.
    pub fn start_load_packages(&mut self) -> (r: Option<Task>)
        requires
            old(self).wf(),
        ensures
            final(self).wf(),
            (final(self)@, task_view(r)) == after_start_load_packages(old(self)@),
    {
        if self.loading {
            return None;
        }
        self.loading = true;
        self.status_message = Some("Loading packages...".to_owned());
        Some(Task::LoadPackages)
    }

    fn start_load_details(&mut self) -> (r: Option<Task>)
        requires
            old(self).wf(),
        ensures
            final(self).wf(),
            (final(self)@, task_view(r)) == after_start_load_details(old(self)@),
    {
        let name = match self.selected_package_name() {
            Some(n) => n,
            None => {
                return None;
            },
        };
        if self.loading {
            return None;
        }
        self.loading = true;
        self.status_message = Some(framed("Loading details for ", name.as_str(), "..."));
        Some(Task::LoadDetails { name })
    }

    fn start_load_dependency_tree(&mut self) -> (r: Option<Task>)
        requires
            old(self).wf(),
        ensures
            final(self).wf(),
            (final(self)@, task_view(r)) == after_start_load_tree(old(self)@),
    {
        let name = match self.selected_package_name() {
            Some(n) => n,
            None => {
                return None;
            },
        };
        if self.loading {
            return None;
        }
        self.loading = true;
        self.status_message = Some(framed("Loading dependencies for ", name.as_str(), "..."));
        Some(Task::LoadDependencyTree { name })
    }

    fn toggle_details(&mut self) -> (r: Option<Task>)
        requires
            old(self).wf(),
        ensures
            final(self).wf(),
            (final(self)@, task_view(r)) == after_toggle_details(old(self)@),
    {
        self.show_details = !self.show_details;
        if self.show_details {
            self.start_load_details()
        } else {
            self.selected_package_info = None;
            None
        }
    }

    fn toggle_pin(&mut self) -> (r: Option<Task>)
        requires
            old(self).wf(),
        ensures
            final(self).wf(),
            (final(self)@, task_view(r)) == after_toggle_pin(old(self)@),
    {
        if self.active_tab != Tab::Formulae {
            return None;
        }
        let name = match self.selected_package_name() {
            Some(n) => n,
            None => {
                return None;
            },
        };
        if self.loading {
            return None;
        }
        let is_pinned = pinned_of_first_named(&self.packages, &name);
        self.loading = true;
        let action = if is_pinned {
            "Unpinning "
        } else {
            "Pinning "
        };
        self.status_message = Some(framed(action, name.as_str(), "..."));
        if is_pinned {
            Some(Task::Unpin { name })
        } else {
            Some(Task::Pin { name })
        }
    }

    fn toggle_dependency_tree(&mut self) -> (r: Option<Task>)
        requires
            old(self).wf(),
        ensures
            final(self).wf(),
            (final(self)@, task_view(r)) == after_toggle_tree(old(self)@),
    {
        self.show_dependency_tree = !self.show_dependency_tree;
        if self.show_dependency_tree {
            self.show_details = false;
            self.selected_package_info = None;
            self.start_load_dependency_tree()
        } else {
            self.dependency_tree_data = None;
            None
        }
    }

    /// Switches the dependency tree between dependencies and dependents.
    pub fn toggle_dependency_tree_mode(&mut self)
        ensures
            old(self).wf() ==> final(self).wf(),
            final(self)@ == (AppState {
                dependency_tree_mode: other_mode(old(self).dependency_tree_mode),
                ..old(self)@
            }),
    {
        self.dependency_tree_mode = match self.dependency_tree_mode {
            DependencyTreeMode::Dependencies => DependencyTreeMode::Dependents,
            DependencyTreeMode::Dependents => DependencyTreeMode::Dependencies,
        };
    }

    fn execute_pending_action(&mut self) -> (r: Option<Task>)
        requires
            old(self).wf(),
        ensures
            final(self).wf(),
            (final(self)@, task_view(r)) == after_execute_pending(old(self)@),
    {
        let action = match &self.pending_action {
            Some(a) => a.duplicate(),
            None => {
                return None;
            },
        };
        if self.loading {
            return None;
        }
        self.loading = true;
        self.status_message = Some(action.progress_message());
        Some(Task::Run(action))
    }

    fn ask_confirmation(&mut self, action: ConfirmAction)
        requires
            old(self).wf(),
        ensures
            final(self).wf(),
            final(self)@ == ask_confirmation(old(self)@, action@),
    {
        self.pending_action = Some(action);
        self.input_mode = InputMode::Confirm;
        self.show_help = false;
    }

    fn confirm_selected(&mut self, remove: bool)
        requires
            old(self).wf(),
        ensures
            final(self).wf(),
            final(self)@ == after_confirm_selected(old(self)@, remove),
    {
        if let Some(name) = self.selected_package_name() {
            let is_cask = self.active_tab == Tab::Casks;
            let action = if remove {
                ConfirmAction::Remove { name, is_cask }
            } else {
                ConfirmAction::Update { name, is_cask }
            };
            self.ask_confirmation(action);
        }
    }

    /// Types one character into the search. The lists can only shrink,
    /// unless the search text so far holds a capital sigma, whose lowercase
    /// depends on the character typed after it.
    fn search_input(&mut self, c: char)
        requires
            old(self).wf(),
        ensures
            final(self).wf(),
            final(self)@ == after_action(old(self)@, Action::SearchInput(c)).0,
            !old(self)@.filter.contains('Σ') ==> lists_narrowed(old(self)@, final(self)@),
    {
        let ghost s = self@;
        assert(self.packages@.len() == self.packages.len());
        assert(self.casks@.len() == self.casks.len());
        push_char(&mut self.filter, c);
        let longer = to_lowercase(self.filter.as_str());
        proof {
            if !s.filter.contains('Σ') {
                let f2 = s.filter.push(c);
                assert(f2.take(s.filter.len() as int) =~= s.filter);
                assert(!f2.take(s.filter.len() as int).contains('Σ'));
                assert(lowercase_of(s.filter).is_prefix_of(longer@));
                lemma_search_input_narrows(s, c);
            }
        }
        self.invalidate_filter_cache();
        self.validate_selection();
    }

    /// Applies an action of the user; returns the background work it starts,
    /// if any.
    #[verifier::rlimit(60)]
    #[verifier::spinoff_prover]
    pub fn handle_action(&mut self, action: Action) -> (r: Option<Task>)
        requires
            old(self).wf(),
        ensures
            final(self).wf(),
            (final(self)@, task_view(r)) == after_action(old(self)@, action),
            action matches Action::SearchInput(_) && !old(self)@.filter.contains('Σ')
                ==> lists_narrowed(old(self)@, final(self)@),
    {
        match action {
            Action::Quit => {
                self.should_quit = true;
                None
            },
            Action::NextItem => {
                self.next_item();
                None
            },
            Action::PreviousItem => {
                self.previous_item();
                None
            },
            Action::FirstItem => {
                self.first_item();
                None
            },
            Action::LastItem => {
                self.last_item();
                None
            },
            Action::PageDown => {
                self.page_down();
                None
            },
            Action::PageUp => {
                self.page_up();
                None
            },
            Action::NextTab => {
                if self.show_dependency_tree {
                    self.toggle_dependency_tree_mode();
                } else {
                    self.next_tab();
                }
                None
            },
            Action::PreviousTab => {
                self.previous_tab();
                None
            },
            Action::SelectTab(index) => {
                self.select_tab(index);
                None
            },
            Action::ToggleDetails => self.toggle_details(),
            Action::ToggleHelp => {
                self.show_help = !self.show_help;
                None
            },
            Action::ToggleDependencyTree => self.toggle_dependency_tree(),
            Action::ToggleOutdatedFilter => {
                self.show_outdated_only = !self.show_outdated_only;
                self.invalidate_filter_cache();
                self.validate_selection();
                None
            },
            Action::EnterSearch => {
                self.input_mode = InputMode::Search;
                self.filter = String::new();
                None
            },
            Action::ExitSearch => {
                self.input_mode = InputMode::Normal;
                None
            },
            Action::SearchInput(c) => {
                self.search_input(c);
                None
            },
            Action::SearchBackspace => {
                let n = self.filter.as_str().unicode_len();
                if n > 0 {
                    let shorter = self.filter.as_str().substring_char(0, n - 1).to_owned();
                    assert(shorter@ =~= without_last(old(self).filter@));
                    self.filter = shorter;
                }
                self.invalidate_filter_cache();
                self.validate_selection();
                None
            },
            Action::UpdateSelected => {
                self.confirm_selected(false);
                None
            },
            Action::UpdateAll => {
                self.ask_confirmation(ConfirmAction::UpdateAll);
                None
            },
            Action::RemoveSelected => {
                self.confirm_selected(true);
                None
            },
            Action::Cleanup => {
                self.ask_confirmation(ConfirmAction::Cleanup);
                None
            },
            Action::TogglePin => self.toggle_pin(),
            Action::Refresh => self.start_load_packages(),
            Action::ConfirmAction => {
                let t = self.execute_pending_action();
                self.pending_action = None;
                self.input_mode = InputMode::Normal;
                t
            },
            Action::CancelAction => {
                self.pending_action = None;
                self.input_mode = InputMode::Normal;
                None
            },
            Action::Noop => None,
        }
    }
}

} // verus!

verus! {

impl App {
    fn set_pin(&mut self, name: &String, pinned: bool)
        requires
            old(self).wf(),
        ensures
            final(self).wf(),
            final(self)@ == (AppState { packages: with_pin(old(self).packages@, name@, pinned), ..old(self)@ }),
    {
        let mut i: usize = 0;
        while i < self.packages.len()
            invariant
                i <= self.packages@.len(),
                self == old(self),
                old(self).wf(),
                first_named(self.packages@, name@) == first_named_from(self.packages@, name@, i as int),
            decreases self.packages@.len() - i,
        {
            if self.packages[i].name == *name {
                let ghost before = self.packages@;
                self.packages[i].pinned = pinned;
                proof {
                    assert(self.packages@ =~= before.update(i as int, Package { pinned, ..before[i as int] }));
                    lemma_pin_keeps_listing(before, self.packages@, i as int, pinned);
                    assert(self.casks@ == old(self).casks@);
                    assert(self.filter_cache == old(self).filter_cache);
                }
                return;
            }
            i += 1;
        }
    }

    /// Applies what polling the running background operation reported;
    /// returns the background work that this starts, if any.
    pub fn poll_operation(&mut self, event: OperationEvent) -> (r: Option<Task>)
        requires
            old(self).wf(),
        ensures
            final(self).wf(),
            (final(self)@, task_view(r)) == after_poll(old(self)@, event),
    {
        proof {
            reveal_strlit("");
        }
        match event {
            OperationEvent::Running => None,
            OperationEvent::Lost => {
                self.loading = false;
                self.status_message = Some("Operation failed unexpectedly".to_owned());
                None
            },
            OperationEvent::Finished(result) => {
                self.loading = false;
                match result {
                    Ok(success) => match success {
                        OperationSuccess::Message(msg) => {
                            self.status_message = Some(msg);
                            self.start_load_packages()
                        },
                        OperationSuccess::PackagesLoaded { packages, casks } => {
                            self.packages = packages;
                            self.casks = casks;
                            self.invalidate_filter_cache();
                            self.status_message = None;
                            self.validate_selection();
                            None
                        },
                        OperationSuccess::PackageInfo(info) => {
                            self.selected_package_info = Some(*info);
                            None
                        },
                        OperationSuccess::PinToggled { name, pinned } => {
                            self.set_pin(&name, pinned);
                            let action = if pinned {
                                "Pinned "
                            } else {
                                "Unpinned "
                            };
                            self.status_message = Some(framed(action, name.as_str(), ""));
                            None
                        },
                        OperationSuccess::DependencyTree(data) => {
                            self.dependency_tree_data = Some(data);
                            self.status_message = None;
                            None
                        },
                    },
                    Err(e) => {
                        self.status_message = Some(framed("Error: ", e.as_str(), ""));
                        None
                    },
                }
            },
        }
    }
}

} // verus!

verus! {

// ---------------------------------------------------------------------------
// Laws
// ---------------------------------------------------------------------------

/// The selection of the active list lies within it (or there is none).
pub open spec fn selection_in_list(s: AppState) -> bool {
    match s.selected() {
        Some(i) => (i as int) < s.current_len(),
        None => true,
    }
}

/// The lists fit in memory: their lengths are machine-sized.
pub open spec fn lists_fit(s: AppState) -> bool {
    s.packages.len() <= usize::MAX && s.casks.len() <= usize::MAX
}

proof fn lemma_indices_len(s: AppState)
    ensures
        s.visible_packages().len() <= s.packages.len(),
        s.visible_casks().len() <= s.casks.len(),
{
    lemma_package_indices_len(s.packages, s.filter, s.show_outdated_only, s.packages.len() as int);
    lemma_cask_indices_len(s.casks, s.filter, s.show_outdated_only, s.casks.len() as int);
}

proof fn lemma_package_indices_len(ps: Seq<Package>, filter: Seq<char>, o: bool, n: int)
    ensures
        package_indices(ps, filter, o, n).len() <= if n < 0 {
            0
        } else {
            n
        },
    decreases n,
{
    if n > 0 {
        lemma_package_indices_len(ps, filter, o, n - 1);
    }
}

proof fn lemma_cask_indices_len(cs: Seq<Cask>, filter: Seq<char>, o: bool, n: int)
    ensures
        cask_indices(cs, filter, o, n).len() <= if n < 0 {
            0
        } else {
            n
        },
    decreases n,
{
    if n > 0 {
        lemma_cask_indices_len(cs, filter, o, n - 1);
    }
}

proof fn lemma_with_selected_keeps_lists(s: AppState, sel: Option<usize>)
    ensures
        s.with_selected(sel).current_len() == s.current_len(),
        s.with_selected(sel).selected() == sel,
        s.with_selected(sel).with_selected(s.selected()) == s,
        s.with_selected(sel).active_tab == s.active_tab,
{
}

/// Moving down and then up returns to the same entry, and so does moving
/// up and then down, whenever an entry of the list is selected.
pub proof fn lemma_next_previous_inverse(s: AppState)
    requires
        lists_fit(s),
        s.selected() is Some,
        selection_in_list(s),
    ensures
        after_previous_item(after_next_item(s)) == s,
        after_next_item(after_previous_item(s)) == s,
{
    lemma_indices_len(s);
    let i = s.selected().unwrap_or(0);
    let len = s.current_len();
    let n = next_index(i, len);
    let p = previous_index(i, len);
    lemma_with_selected_keeps_lists(s, Some(n));
    lemma_with_selected_keeps_lists(s, Some(p));
    assert(previous_index(n, len) == i);
    assert(next_index(p, len) == i);
    lemma_with_selected_keeps_lists(s.with_selected(Some(n)), Some(i));
    lemma_with_selected_keeps_lists(s.with_selected(Some(p)), Some(i));
}

/// Moving down from the last entry wraps to the first; moving up from the
/// first wraps to the last.
pub proof fn lemma_navigation_wraps(s: AppState)
    requires
        lists_fit(s),
        s.current_len() > 0,
    ensures
        s.selected() == Some((s.current_len() - 1) as usize) ==> after_next_item(s).selected()
            == Some(0usize),
        s.selected() == Some(0usize) ==> after_previous_item(s).selected() == Some(
            (s.current_len() - 1) as usize,
        ),
{
    lemma_indices_len(s);
    lemma_with_selected_keeps_lists(s, Some(0));
    lemma_with_selected_keeps_lists(s, Some((s.current_len() - 1) as usize));
}

/// Every move on a non-empty list leaves an entry of it selected, provided
/// the selection was within the list before; moves to the first or last
/// entry, down, and a page down do so from any selection.
pub proof fn lemma_navigation_stays_in_list(s: AppState)
    requires
        lists_fit(s),
        s.current_len() > 0,
    ensures
        selection_in_list(after_next_item(s)) && after_next_item(s).selected() is Some,
        selection_in_list(after_first_item(s)) && after_first_item(s).selected() is Some,
        selection_in_list(after_last_item(s)) && after_last_item(s).selected() is Some,
        selection_in_list(after_page_down(s)) && after_page_down(s).selected() is Some,
        selection_in_list(s) ==> selection_in_list(after_previous_item(s))
            && after_previous_item(s).selected() is Some,
        selection_in_list(s) ==> selection_in_list(after_page_up(s)) && after_page_up(
            s,
        ).selected() is Some,
{
    lemma_indices_len(s);
    lemma_with_selected_keeps_lists(s, Some(next_index(s.selected().unwrap_or(0), s.current_len())));
    lemma_with_selected_keeps_lists(s, Some(previous_index(s.selected().unwrap_or(0), s.current_len())));
    lemma_with_selected_keeps_lists(s, Some(0));
    lemma_with_selected_keeps_lists(s, Some((s.current_len() - 1) as usize));
    lemma_with_selected_keeps_lists(s, Some(page_down_index(s.selected().unwrap_or(0), s.current_len())));
    lemma_with_selected_keeps_lists(s, Some(page_up_index(s.selected().unwrap_or(0))));
}

/// After the selection is checked against the list it lies within the
/// list, and it is cleared exactly when the list is empty.
pub proof fn lemma_validated_selection(s: AppState)
    requires
        lists_fit(s),
    ensures
        selection_in_list(after_validate_selection(s)),
        after_validate_selection(s).current_len() == s.current_len(),
        s.current_len() == 0 ==> after_validate_selection(s).selected() is None,
        selection_in_list(s) && s.current_len() > 0 ==> after_validate_selection(s) == s,
{
    lemma_indices_len(s);
    lemma_with_selected_keeps_lists(s, validated(s.selected(), s.current_len()));
}

/// Switching the tree mode twice, or the help twice, restores the state;
/// switching tabs twice returns to the same tab.
pub proof fn lemma_toggles_undo(s: AppState)
    ensures
        after_action(after_action(s, Action::ToggleHelp).0, Action::ToggleHelp).0 == s,
        s.show_dependency_tree ==> after_action(after_action(s, Action::NextTab).0, Action::NextTab).0
            == s,
        !s.show_dependency_tree ==> after_action(after_action(s, Action::NextTab).0, Action::NextTab).0.active_tab
            == s.active_tab,
        after_action(after_action(s, Action::PreviousTab).0, Action::PreviousTab).0.active_tab
            == s.active_tab,
{
}

/// Typing a character into the search and erasing it restores the search
/// text.
pub proof fn lemma_search_backspace_undoes_input(s: AppState, c: char)
    ensures
        after_action(after_action(s, Action::SearchInput(c)).0, Action::SearchBackspace).0.filter
            == s.filter,
{
    assert(s.filter.push(c).drop_last() =~= s.filter);
    lemma_with_selected_keeps_lists(
        AppState { filter: s.filter.push(c), ..s },
        validated(AppState { filter: s.filter.push(c), ..s }.selected(), AppState { filter: s.filter.push(c), ..s }.current_len()),
    );
}

/// Answering a confirmation either way closes it and returns to normal
/// input.
pub proof fn lemma_confirmation_closes(s: AppState)
    ensures
        after_action(s, Action::ConfirmAction).0.pending_action is None,
        after_action(s, Action::ConfirmAction).0.input_mode == InputMode::Normal,
        after_action(s, Action::CancelAction).0.pending_action is None,
        after_action(s, Action::CancelAction).0.input_mode == InputMode::Normal,
        after_action(s, Action::CancelAction).1 is None,
{
}

/// Only one background operation runs at a time: while one runs, no action
/// starts another; an action that starts one marks the application as busy.
pub proof fn lemma_one_operation_at_a_time(s: AppState, action: Action)
    ensures
        s.loading ==> after_action(s, action).1 is None,
        after_action(s, action).1 is Some ==> !s.loading && after_action(s, action).0.loading,
{
}

/// A finished or lost operation leaves the application idle, except that a
/// finished package operation starts reloading the package lists.
pub proof fn lemma_poll_settles(s: AppState, event: OperationEvent)
    ensures
        event is Running ==> after_poll(s, event) == (s, None::<TaskView>),
        event is Lost ==> !after_poll(s, event).0.loading && after_poll(s, event).1 is None,
        event matches OperationEvent::Finished(r) ==> match r {
            Ok(OperationSuccess::Message(_)) => after_poll(s, event).0.loading
                && after_poll(s, event).1 == Some(TaskView::LoadPackages),
            _ => !after_poll(s, event).0.loading && after_poll(s, event).1 is None,
        },
{
}

/// Switching on the outdated-only filter never adds rows: every formula and
/// every cask listed with it is also listed without it, under the same
/// search text.
pub proof fn lemma_outdated_filter_narrows(ps: Seq<Package>, cs: Seq<Cask>, filter: Seq<char>)
    requires
        ps.len() <= usize::MAX,
        cs.len() <= usize::MAX,
    ensures
        ({
            let narrow = package_indices(ps, filter, true, ps.len() as int);
            let wide = package_indices(ps, filter, false, ps.len() as int);
            forall|k: int| 0 <= k < narrow.len() ==> wide.contains(#[trigger] narrow[k])
        }),
        ({
            let narrow = cask_indices(cs, filter, true, cs.len() as int);
            let wide = cask_indices(cs, filter, false, cs.len() as int);
            forall|k: int| 0 <= k < narrow.len() ==> wide.contains(#[trigger] narrow[k])
        }),
{
    let n = ps.len() as int;
    lemma_package_indices(ps, filter, true, n);
    lemma_package_indices(ps, filter, false, n);
    let narrow = package_indices(ps, filter, true, n);
    assert forall|k: int| 0 <= k < narrow.len() implies package_indices(
        ps,
        filter,
        false,
        n,
    ).contains(#[trigger] narrow[k]) by {
        let i = narrow[k] as int;
        assert(package_matches(ps[i], filter, true));
        assert(package_matches(ps[i], filter, false));
        assert(i as usize == narrow[k]);
    }
    let m = cs.len() as int;
    lemma_cask_indices(cs, filter, true, m);
    lemma_cask_indices(cs, filter, false, m);
    let narrow_c = cask_indices(cs, filter, true, m);
    assert forall|k: int| 0 <= k < narrow_c.len() implies cask_indices(
        cs,
        filter,
        false,
        m,
    ).contains(#[trigger] narrow_c[k]) by {
        let i = narrow_c[k] as int;
        assert(cask_matches(cs[i], filter, true));
        assert(cask_matches(cs[i], filter, false));
        assert(i as usize == narrow_c[k]);
    }
}

/// Where the lowercased longer search text begins with the lowercased
/// shorter one, a text that the longer search matches the shorter one
/// matches too.
proof fn lemma_search_matches_narrow(text: Seq<char>, f1: Seq<char>, f2: Seq<char>)
    requires
        lowercase_of(f1).is_prefix_of(lowercase_of(f2)),
        search_matches(text, f2),
    ensures
        search_matches(text, f1),
{
    let hay = lowercase_of(text);
    let l1 = lowercase_of(f1);
    let l2 = lowercase_of(f2);
    let i = choose|i: int| occurs_at(hay, l2, i);
    assert(hay.subrange(i, i + l1.len()) =~= l2.subrange(0, l1.len() as int)) by {
        assert forall|j: int| 0 <= j < l1.len() implies hay.subrange(i, i + l1.len())[j]
            == l2.subrange(0, l1.len() as int)[j] by {
            assert(hay.subrange(i, i + l2.len())[j] == l2[j]);
        }
    }
    assert(occurs_at(hay, l1, i));
}

/// The entries that the search `f2` lists are listed by the search `f1`
/// too, when the lowercased `f2` begins with the lowercased `f1` and `f2` is
/// not empty.
proof fn lemma_matches_narrow(f1: Seq<char>, f2: Seq<char>, outdated_only: bool)
    requires
        lowercase_of(f1).is_prefix_of(lowercase_of(f2)),
        f2.len() > 0,
    ensures
        forall|p: Package|
            #[trigger] package_matches(p, f2, outdated_only) ==> package_matches(
                p,
                f1,
                outdated_only,
            ),
        forall|c: Cask|
            #[trigger] cask_matches(c, f2, outdated_only) ==> cask_matches(c, f1, outdated_only),
{
    assert forall|p: Package| #[trigger] package_matches(p, f2, outdated_only) implies package_matches(
        p,
        f1,
        outdated_only,
    ) by {
        if f1.len() > 0 {
            if search_matches(p.name@, f2) {
                lemma_search_matches_narrow(p.name@, f1, f2);
            } else {
                let d = p.desc->0;
                lemma_search_matches_narrow(d@, f1, f2);
            }
        }
    }
    assert forall|c: Cask| #[trigger] cask_matches(c, f2, outdated_only) implies cask_matches(
        c,
        f1,
        outdated_only,
    ) by {
        if f1.len() > 0 {
            if search_matches(c.token@, f2) {
                lemma_search_matches_narrow(c.token@, f1, f2);
            } else if exists|i: int| 0 <= i < c.name@.len() && #[trigger] search_matches(c.name@[i]@, f2) {
                let i = choose|i: int| 0 <= i < c.name@.len() && #[trigger] search_matches(c.name@[i]@, f2);
                lemma_search_matches_narrow(c.name@[i]@, f1, f2);
            } else {
                let d = c.desc->0;
                lemma_search_matches_narrow(d@, f1, f2);
            }
        }
    }
}

/// Every formula and cask that the state `t` lists is listed in the state
/// `s`.
pub open spec fn lists_narrowed(s: AppState, t: AppState) -> bool {
    &&& forall|k: int|
        0 <= k < t.visible_packages().len() ==> s.visible_packages().contains(
            #[trigger] t.visible_packages()[k],
        )
    &&& forall|k: int|
        0 <= k < t.visible_casks().len() ==> s.visible_casks().contains(
            #[trigger] t.visible_casks()[k],
        )
}

/// Typing a character into the search never adds rows, provided the
/// lowercased search text so far is the beginning of the lowercased longer
/// one (which lowercasing guarantees when the text so far holds no capital
/// sigma): every formula and cask listed after the keystroke was listed
/// before it.
pub proof fn lemma_search_input_narrows(s: AppState, c: char)
    requires
        lists_fit(s),
        lowercase_of(s.filter).is_prefix_of(lowercase_of(s.filter.push(c))),
    ensures
        lists_narrowed(s, after_action(s, Action::SearchInput(c)).0),
{
    let f2 = s.filter.push(c);
    let t = AppState { filter: f2, ..s };
    lemma_with_selected_keeps_lists(t, validated(t.selected(), t.current_len()));
    let o = s.show_outdated_only;
    lemma_matches_narrow(s.filter, f2, o);
    let n = s.packages.len() as int;
    lemma_package_indices(s.packages, s.filter, o, n);
    lemma_package_indices(s.packages, f2, o, n);
    let narrow = package_indices(s.packages, f2, o, n);
    assert forall|k: int| 0 <= k < narrow.len() implies package_indices(
        s.packages,
        s.filter,
        o,
        n,
    ).contains(#[trigger] narrow[k]) by {
        let i = narrow[k] as int;
        assert(package_matches(s.packages[i], f2, o));
        assert(package_matches(s.packages[i], s.filter, o));
    }
    let m = s.casks.len() as int;
    lemma_cask_indices(s.casks, s.filter, o, m);
    lemma_cask_indices(s.casks, f2, o, m);
    let narrow_c = cask_indices(s.casks, f2, o, m);
    assert forall|k: int| 0 <= k < narrow_c.len() implies cask_indices(
        s.casks,
        s.filter,
        o,
        m,
    ).contains(#[trigger] narrow_c[k]) by {
        let i = narrow_c[k] as int;
        assert(cask_matches(s.casks[i], f2, o));
        assert(cask_matches(s.casks[i], s.filter, o));
    }
}

proof fn lemma_first_named_from(ps: Seq<Package>, name: Seq<char>, i: int)
    requires
        0 <= i,
    ensures
        first_named_from(ps, name, i) matches Some(k) ==> i <= k < ps.len() && ps[k].name@ == name,
    decreases ps.len() - i,
{
    if i < ps.len() && ps[i].name@ != name {
        lemma_first_named_from(ps, name, i + 1);
    }
}

/// After a pin change is reported, the formula it names shows the reported
/// pin, and nothing else about the lists changes.
pub proof fn lemma_pin_reported(s: AppState, name: String, pinned: bool)
    ensures
        ({
            let t = after_poll(
                s,
                OperationEvent::Finished(Ok(OperationSuccess::PinToggled { name, pinned })),
            ).0;
            &&& t.packages.len() == s.packages.len()
            &&& first_named(s.packages, name@) is Some ==> pinned_named(t.packages, name@) == pinned
            &&& t.casks == s.casks
            &&& t.visible_packages() == s.visible_packages()
        }),
{
    lemma_first_named_from(s.packages, name@, 0);
    match first_named(s.packages, name@) {
        Some(i) => {
            let qs = s.packages.update(i, Package { pinned, ..s.packages[i] });
            lemma_pin_keeps_listing(s.packages, qs, i, pinned);
            assert(first_named_from(qs, name@, 0) == Some(i)) by {
                lemma_first_named_same_names(s.packages, qs, name@, 0);
            }
        },
        None => {},
    }
}

proof fn lemma_first_named_same_names(a: Seq<Package>, b: Seq<Package>, name: Seq<char>, i: int)
    requires
        a.len() == b.len(),
        forall|j: int| 0 <= j < a.len() ==> a[j].name == b[j].name,
    ensures
        first_named_from(a, name, i) == first_named_from(b, name, i),
    decreases a.len() - i,
{
    if 0 <= i < a.len() && a[i].name@ != name {
        lemma_first_named_same_names(a, b, name, i + 1);
    }
}

} // verus!

verus! {

// ---------------------------------------------------------------------------
// Laws: what the lists show and what each action does
// ---------------------------------------------------------------------------

/// A formula is in the list exactly when it passes the outdated switch and,
/// for a non-empty search text, the lowercased search text occurs in its
/// lowercased name or description.
pub proof fn lemma_formula_listed_iff(s: AppState, i: int)
    requires
        lists_fit(s),
        0 <= i < s.packages.len(),
    ensures
        s.visible_packages().contains(i as usize) <==> {
            let p = s.packages[i];
            let f = lowercase_of(s.filter);
            &&& (!s.show_outdated_only || p.outdated)
            &&& (s.filter.len() == 0 || occurs_in(lowercase_of(p.name@), f) || (p.desc matches Some(
                d,
            ) && occurs_in(lowercase_of(d@), f)))
        },
{
    let n = s.packages.len() as int;
    lemma_package_indices(s.packages, s.filter, s.show_outdated_only, n);
    let idx = s.visible_packages();
    if idx.contains(i as usize) {
        let k = choose|k: int| 0 <= k < idx.len() && idx[k] == i as usize;
        assert(package_matches(s.packages[idx[k] as int], s.filter, s.show_outdated_only));
    }
    if package_matches(s.packages[i], s.filter, s.show_outdated_only) {
        assert(idx.contains(i as usize));
    }
}

/// A cask is in the list exactly when it passes the outdated switch and,
/// for a non-empty search text, the lowercased search text occurs in its
/// lowercased token, in one of its lowercased names, or in its lowercased
/// description.
pub proof fn lemma_cask_listed_iff(s: AppState, i: int)
    requires
        lists_fit(s),
        0 <= i < s.casks.len(),
    ensures
        s.visible_casks().contains(i as usize) <==> {
            let c = s.casks[i];
            let f = lowercase_of(s.filter);
            &&& (!s.show_outdated_only || c.outdated)
            &&& (s.filter.len() == 0 || occurs_in(lowercase_of(c.token@), f) || (exists|j: int|
                0 <= j < c.name@.len() && occurs_in(#[trigger] lowercase_of(c.name@[j]@), f)) || (
            c.desc matches Some(d) && occurs_in(lowercase_of(d@), f)))
        },
{
    let n = s.casks.len() as int;
    lemma_cask_indices(s.casks, s.filter, s.show_outdated_only, n);
    let idx = s.visible_casks();
    let c = s.casks[i];
    let f = lowercase_of(s.filter);
    assert((exists|j: int|
        0 <= j < c.name@.len() && occurs_in(#[trigger] lowercase_of(c.name@[j]@), f)) <==> (
    exists|j: int| 0 <= j < c.name@.len() && #[trigger] search_matches(c.name@[j]@, s.filter))) by {
        if exists|j: int| 0 <= j < c.name@.len() && occurs_in(#[trigger] lowercase_of(c.name@[j]@), f) {
            let j = choose|j: int| 0 <= j < c.name@.len() && occurs_in(#[trigger] lowercase_of(c.name@[j]@), f);
            assert(search_matches(c.name@[j]@, s.filter));
        }
        if exists|j: int| 0 <= j < c.name@.len() && #[trigger] search_matches(c.name@[j]@, s.filter) {
            let j = choose|j: int| 0 <= j < c.name@.len() && #[trigger] search_matches(c.name@[j]@, s.filter);
            assert(occurs_in(lowercase_of(c.name@[j]@), f));
        }
    }
    if idx.contains(i as usize) {
        let k = choose|k: int| 0 <= k < idx.len() && idx[k] == i as usize;
        assert(cask_matches(s.casks[idx[k] as int], s.filter, s.show_outdated_only));
    }
    if cask_matches(s.casks[i], s.filter, s.show_outdated_only) {
        assert(idx.contains(i as usize));
    }
}

/// Entering the search starts from an empty search text in search mode;
/// leaving it keeps the text and returns to normal mode; typing appends the
/// character and backspace removes the last one. None of them changes the
/// package lists or starts work.
pub proof fn lemma_search_editing(s: AppState, c: char)
    ensures
        after_action(s, Action::EnterSearch).0.filter == Seq::<char>::empty(),
        after_action(s, Action::EnterSearch).0.input_mode == InputMode::Search,
        after_action(s, Action::EnterSearch).0.packages == s.packages,
        after_action(s, Action::EnterSearch).1 is None,
        after_action(s, Action::ExitSearch).0.filter == s.filter,
        after_action(s, Action::ExitSearch).0.input_mode == InputMode::Normal,
        after_action(s, Action::SearchInput(c)).0.filter == s.filter.push(c),
        after_action(s, Action::SearchInput(c)).0.packages == s.packages,
        after_action(s, Action::SearchInput(c)).0.casks == s.casks,
        after_action(s, Action::SearchInput(c)).1 is None,
        s.filter.len() > 0 ==> after_action(s, Action::SearchBackspace).0.filter == s.filter.subrange(
            0,
            s.filter.len() - 1,
        ),
        s.filter.len() == 0 ==> after_action(s, Action::SearchBackspace).0.filter.len() == 0,
{
    let t = AppState { filter: s.filter.push(c), ..s };
    lemma_with_selected_keeps_lists(t, validated(t.selected(), t.current_len()));
    let u = AppState { filter: without_last(s.filter), ..s };
    lemma_with_selected_keeps_lists(u, validated(u.selected(), u.current_len()));
}

/// Each step of the selection in a list of `len > 0` entries, from entry
/// `i` inside it: down goes to `i + 1` or wraps to 0, up goes to `i - 1` or
/// wraps to the last, a page down goes ten further but not past the last,
/// a page up ten back but not before the first, and home and end go to the
/// first and last entry.
pub proof fn lemma_selection_steps(s: AppState)
    requires
        lists_fit(s),
        s.current_len() > 0,
        s.selected() is Some,
        selection_in_list(s),
    ensures
        ({
            let i = s.selected()->0 as int;
            let len = s.current_len() as int;
            &&& after_action(s, Action::NextItem).0.selected() == Some(
                (if i + 1 < len {
                    i + 1
                } else {
                    0
                }) as usize,
            )
            &&& after_action(s, Action::PreviousItem).0.selected() == Some(
                (if i > 0 {
                    i - 1
                } else {
                    len - 1
                }) as usize,
            )
            &&& after_action(s, Action::PageDown).0.selected() == Some(
                (if i + 10 < len {
                    i + 10
                } else {
                    len - 1
                }) as usize,
            )
            &&& after_action(s, Action::PageUp).0.selected() == Some(
                (if i >= 10 {
                    i - 10
                } else {
                    0
                }) as usize,
            )
            &&& after_action(s, Action::FirstItem).0.selected() == Some(0usize)
            &&& after_action(s, Action::LastItem).0.selected() == Some((len - 1) as usize)
            &&& after_action(s, Action::NextItem).0.packages == s.packages
            &&& after_action(s, Action::NextItem).0.active_tab == s.active_tab
        }),
{
    lemma_indices_len(s);
    let i = s.selected()->0;
    let len = s.current_len();
    lemma_with_selected_keeps_lists(s, Some(next_index(i, len)));
    lemma_with_selected_keeps_lists(s, Some(previous_index(i, len)));
    lemma_with_selected_keeps_lists(s, Some(page_down_index(i, len)));
    lemma_with_selected_keeps_lists(s, Some(page_up_index(i)));
    lemma_with_selected_keeps_lists(s, Some(0));
    lemma_with_selected_keeps_lists(s, Some((len - 1) as usize));
}

/// What the other actions do: quitting, the switches, tab choice, the
/// confirmations asked for and how they are answered, and refreshing.
pub proof fn lemma_action_effects(s: AppState, index: usize)
    ensures
        after_action(s, Action::Quit).0.should_quit,
        after_action(s, Action::Quit).1 is None,
        after_action(s, Action::ToggleHelp).0.show_help == !s.show_help,
        after_action(s, Action::ToggleOutdatedFilter).0.show_outdated_only == !s.show_outdated_only,
        after_action(s, Action::ToggleOutdatedFilter).0.filter == s.filter,
        after_action(s, Action::SelectTab(index)).0.active_tab == (if index == 0 {
            Tab::Formulae
        } else {
            Tab::Casks
        }),
        after_action(s, Action::SelectTab(index)).0.selected_package_info is None,
        !s.show_dependency_tree ==> after_action(s, Action::NextTab).0.active_tab != s.active_tab,
        s.show_dependency_tree ==> after_action(s, Action::NextTab).0.active_tab == s.active_tab
            && after_action(s, Action::NextTab).0.dependency_tree_mode != s.dependency_tree_mode,
        after_action(s, Action::UpdateAll).0.pending_action == Some(ConfirmActionView::UpdateAll),
        after_action(s, Action::UpdateAll).0.input_mode == InputMode::Confirm,
        after_action(s, Action::UpdateAll).1 is None,
        after_action(s, Action::Cleanup).0.pending_action == Some(ConfirmActionView::Cleanup),
        after_action(s, Action::Cleanup).0.input_mode == InputMode::Confirm,
        s.selected_name() matches Some(name) ==> after_action(s, Action::UpdateSelected).0.pending_action
            == Some(ConfirmActionView::Update { name, is_cask: s.active_tab == Tab::Casks })
            && after_action(s, Action::UpdateSelected).0.input_mode == InputMode::Confirm,
        s.selected_name() matches Some(name) ==> after_action(s, Action::RemoveSelected).0.pending_action
            == Some(ConfirmActionView::Remove { name, is_cask: s.active_tab == Tab::Casks })
            && after_action(s, Action::RemoveSelected).0.input_mode == InputMode::Confirm,
        s.selected_name() is None ==> after_action(s, Action::UpdateSelected).0 == s
            && after_action(s, Action::RemoveSelected).0 == s,
        s.pending_action matches Some(a) ==> (!s.loading ==> after_action(s, Action::ConfirmAction).1
            == Some(TaskView::Run(a)) && after_action(s, Action::ConfirmAction).0.loading),
        s.pending_action is None ==> after_action(s, Action::ConfirmAction).1 is None,
        after_action(s, Action::CancelAction).0.pending_action is None,
        !s.loading ==> after_action(s, Action::Refresh).1 == Some(TaskView::LoadPackages)
            && after_action(s, Action::Refresh).0.loading,
        after_action(s, Action::Noop) == (s, None::<TaskView>),
{
    let t = AppState { show_outdated_only: !s.show_outdated_only, ..s };
    lemma_with_selected_keeps_lists(t, validated(t.selected(), t.current_len()));
}

/// What a finished operation brings: new package lists replace the old ones
/// and clear the status; details and a dependency tree are kept for display;
/// after a package operation the lists are reloaded, which the status then
/// shows; an error is shown after "Error: ".
pub proof fn lemma_poll_effects(s: AppState, result: OperationResult)
    requires
        lists_fit(s),
    ensures
        ({
            let t = after_poll(s, OperationEvent::Finished(result)).0;
            &&& result matches Ok(OperationSuccess::PackagesLoaded { packages, casks }) ==> {
                &&& t.packages == packages@
                &&& t.casks == casks@
                &&& t.status_message is None
                &&& !t.loading
                &&& selection_in_list(t)
            }
            &&& result matches Ok(OperationSuccess::Message(_)) ==> t.status_message == Some(
                "Loading packages..."@,
            ) && t.loading
            &&& result matches Ok(OperationSuccess::PackageInfo(info)) ==> t.selected_package_info
                == Some(*info) && !t.loading
            &&& result matches Ok(OperationSuccess::DependencyTree(data)) ==> t.dependency_tree_data
                == Some(data) && t.status_message is None && !t.loading
            &&& result matches Err(e) ==> t.status_message == Some("Error: "@ + e@) && !t.loading
                && t.packages == s.packages
        }),
{
    match result {
        Ok(OperationSuccess::PackagesLoaded { packages, casks }) => {
            let u = AppState {
                packages: packages@,
                casks: casks@,
                status_message: None,
                loading: false,
                ..s
            };
            assert(packages.len() == packages@.len());
            assert(casks.len() == casks@.len());
            lemma_validated_selection(u);
        },
        _ => {},
    }
}

/// Opening the details of the selected package starts loading them (when
/// nothing else runs) and closing them forgets them; opening the dependency
/// tree closes the details and starts loading the tree of the selected
/// package, and closing it forgets the tree. Pinning asks to pin a formula
/// that is not pinned and to unpin one that is; casks are never pinned.
pub proof fn lemma_toggle_effects(s: AppState)
    ensures
        after_action(s, Action::ToggleDetails).0.show_details == !s.show_details,
        s.show_details ==> after_action(s, Action::ToggleDetails).0.selected_package_info is None
            && after_action(s, Action::ToggleDetails).1 is None,
        !s.show_details && !s.loading && s.selected_name() is Some ==> after_action(
            s,
            Action::ToggleDetails,
        ).1 == Some(TaskView::LoadDetails { name: s.selected_name()->0 }),
        after_action(s, Action::ToggleDependencyTree).0.show_dependency_tree
            == !s.show_dependency_tree,
        s.show_dependency_tree ==> after_action(s, Action::ToggleDependencyTree).0.dependency_tree_data
            is None && after_action(s, Action::ToggleDependencyTree).1 is None,
        !s.show_dependency_tree ==> !after_action(s, Action::ToggleDependencyTree).0.show_details,
        !s.show_dependency_tree && !s.loading && s.selected_name() is Some ==> after_action(
            s,
            Action::ToggleDependencyTree,
        ).1 == Some(TaskView::LoadDependencyTree { name: s.selected_name()->0 }),
        s.active_tab == Tab::Casks ==> after_action(s, Action::TogglePin) == (s, None::<TaskView>),
        s.active_tab == Tab::Formulae && !s.loading && s.selected_name() is Some ==> after_action(
            s,
            Action::TogglePin,
        ).1 == Some(
            if pinned_named(s.packages, s.selected_name()->0) {
                TaskView::Unpin { name: s.selected_name()->0 }
            } else {
                TaskView::Pin { name: s.selected_name()->0 }
            },
        ),
{
}


/// When work starts, the status says what is being done, naming the package
/// where there is one.
pub proof fn lemma_work_status(s: AppState)
    ensures
        !s.loading ==> after_action(s, Action::Refresh).0.status_message == Some(
            "Loading packages..."@,
        ),
        !s.show_details && !s.loading && s.selected_name() is Some ==> after_action(
            s,
            Action::ToggleDetails,
        ).0.status_message == Some("Loading details for "@ + s.selected_name()->0 + "..."@),
        !s.show_dependency_tree && !s.loading && s.selected_name() is Some ==> after_action(
            s,
            Action::ToggleDependencyTree,
        ).0.status_message == Some("Loading dependencies for "@ + s.selected_name()->0 + "..."@),
        s.active_tab == Tab::Formulae && !s.loading && s.selected_name() is Some ==> after_action(
            s,
            Action::TogglePin,
        ).0.status_message == Some(
            (if pinned_named(s.packages, s.selected_name()->0) {
                "Unpinning "@
            } else {
                "Pinning "@
            }) + s.selected_name()->0 + "..."@,
        ),
        s.pending_action matches Some(a) ==> (!s.loading ==> after_action(
            s,
            Action::ConfirmAction,
        ).0.status_message == Some(progress_message(a))),
        s.loading ==> after_action(s, Action::Refresh).0 == s,
{
}


} // verus!
