//! What each part of the screen shows, computed from the application state
//! as plain text and choices; drawing it is left to the terminal front end.

use vstd::prelude::*;

use crate::actions::{confirm_message, ConfirmActionView};
use crate::app::{App, AppState, DependencyTreeMode, InputMode, Tab, pending_view, spinner_frames};
use crate::text::{
    decimal, decimal_string, highlight_match, highlight_of, join, joined, lowercase_of, starts_with,
    to_lowercase, truncate_string, truncated, views, Highlight,
};
use crate::types::{
    text_or_empty, Cask, Package, PackageDisplay, PackageInfo, DESC_TRUNCATE_LEN, STATUS_CURRENT,
    STATUS_OUTDATED, STATUS_PINNED, SYMBOL_CURRENT, SYMBOL_OUTDATED, SYMBOL_PINNED,
};

verus! {

// ---------------------------------------------------------------------------
// Package list
// ---------------------------------------------------------------------------

/// One row of the package list.
pub struct ListRow {
    /// The name shown.
    pub name: String,
    /// How the name shows the search match.
    pub highlight: Highlight,
    /// The version shown.
    pub version: String,
    /// The status label, which decides the colour of the status cell.
    pub status: String,
    /// The status cell: symbol, space, status label.
    pub status_text: String,
    /// The description, truncated.
    pub description: String,
    /// Odd rows take the alternate background.
    pub alternate: bool,
}

/// The status symbol of a formula.
pub open spec fn formula_symbol(p: Package) -> Seq<char> {
    if p.pinned {
        SYMBOL_PINNED@
    } else if p.outdated {
        SYMBOL_OUTDATED@
    } else {
        SYMBOL_CURRENT@
    }
}

/// The status symbol of a cask.
pub open spec fn cask_symbol(c: Cask) -> Seq<char> {
    if c.outdated {
        SYMBOL_OUTDATED@
    } else {
        SYMBOL_CURRENT@
    }
}

/// Row `k` of the formulae list shows formula `p`.
pub open spec fn formula_row(row: ListRow, p: Package, filter_lower: Seq<char>, k: int) -> bool {
    &&& row.name@ == p.name@
    &&& row.highlight@ == highlight_of(p.name@, filter_lower)
    &&& row.version@ == p.version_text()
    &&& row.status@ == p.status_text()
    &&& row.status_text@ == formula_symbol(p) + " "@ + p.status_text()
    &&& row.description@ == truncated(text_or_empty(p.desc), DESC_TRUNCATE_LEN as int)
    &&& row.alternate == (k % 2 == 1)
}

/// Row `k` of the casks list shows cask `c`.
pub open spec fn cask_row(row: ListRow, c: Cask, filter_lower: Seq<char>, k: int) -> bool {
    &&& row.name@ == c.name_text()
    &&& row.highlight@ == highlight_of(c.name_text(), filter_lower)
    &&& row.version@ == c.version@
    &&& row.status@ == c.status_text()
    &&& row.status_text@ == cask_symbol(c) + " "@ + c.status_text()
    &&& row.description@ == truncated(text_or_empty(c.desc), DESC_TRUNCATE_LEN as int)
    &&& row.alternate == (k % 2 == 1)
}

/// The rows list every entry of the active tab's list, in order.
pub open spec fn rows_show_list(rows: Seq<ListRow>, s: AppState) -> bool {
    let filter_lower = lowercase_of(s.filter);
    match s.active_tab {
        Tab::Formulae => {
            &&& rows.len() == s.visible_packages().len()
            &&& forall|k: int|
                0 <= k < rows.len() ==> #[trigger] formula_row(
                    rows[k],
                    s.packages[s.visible_packages()[k] as int],
                    filter_lower,
                    k,
                )
        },
        Tab::Casks => {
            &&& rows.len() == s.visible_casks().len()
            &&& forall|k: int|
                0 <= k < rows.len() ==> #[trigger] cask_row(
                    rows[k],
                    s.casks[s.visible_casks()[k] as int],
                    filter_lower,
                    k,
                )
        },
    }
}

fn symbol_text(symbol: &str, status: &str) -> (r: String)
    ensures
        r@ == symbol@ + " "@ + status@,
{
    let mut r = symbol.to_owned();
    r.append(" ");
    r.append(status);
    r
}

fn formula_list_row(p: &Package, filter_lower: &str, k: usize) -> (r: ListRow)
    ensures
        formula_row(r, *p, filter_lower@, k as int),
{
    let symbol = if p.pinned {
        SYMBOL_PINNED
    } else if p.outdated {
        SYMBOL_OUTDATED
    } else {
        SYMBOL_CURRENT
    };
    let status = p.status_display();
    ListRow {
        name: p.name.clone(),
        highlight: highlight_match(p.name.as_str(), filter_lower),
        version: p.display_version().to_owned(),
        status: status.to_owned(),
        status_text: symbol_text(symbol, status),
        description: truncate_string(p.display_description(), DESC_TRUNCATE_LEN),
        alternate: k % 2 == 1,
    }
}

fn cask_list_row(c: &Cask, filter_lower: &str, k: usize) -> (r: ListRow)
    ensures
        cask_row(r, *c, filter_lower@, k as int),
{
    let symbol = if c.outdated {
        SYMBOL_OUTDATED
    } else {
        SYMBOL_CURRENT
    };
    let status = c.status_display();
    let name = c.display_name();
    ListRow {
        name: name.to_owned(),
        highlight: highlight_match(name, filter_lower),
        version: c.display_version().to_owned(),
        status: status.to_owned(),
        status_text: symbol_text(symbol, status),
        description: truncate_string(c.display_description(), DESC_TRUNCATE_LEN),
        alternate: k % 2 == 1,
    }
}

impl App {
    /// The rows of the package list of the active tab.
    pub fn list_rows(&mut self) -> (r: Vec<ListRow>)
        requires
            old(self).wf(),
        ensures
            final(self).wf(),
            final(self)@ == old(self)@,
            rows_show_list(r@, old(self)@),
    {
        let filter_lower = to_lowercase(self.filter.as_str());
        let mut rows: Vec<ListRow> = Vec::new();
        match self.active_tab {
            Tab::Formulae => {
                let ghost s = self@;
                let packages = self.filtered_packages();
                let mut k: usize = 0;
                while k < packages.len()
                    invariant
                        k <= packages@.len(),
                        packages@.len() == s.visible_packages().len(),
                        forall|j: int|
                            0 <= j < packages@.len() ==> *packages@[j] == s.packages[s.visible_packages()[j] as int],
                        filter_lower@ == lowercase_of(s.filter),
                        rows@.len() == k,
                        forall|j: int|
                            0 <= j < k ==> #[trigger] formula_row(
                                rows@[j],
                                s.packages[s.visible_packages()[j] as int],
                                filter_lower@,
                                j,
                            ),
                    decreases packages@.len() - k,
                {
                    rows.push(formula_list_row(packages[k], filter_lower.as_str(), k));
                    k += 1;
                }
            },
            Tab::Casks => {
                let ghost s = self@;
                let casks = self.filtered_casks();
                let mut k: usize = 0;
                while k < casks.len()
                    invariant
                        k <= casks@.len(),
                        casks@.len() == s.visible_casks().len(),
                        forall|j: int|
                            0 <= j < casks@.len() ==> *casks@[j] == s.casks[s.visible_casks()[j] as int],
                        filter_lower@ == lowercase_of(s.filter),
                        rows@.len() == k,
                        forall|j: int|
                            0 <= j < k ==> #[trigger] cask_row(
                                rows@[j],
                                s.casks[s.visible_casks()[j] as int],
                                filter_lower@,
                                j,
                            ),
                    decreases casks@.len() - k,
                {
                    rows.push(cask_list_row(casks[k], filter_lower.as_str(), k));
                    k += 1;
                }
            },
        }
        rows
    }
}

/// Which theme colour a status label is drawn in.
#[derive(Debug, Clone, Copy, PartialEq, Eq, Structural)]
pub enum StatusTone {
    Current,
    Outdated,
    Pinned,
    /// Any other text: the ordinary foreground colour.
    Plain,
}

/// The colour of a status label: one per known label, the plain colour
/// for anything else.
pub open spec fn tone_of(status: Seq<char>) -> StatusTone {
    if status == STATUS_CURRENT@ {
        StatusTone::Current
    } else if status == STATUS_OUTDATED@ {
        StatusTone::Outdated
    } else if status == STATUS_PINNED@ {
        StatusTone::Pinned
    } else {
        StatusTone::Plain
    }
}

fn same_text(a: &str, b: &str) -> (r: bool)
    ensures
        r == (a@ == b@),
{
    proof {
        assert(a@.take(a@.len() as int) =~= a@);
        assert(b@.take(b@.len() as int) =~= b@);
    }
    let r = starts_with(a, b) && starts_with(b, a);
    proof {
        if r {
            assert(a@ =~= b@);
        }
    }
    r
}

/// The colour a status label is drawn in.
pub fn status_tone(status: &str) -> (r: StatusTone)
    ensures
        r == tone_of(status@),
{
    if same_text(status, STATUS_CURRENT) {
        StatusTone::Current
    } else if same_text(status, STATUS_OUTDATED) {
        StatusTone::Outdated
    } else if same_text(status, STATUS_PINNED) {
        StatusTone::Pinned
    } else {
        StatusTone::Plain
    }
}

// ---------------------------------------------------------------------------
// Tabs and layout
// ---------------------------------------------------------------------------

/// How the content area is divided.
#[derive(Debug, Clone, Copy, PartialEq, Eq, Structural)]
pub enum ContentLayout {
    /// The package list alone.
    List,
    /// The package list beside the details panel.
    ListWithDetails,
    /// The package list beside the dependency tree.
    ListWithTree,
}

/// What is drawn over the screen.
pub enum Overlay {
    Nothing,
    /// The confirmation popup with its question.
    Confirm(String),
    Help,
}

/// The details panel takes precedence over the dependency tree.
pub open spec fn layout_of(s: AppState) -> ContentLayout {
    if s.show_details {
        ContentLayout::ListWithDetails
    } else if s.show_dependency_tree {
        ContentLayout::ListWithTree
    } else {
        ContentLayout::List
    }
}

/// A confirmation takes precedence over help; while a confirmation is
/// asked, help is not shown even without a pending operation.
pub open spec fn overlay_of(s: AppState) -> Option<Option<Seq<char>>> {
    if s.input_mode == InputMode::Confirm {
        match s.pending_action {
            Some(a) => Some(Some(confirm_message(a))),
            None => None,
        }
    } else if s.show_help {
        Some(None)
    } else {
        None
    }
}

/// The view of an overlay: none, a confirmation question, or help.
pub open spec fn overlay_view(o: Overlay) -> Option<Option<Seq<char>>> {
    match o {
        Overlay::Nothing => None,
        Overlay::Confirm(m) => Some(Some(m@)),
        Overlay::Help => Some(None),
    }
}

impl App {
    /// Position of the active tab among the tabs.
    pub fn selected_tab_index(&self) -> (r: usize)
        ensures
            r == (if self.active_tab == Tab::Formulae {
                0usize
            } else {
                1usize
            }),
    {
        match self.active_tab {
            Tab::Formulae => 0,
            Tab::Casks => 1,
        }
    }

    /// How the content area is divided.
    pub fn content_layout(&self) -> (r: ContentLayout)
        ensures
            r == layout_of(self@),
    {
        if self.show_details {
            ContentLayout::ListWithDetails
        } else if self.show_dependency_tree {
            ContentLayout::ListWithTree
        } else {
            ContentLayout::List
        }
    }

    /// What is drawn over the screen.
    pub fn overlay(&self) -> (r: Overlay)
        ensures
            overlay_view(r) == overlay_of(self@),
    {
        if self.input_mode == InputMode::Confirm {
            match &self.pending_action {
                Some(a) => Overlay::Confirm(a.message()),
                None => Overlay::Nothing,
            }
        } else if self.show_help {
            Overlay::Help
        } else {
            Overlay::Nothing
        }
    }
}

// ---------------------------------------------------------------------------
// Status bar
// ---------------------------------------------------------------------------

/// Number of outdated formulae.
pub open spec fn outdated_formulae(ps: Seq<Package>) -> nat
    decreases ps.len(),
{
    if ps.len() == 0 {
        0
    } else {
        outdated_formulae(ps.drop_last()) + if ps.last().outdated {
            1nat
        } else {
            0nat
        }
    }
}

/// Number of outdated casks.
pub open spec fn outdated_casks(cs: Seq<Cask>) -> nat
    decreases cs.len(),
{
    if cs.len() == 0 {
        0
    } else {
        outdated_casks(cs.drop_last()) + if cs.last().outdated {
            1nat
        } else {
            0nat
        }
    }
}

/// There are never more outdated formulae than formulae.
pub proof fn lemma_outdated_formulae_bound(ps: Seq<Package>)
    ensures
        outdated_formulae(ps) <= ps.len(),
    decreases ps.len(),
{
    if ps.len() > 0 {
        lemma_outdated_formulae_bound(ps.drop_last());
    }
}

/// There are never more outdated casks than casks.
pub proof fn lemma_outdated_casks_bound(cs: Seq<Cask>)
    ensures
        outdated_casks(cs) <= cs.len(),
    decreases cs.len(),
{
    if cs.len() > 0 {
        lemma_outdated_casks_bound(cs.drop_last());
    }
}

/// The outdated count of the status bar is the number of outdated formulae:
/// the length of the list of those formulae that are outdated.
pub proof fn lemma_outdated_formulae_count(ps: Seq<Package>)
    ensures
        outdated_formulae(ps) == ps.filter(|p: Package| p.outdated).len(),
    decreases ps.len(),
{
    reveal_with_fuel(Seq::filter, 1);
    if ps.len() > 0 {
        lemma_outdated_formulae_count(ps.drop_last());
    }
}

/// The outdated count of the status bar is the number of outdated casks:
/// the length of the list of those casks that are outdated.
pub proof fn lemma_outdated_casks_count(cs: Seq<Cask>)
    ensures
        outdated_casks(cs) == cs.filter(|c: Cask| c.outdated).len(),
    decreases cs.len(),
{
    reveal_with_fuel(Seq::filter, 1);
    if cs.len() > 0 {
        lemma_outdated_casks_count(cs.drop_last());
    }
}

/// The middle of the status bar.
pub enum StatusLine {
    /// The search being typed.
    Search(String),
    /// An operation is running: spinner frame and status text.
    Loading { spinner: char, message: String },
    /// The last status message; errors are shown as such.
    Message { text: String, is_error: bool },
    Empty,
}

/// The middle of the status bar, with text as characters.
pub enum StatusLineView {
    Search(Seq<char>),
    Loading { spinner: char, message: Seq<char> },
    Message { text: Seq<char>, is_error: bool },
    Empty,
}

impl View for StatusLine {
    type V = StatusLineView;

    open spec fn view(&self) -> StatusLineView {
        match self {
            StatusLine::Search(f) => StatusLineView::Search(f@),
            StatusLine::Loading { spinner, message } => StatusLineView::Loading {
                spinner: *spinner,
                message: message@,
            },
            StatusLine::Message { text, is_error } => StatusLineView::Message {
                text: text@,
                is_error: *is_error,
            },
            StatusLine::Empty => StatusLineView::Empty,
        }
    }
}

/// The middle of the status bar: the search while typing one, else the
/// spinner with the status (or "Working...") while an operation runs, else
/// the last status, marked as an error when it starts with "Error".
pub open spec fn status_line_of(s: AppState) -> StatusLineView {
    if s.input_mode == InputMode::Search {
        StatusLineView::Search(s.filter)
    } else if s.loading {
        StatusLineView::Loading {
            spinner: spinner_frames()[(s.tick % 10) as int],
            message: match s.status_message {
                Some(m) => m,
                None => "Working..."@,
            },
        }
    } else {
        match s.status_message {
            Some(m) => StatusLineView::Message {
                text: m,
                is_error: "Error"@.len() <= m.len() && m.take("Error"@.len() as int) == "Error"@,
            },
            None => StatusLineView::Empty,
        }
    }
}

/// What the screen is made of: the details panel wins over the dependency
/// tree beside the list; a confirmation being asked is shown over
/// everything with its question, help otherwise when it is switched on; the
/// status bar shows the search while typing one, the spinner and the
/// status while an operation runs, and otherwise the last status, marked as
/// an error when it begins with "Error".
pub proof fn lemma_screen_parts(s: AppState, a: ConfirmActionView, e: Seq<char>)
    ensures
        s.show_details ==> layout_of(s) == ContentLayout::ListWithDetails,
        !s.show_details && s.show_dependency_tree ==> layout_of(s) == ContentLayout::ListWithTree,
        !s.show_details && !s.show_dependency_tree ==> layout_of(s) == ContentLayout::List,
        s.input_mode == InputMode::Confirm && s.pending_action == Some(a) ==> overlay_of(s) == Some(
            Some(confirm_message(a)),
        ),
        s.input_mode != InputMode::Confirm && s.show_help ==> (overlay_of(s) matches Some(None)),
        s.input_mode != InputMode::Confirm && !s.show_help ==> (overlay_of(s) is None),
        s.input_mode == InputMode::Search ==> status_line_of(s) == StatusLineView::Search(s.filter),
        s.input_mode != InputMode::Search && s.loading && s.status_message == Some(e)
            ==> status_line_of(s) == (StatusLineView::Loading {
            spinner: spinner_frames()[(s.tick % 10) as int],
            message: e,
        }),
        s.input_mode != InputMode::Search && !s.loading && s.status_message == Some(
            "Error: "@ + e,
        ) ==> status_line_of(s) == (StatusLineView::Message { text: "Error: "@ + e, is_error: true }),
        s.input_mode != InputMode::Search && !s.loading && s.status_message is None
            ==> status_line_of(s) == StatusLineView::Empty,
{
    reveal_strlit("Error");
    reveal_strlit("Error: ");
    assert(("Error: "@ + e).take(5) =~= "Error"@);
}

impl App {
    /// Number of packages and of outdated packages in the active tab,
    /// regardless of the search.
    pub fn status_counts(&self) -> (r: (usize, usize))
        ensures
            r.0 == (if self.active_tab == Tab::Formulae {
                self.packages@.len()
            } else {
                self.casks@.len()
            }),
            r.1 == (if self.active_tab == Tab::Formulae {
                outdated_formulae(self.packages@)
            } else {
                outdated_casks(self.casks@)
            }),
    {
        match self.active_tab {
            Tab::Formulae => {
                let mut count: usize = 0;
                let mut i: usize = 0;
                while i < self.packages.len()
                    invariant
                        i <= self.packages@.len(),
                        count == outdated_formulae(self.packages@.take(i as int)),
                        count <= i,
                    decreases self.packages@.len() - i,
                {
                    assert(self.packages@.take(i + 1).drop_last() =~= self.packages@.take(i as int));
                    if self.packages[i].outdated {
                        count += 1;
                    }
                    i += 1;
                }
                assert(self.packages@.take(self.packages@.len() as int) =~= self.packages@);
                (self.packages.len(), count)
            },
            Tab::Casks => {
                let mut count: usize = 0;
                let mut i: usize = 0;
                while i < self.casks.len()
                    invariant
                        i <= self.casks@.len(),
                        count == outdated_casks(self.casks@.take(i as int)),
                        count <= i,
                    decreases self.casks@.len() - i,
                {
                    assert(self.casks@.take(i + 1).drop_last() =~= self.casks@.take(i as int));
                    if self.casks[i].outdated {
                        count += 1;
                    }
                    i += 1;
                }
                assert(self.casks@.take(self.casks@.len() as int) =~= self.casks@);
                (self.casks.len(), count)
            },
        }
    }

    /// The middle of the status bar.
    pub fn status_line(&self) -> (r: StatusLine)
        ensures
            r@ == status_line_of(self@),
    {
        if self.input_mode == InputMode::Search {
            StatusLine::Search(self.filter.clone())
        } else if self.loading {
            let message = match &self.status_message {
                Some(m) => m.clone(),
                None => "Working...".to_owned(),
            };
            StatusLine::Loading { spinner: self.spinner_char(), message }
        } else {
            match &self.status_message {
                Some(m) => StatusLine::Message {
                    text: m.clone(),
                    is_error: starts_with(m.as_str(), "Error"),
                },
                None => StatusLine::Empty,
            }
        }
    }
}

// ---------------------------------------------------------------------------
// Details panel
// ---------------------------------------------------------------------------

/// The status line of the details panel.
#[derive(Debug, Clone, Copy, PartialEq, Eq, Structural)]
pub enum InfoStatus {
    Pinned,
    Outdated,
    Current,
}

/// The text of the details panel for one package.
pub struct DetailsText {
    pub name: String,
    /// "v" and the version.
    pub version: String,
    pub status: InfoStatus,
    pub description: String,
    /// The homepage, when there is one.
    pub homepage: Option<String>,
    /// "Dependencies (n)".
    pub dependencies_title: String,
    /// The dependencies joined with ", ", or "None".
    pub dependencies_text: String,
    /// "Used by (n)".
    pub dependents_title: String,
    /// The dependents joined with ", ", or "Nothing".
    pub dependents_text: String,
}

/// What the details panel shows.
pub enum DetailsView {
    Info(DetailsText),
    /// No details are loaded; this hint is shown instead.
    Placeholder(&'static str),
}

/// A list joined with ", ", or `none` when it is empty.
pub open spec fn listing(items: Seq<Seq<char>>, none: Seq<char>) -> Seq<char> {
    if items.len() == 0 {
        none
    } else {
        joined(items, ", "@)
    }
}

/// The details panel text shows `info`.
pub open spec fn details_of(d: DetailsText, info: PackageInfo) -> bool {
    &&& d.name@ == info.name@
    &&& d.version@ == "v"@ + info.version@
    &&& d.status == (if info.pinned {
        InfoStatus::Pinned
    } else if info.outdated {
        InfoStatus::Outdated
    } else {
        InfoStatus::Current
    })
    &&& d.description@ == info.description@
    &&& (match d.homepage {
        Some(h) => info.homepage@.len() > 0 && h@ == info.homepage@,
        None => info.homepage@.len() == 0,
    })
    &&& d.dependencies_title@ == "Dependencies ("@ + decimal(info.dependencies@.len()) + ")"@
    &&& d.dependencies_text@ == listing(views(info.dependencies@), "None"@)
    &&& d.dependents_title@ == "Used by ("@ + decimal(info.dependents@.len()) + ")"@
    &&& d.dependents_text@ == listing(views(info.dependents@), "Nothing"@)
}

/// The details panel shows the package's name, its version after a "v",
/// pinned before outdated before current, the homepage only when there is
/// one, and each relation counted in its title and listed with ", " between
/// names, or "None" and "Nothing" when empty.
pub proof fn lemma_details_rules(d: DetailsText, info: PackageInfo, x: Seq<char>, y: Seq<char>)
    requires
        details_of(d, info),
    ensures
        d.name@ == info.name@,
        d.version@ == "v"@ + info.version@,
        info.pinned ==> d.status == InfoStatus::Pinned,
        !info.pinned && info.outdated ==> d.status == InfoStatus::Outdated,
        !info.pinned && !info.outdated ==> d.status == InfoStatus::Current,
        (d.homepage is Some) == (info.homepage@.len() > 0),
        info.dependencies@.len() == 0 ==> d.dependencies_text@ == "None"@,
        info.dependents@.len() == 0 ==> d.dependents_text@ == "Nothing"@,
        views(info.dependencies@) == seq![x, y] ==> d.dependencies_text@ == x + ", "@ + y,
        views(info.dependents@) == seq![x, y] ==> d.dependents_text@ == x + ", "@ + y,
        d.dependencies_title@ == "Dependencies ("@ + decimal(info.dependencies@.len()) + ")"@,
        d.dependents_title@ == "Used by ("@ + decimal(info.dependents@.len()) + ")"@,
{
    assert(seq![x, y].drop_last() =~= seq![x]);
    assert(joined(seq![x], ", "@) == x);
    assert(joined(seq![x, y], ", "@) == x + ", "@ + y);
}

/// The dependency tree lists the relation of its mode, one line per name in
/// order, every line but the last with a branch and the last with a corner,
/// under a title naming the relation and the package.
pub proof fn lemma_tree_rules(
    t: TreeText,
    name: Seq<char>,
    deps: Seq<Seq<char>>,
    dependents: Seq<Seq<char>>,
    mode: DependencyTreeMode,
)
    requires
        tree_of(t, name, deps, dependents, mode),
    ensures
        mode == DependencyTreeMode::Dependencies ==> t.lines@.len() == deps.len() && t.title@
            == " Dependencies of \""@ + name + "\" "@,
        mode == DependencyTreeMode::Dependents ==> t.lines@.len() == dependents.len() && t.title@
            == " Dependents of \""@ + name + "\" "@,
        t.lines@.len() > 0 ==> t.lines@[t.lines@.len() - 1].branch@ == "  └─ "@,
        forall|k: int| 0 <= k < t.lines@.len() - 1 ==> (#[trigger] t.lines@[k]).branch@ == "  ├─ "@,
        forall|k: int|
            0 <= k < t.lines@.len() ==> (#[trigger] t.lines@[k]).name@ == (if mode
                == DependencyTreeMode::Dependencies {
                deps[k]
            } else {
                dependents[k]
            }),
{
}

/// The hint shown while no details are loaded.
pub open spec fn details_placeholder(s: AppState) -> Seq<char> {
    if s.active_tab == Tab::Formulae && s.packages.len() == 0 {
        "No formulae installed"@
    } else if s.active_tab == Tab::Casks && s.casks.len() == 0 {
        "No casks installed"@
    } else {
        "Press Enter or 'd' to view details"@
    }
}

fn titled_count(label: &str, n: usize) -> (r: String)
    ensures
        r@ == label@ + decimal(n as nat) + ")"@,
{
    let mut r = label.to_owned();
    r.append(decimal_string(n).as_str());
    r.append(")");
    r
}

fn listing_text(items: &Vec<String>, none: &str) -> (r: String)
    ensures
        r@ == listing(views(items@), none@),
{
    if items.len() == 0 {
        none.to_owned()
    } else {
        join(items, ", ")
    }
}

fn details_text(info: &PackageInfo) -> (r: DetailsText)
    ensures
        details_of(r, *info),
{
    let mut version = "v".to_owned();
    version.append(info.version.as_str());
    let status = if info.pinned {
        InfoStatus::Pinned
    } else if info.outdated {
        InfoStatus::Outdated
    } else {
        InfoStatus::Current
    };
    let homepage = if info.homepage.as_str().is_empty() {
        None
    } else {
        Some(info.homepage.clone())
    };
    DetailsText {
        name: info.name.clone(),
        version,
        status,
        description: info.description.clone(),
        homepage,
        dependencies_title: titled_count("Dependencies (", info.dependencies.len()),
        dependencies_text: listing_text(&info.dependencies, "None"),
        dependents_title: titled_count("Used by (", info.dependents.len()),
        dependents_text: listing_text(&info.dependents, "Nothing"),
    }
}

impl App {
    /// What the details panel shows.
    pub fn details_view(&self) -> (r: DetailsView)
        ensures
            match self.selected_package_info {
                Some(info) => r matches DetailsView::Info(d) && details_of(d, info),
                None => r matches DetailsView::Placeholder(m) && m@ == details_placeholder(self@),
            },
    {
        match &self.selected_package_info {
            Some(info) => DetailsView::Info(details_text(info)),
            None => {
                let message = match self.active_tab {
                    Tab::Formulae => if self.packages.len() == 0 {
                        "No formulae installed"
                    } else {
                        "Press Enter or 'd' to view details"
                    },
                    Tab::Casks => if self.casks.len() == 0 {
                        "No casks installed"
                    } else {
                        "Press Enter or 'd' to view details"
                    },
                };
                DetailsView::Placeholder(message)
            },
        }
    }
}

// ---------------------------------------------------------------------------
// Dependency tree
// ---------------------------------------------------------------------------

/// One line of the dependency tree.
pub struct TreeLine {
    /// The branch drawn before the name; the last line closes the tree.
    pub branch: &'static str,
    pub name: String,
}

/// The text of the dependency tree panel.
pub struct TreeText {
    pub title: String,
    pub lines: Vec<TreeLine>,
    /// Shown instead of lines when the shown relation is empty.
    pub empty_message: &'static str,
    /// "n dependencies".
    pub dependencies_count: String,
    /// "n dependents".
    pub dependents_count: String,
}

/// What the dependency tree panel shows.
pub enum TreeView {
    /// Nothing loaded yet while an operation runs: the spinner frame.
    Loading(char),
    /// Nothing loaded and nothing running.
    NoSelection,
    Tree(TreeText),
}

/// The tree panel text shows the relation chosen by `mode` of `data`.
pub open spec fn tree_of(t: TreeText, name: Seq<char>, deps: Seq<Seq<char>>, dependents: Seq<Seq<char>>, mode: DependencyTreeMode) -> bool {
    let items = if mode == DependencyTreeMode::Dependencies {
        deps
    } else {
        dependents
    };
    &&& t.title@ == (if mode == DependencyTreeMode::Dependencies {
        " Dependencies of \""@
    } else {
        " Dependents of \""@
    }) + name + "\" "@
    &&& t.lines@.len() == items.len()
    &&& forall|k: int|
        0 <= k < items.len() ==> (#[trigger] t.lines@[k]).name@ == items[k] && t.lines@[k].branch@
            == (if k == items.len() - 1 {
            "  └─ "@
        } else {
            "  ├─ "@
        })
    &&& t.empty_message@ == (if mode == DependencyTreeMode::Dependencies {
        "  No dependencies"@
    } else {
        "  No packages depend on this"@
    })
    &&& t.dependencies_count@ == decimal(deps.len()) + " dependencies"@
    &&& t.dependents_count@ == decimal(dependents.len()) + " dependents"@
}

fn tree_lines(items: &Vec<String>) -> (r: Vec<TreeLine>)
    ensures
        r@.len() == items@.len(),
        forall|k: int|
            0 <= k < items@.len() ==> (#[trigger] r@[k]).name@ == items@[k]@ && r@[k].branch@ == (
            if k == items@.len() - 1 {
                "  └─ "@
            } else {
                "  ├─ "@
            }),
{
    let len = items.len();
    let mut r: Vec<TreeLine> = Vec::new();
    let mut i: usize = 0;
    while i < len
        invariant
            i <= len,
            len == items@.len(),
            r@.len() == i,
            forall|k: int|
                0 <= k < i ==> (#[trigger] r@[k]).name@ == items@[k]@ && r@[k].branch@ == (if k
                    == len - 1 {
                    "  └─ "@
                } else {
                    "  ├─ "@
                }),
        decreases len - i,
    {
        let branch = if i == len - 1 {
            "  └─ "
        } else {
            "  ├─ "
        };
        r.push(TreeLine { branch, name: items[i].clone() });
        i += 1;
    }
    r
}

fn counted(n: usize, label: &str) -> (r: String)
    ensures
        r@ == decimal(n as nat) + label@,
{
    let mut r = decimal_string(n);
    r.append(label);
    r
}

impl App {
    /// What the dependency tree panel shows.
    pub fn tree_view(&self) -> (r: TreeView)
        ensures
            match self.dependency_tree_data {
                None => if self.loading {
                    r matches TreeView::Loading(c) && c == spinner_frames()[(self.tick % 10) as int]
                } else {
                    r is NoSelection
                },
                Some(data) => r matches TreeView::Tree(t) && tree_of(
                    t,
                    data.package_name@,
                    views(data.dependencies@),
                    views(data.dependents@),
                    self.dependency_tree_mode,
                ),
            },
    {
        match &self.dependency_tree_data {
            None => if self.loading {
                TreeView::Loading(self.spinner_char())
            } else {
                TreeView::NoSelection
            },
            Some(data) => {
                let dependencies_mode = self.dependency_tree_mode == DependencyTreeMode::Dependencies;
                let mut title = if dependencies_mode {
                    " Dependencies of \"".to_owned()
                } else {
                    " Dependents of \"".to_owned()
                };
                title.append(data.package_name.as_str());
                title.append("\" ");
                let lines = if dependencies_mode {
                    tree_lines(&data.dependencies)
                } else {
                    tree_lines(&data.dependents)
                };
                let empty_message = if dependencies_mode {
                    "  No dependencies"
                } else {
                    "  No packages depend on this"
                };
                TreeView::Tree(
                    TreeText {
                        title,
                        lines,
                        empty_message,
                        dependencies_count: counted(data.dependencies.len(), " dependencies"),
                        dependents_count: counted(data.dependents.len(), " dependents"),
                    },
                )
            },
        }
    }
}

} // verus!
