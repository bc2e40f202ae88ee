//! What the user can ask for: the actions that keys map to, and the
//! operations that wait for confirmation.

use vstd::prelude::*;

verus! {

/// Something the user asked for with a key.
#[derive(Debug, Clone, Copy, PartialEq, Eq, Structural)]
pub enum Action {
    Quit,
    NextItem,
    PreviousItem,
    FirstItem,
    LastItem,
    NextTab,
    PreviousTab,
    SelectTab(usize),
    ToggleDetails,
    ToggleHelp,
    ToggleOutdatedFilter,
    EnterSearch,
    ExitSearch,
    SearchInput(char),
    SearchBackspace,
    UpdateSelected,
    UpdateAll,
    RemoveSelected,
    ConfirmAction,
    CancelAction,
    TogglePin,
    Cleanup,
    Refresh,
    ToggleDependencyTree,
    PageDown,
    PageUp,
    Noop,
}

/// An operation that changes the installed packages and waits for the
/// user's confirmation.
#[derive(Debug, Clone)]
pub enum ConfirmAction {
    Update { name: String, is_cask: bool },
    UpdateAll,
    Remove { name: String, is_cask: bool },
    Cleanup,
}

/// A confirmable operation with the package name as characters.
pub enum ConfirmActionView {
    Update { name: Seq<char>, is_cask: bool },
    UpdateAll,
    Remove { name: Seq<char>, is_cask: bool },
    Cleanup,
}

impl View for ConfirmAction {
    type V = ConfirmActionView;

    open spec fn view(&self) -> ConfirmActionView {
        match self {
            ConfirmAction::Update { name, is_cask } => ConfirmActionView::Update {
                name: name@,
                is_cask: *is_cask,
            },
            ConfirmAction::UpdateAll => ConfirmActionView::UpdateAll,
            ConfirmAction::Remove { name, is_cask } => ConfirmActionView::Remove {
                name: name@,
                is_cask: *is_cask,
            },
            ConfirmAction::Cleanup => ConfirmActionView::Cleanup,
        }
    }
}

/// "cask" or "formula".
pub open spec fn kind_label(is_cask: bool) -> Seq<char> {
    if is_cask {
        "cask"@
    } else {
        "formula"@
    }
}

/// The word for the kind of a package.
pub fn kind_str(is_cask: bool) -> (r: &'static str)
    ensures
        r@ == kind_label(is_cask),
{
    if is_cask {
        "cask"
    } else {
        "formula"
    }
}

/// The question asked before an operation runs.
pub open spec fn confirm_message(a: ConfirmActionView) -> Seq<char> {
    match a {
        ConfirmActionView::Update { name, is_cask } => "Update "@ + name + " ("@ + kind_label(
            is_cask,
        ) + ")? "@,
        ConfirmActionView::UpdateAll => "Update all outdated packages?"@,
        ConfirmActionView::Remove { name, is_cask } => "Remove "@ + name + " ("@ + kind_label(
            is_cask,
        ) + ")? This cannot be undone."@,
        ConfirmActionView::Cleanup => "Remove all old versions and clear cache?"@,
    }
}

/// The status shown while a confirmed operation runs.
pub open spec fn progress_message(a: ConfirmActionView) -> Seq<char> {
    match a {
        ConfirmActionView::Update { name, is_cask } => "Updating "@ + name + " ("@ + kind_label(
            is_cask,
        ) + ")..."@,
        ConfirmActionView::UpdateAll => "Updating all packages..."@,
        ConfirmActionView::Remove { name, .. } => "Removing "@ + name + "..."@,
        ConfirmActionView::Cleanup => "Running cleanup..."@,
    }
}

impl ConfirmAction {
    /// The question asked before the operation runs.
    pub fn message(&self) -> (r: String)
        ensures
            r@ == confirm_message(self@),
    {
        match self {
            ConfirmAction::Update { name, is_cask } => {
                let mut r = "Update ".to_owned();
                r.append(name.as_str());
                r.append(" (");
                r.append(kind_str(*is_cask));
                r.append(")? ");
                r
            },
            ConfirmAction::UpdateAll => "Update all outdated packages?".to_owned(),
            ConfirmAction::Remove { name, is_cask } => {
                let mut r = "Remove ".to_owned();
                r.append(name.as_str());
                r.append(" (");
                r.append(kind_str(*is_cask));
                r.append(")? This cannot be undone.");
                r
            },
            ConfirmAction::Cleanup => "Remove all old versions and clear cache?".to_owned(),
        }
    }

    /// The status shown while the operation runs.
    pub fn progress_message(&self) -> (r: String)
        ensures
            r@ == progress_message(self@),
    {
        match self {
            ConfirmAction::Update { name, is_cask } => {
                let mut r = "Updating ".to_owned();
                r.append(name.as_str());
                r.append(" (");
                r.append(kind_str(*is_cask));
                r.append(")...");
                r
            },
            ConfirmAction::UpdateAll => "Updating all packages...".to_owned(),
            ConfirmAction::Remove { name, .. } => {
                let mut r = "Removing ".to_owned();
                r.append(name.as_str());
                r.append("...");
                r
            },
            ConfirmAction::Cleanup => "Running cleanup...".to_owned(),
        }
    }

    /// A copy of the operation.
    pub(crate) fn duplicate(&self) -> (r: ConfirmAction)
        ensures
            r@ == self@,
    {
        match self {
            ConfirmAction::Update { name, is_cask } => ConfirmAction::Update {
                name: name.clone(),
                is_cask: *is_cask,
            },
            ConfirmAction::UpdateAll => ConfirmAction::UpdateAll,
            ConfirmAction::Remove { name, is_cask } => ConfirmAction::Remove {
                name: name.clone(),
                is_cask: *is_cask,
            },
            ConfirmAction::Cleanup => ConfirmAction::Cleanup,
        }
    }
}

/// The questions and progress texts of each operation name the package and
/// its kind ("cask" for a cask, "formula" otherwise).
pub proof fn lemma_operation_messages(name: Seq<char>, is_cask: bool)
    ensures
        kind_label(true) == "cask"@,
        kind_label(false) == "formula"@,
        confirm_message(ConfirmActionView::Update { name, is_cask }) == "Update "@ + name + " ("@
            + kind_label(is_cask) + ")? "@,
        confirm_message(ConfirmActionView::Remove { name, is_cask }) == "Remove "@ + name + " ("@
            + kind_label(is_cask) + ")? This cannot be undone."@,
        confirm_message(ConfirmActionView::UpdateAll) == "Update all outdated packages?"@,
        confirm_message(ConfirmActionView::Cleanup) == "Remove all old versions and clear cache?"@,
        progress_message(ConfirmActionView::Update { name, is_cask }) == "Updating "@ + name + " ("@
            + kind_label(is_cask) + ")..."@,
        progress_message(ConfirmActionView::Remove { name, is_cask }) == "Removing "@ + name
            + "..."@,
        progress_message(ConfirmActionView::UpdateAll) == "Updating all packages..."@,
        progress_message(ConfirmActionView::Cleanup) == "Running cleanup..."@,
{
}


} // verus!
