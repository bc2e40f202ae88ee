//! Which action a key press asks for, depending on the input mode.

use vstd::prelude::*;

use crate::actions::Action;
use crate::app::InputMode;

verus! {

/// The keys the application tells apart.
#[derive(Debug, Clone, Copy, PartialEq, Eq, Structural)]
pub enum Key {
    Char(char),
    Up,
    Down,
    Home,
    End,
    PageUp,
    PageDown,
    Tab,
    BackTab,
    Enter,
    Delete,
    Esc,
    Backspace,
    /// Any other key.
    Other,
}

/// A key press: the key and whether Control was held.
#[derive(Debug, Clone, Copy, PartialEq, Eq, Structural)]
pub struct KeyInput {
    pub code: Key,
    pub ctrl: bool,
}

/// The action of a key in normal mode. `PageDown` and `PageUp` move a page
/// with or without `Ctrl`; `Ctrl` turns `d` and `u` into page moves too.
pub open spec fn normal_mode_action(key: KeyInput) -> Action {
    match key.code {
        Key::Char('q') => Action::Quit,
        Key::Char('j') | Key::Down => Action::NextItem,
        Key::Char('k') | Key::Up => Action::PreviousItem,
        Key::Char('g') | Key::Home => Action::FirstItem,
        Key::Char('G') | Key::End => Action::LastItem,
        Key::PageDown => Action::PageDown,
        Key::Char('d') if key.ctrl => Action::PageDown,
        Key::PageUp => Action::PageUp,
        Key::Char('u') if key.ctrl => Action::PageUp,
        Key::Tab => Action::NextTab,
        Key::BackTab => Action::PreviousTab,
        Key::Char('1') => Action::SelectTab(0),
        Key::Char('2') => Action::SelectTab(1),
        Key::Enter | Key::Char('d') => Action::ToggleDetails,
        Key::Char('?') => Action::ToggleHelp,
        Key::Char('/') => Action::EnterSearch,
        Key::Char('o') => Action::ToggleOutdatedFilter,
        Key::Char('u') => Action::UpdateSelected,
        Key::Char('U') => Action::UpdateAll,
        Key::Char('x') | Key::Delete => Action::RemoveSelected,
        Key::Char('p') => Action::TogglePin,
        Key::Char('c') => Action::Cleanup,
        Key::Char('r') => Action::Refresh,
        Key::Char('t') => Action::ToggleDependencyTree,
        _ => Action::Noop,
    }
}

/// The action of a key while typing a search.
pub open spec fn search_mode_action(key: KeyInput) -> Action {
    match key.code {
        Key::Esc | Key::Enter => Action::ExitSearch,
        Key::Backspace => Action::SearchBackspace,
        Key::Char(c) => Action::SearchInput(c),
        _ => Action::Noop,
    }
}

/// The action of a key while a confirmation is asked.
pub open spec fn confirm_mode_action(key: KeyInput) -> Action {
    match key.code {
        Key::Char('y') | Key::Char('Y') | Key::Enter => Action::ConfirmAction,
        Key::Char('n') | Key::Char('N') | Key::Esc => Action::CancelAction,
        _ => Action::Noop,
    }
}

/// The action of a key in a given input mode.
pub open spec fn key_action(key: KeyInput, mode: InputMode) -> Action {
    match mode {
        InputMode::Normal => normal_mode_action(key),
        InputMode::Search => search_mode_action(key),
        InputMode::Confirm => confirm_mode_action(key),
    }
}

/// Maps a key press to an action according to the input mode.
pub fn handle_key_event(key: KeyInput, input_mode: &InputMode) -> (r: Action)
    ensures
        r == key_action(key, *input_mode),
{
    match input_mode {
        InputMode::Normal => handle_normal_mode(key),
        InputMode::Search => handle_search_mode(key),
        InputMode::Confirm => handle_confirm_mode(key),
    }
}

fn handle_normal_mode(key: KeyInput) -> (r: Action)
    ensures
        r == normal_mode_action(key),
{
    match key.code {
        Key::Char('q') => Action::Quit,
        Key::Char('j') | Key::Down => Action::NextItem,
        Key::Char('k') | Key::Up => Action::PreviousItem,
        Key::Char('g') | Key::Home => Action::FirstItem,
        Key::Char('G') | Key::End => Action::LastItem,
        Key::PageDown => Action::PageDown,
        Key::Char('d') if key.ctrl => Action::PageDown,
        Key::PageUp => Action::PageUp,
        Key::Char('u') if key.ctrl => Action::PageUp,
        Key::Tab => Action::NextTab,
        Key::BackTab => Action::PreviousTab,
        Key::Char('1') => Action::SelectTab(0),
        Key::Char('2') => Action::SelectTab(1),
        Key::Enter | Key::Char('d') => Action::ToggleDetails,
        Key::Char('?') => Action::ToggleHelp,
        Key::Char('/') => Action::EnterSearch,
        Key::Char('o') => Action::ToggleOutdatedFilter,
        Key::Char('u') => Action::UpdateSelected,
        Key::Char('U') => Action::UpdateAll,
        Key::Char('x') | Key::Delete => Action::RemoveSelected,
        Key::Char('p') => Action::TogglePin,
        Key::Char('c') => Action::Cleanup,
        Key::Char('r') => Action::Refresh,
        Key::Char('t') => Action::ToggleDependencyTree,
        _ => Action::Noop,
    }
}

fn handle_search_mode(key: KeyInput) -> (r: Action)
    ensures
        r == search_mode_action(key),
{
    match key.code {
        Key::Esc => Action::ExitSearch,
        Key::Enter => Action::ExitSearch,
        Key::Backspace => Action::SearchBackspace,
        Key::Char(c) => Action::SearchInput(c),
        _ => Action::Noop,
    }
}

fn handle_confirm_mode(key: KeyInput) -> (r: Action)
    ensures
        r == confirm_mode_action(key),
{
    match key.code {
        Key::Char('y') | Key::Char('Y') | Key::Enter => Action::ConfirmAction,
        Key::Char('n') | Key::Char('N') | Key::Esc => Action::CancelAction,
        _ => Action::Noop,
    }
}

/// While a confirmation is asked, a key can only confirm, cancel, or do
/// nothing.
pub proof fn lemma_confirm_mode_answers(key: KeyInput)
    ensures
        key_action(key, InputMode::Confirm) == Action::ConfirmAction || key_action(
            key,
            InputMode::Confirm,
        ) == Action::CancelAction || key_action(key, InputMode::Confirm) == Action::Noop,
{
}

/// While searching, every character typed goes into the search text, and
/// only Escape, Enter and Backspace act otherwise.
pub proof fn lemma_search_mode_types_characters(c: char, ctrl: bool)
    ensures
        key_action(KeyInput { code: Key::Char(c), ctrl }, InputMode::Search)
            == Action::SearchInput(c),
{
}

/// Without Control, `d` opens the details and `u` asks to update; with
/// Control they page down and up. `PageDown` and `PageUp` page with or
/// without Control.
pub proof fn lemma_control_pages(ctrl: bool)
    ensures
        key_action(KeyInput { code: Key::Char('d'), ctrl }, InputMode::Normal) == (if ctrl {
            Action::PageDown
        } else {
            Action::ToggleDetails
        }),
        key_action(KeyInput { code: Key::Char('u'), ctrl }, InputMode::Normal) == (if ctrl {
            Action::PageUp
        } else {
            Action::UpdateSelected
        }),
        key_action(KeyInput { code: Key::PageDown, ctrl }, InputMode::Normal) == Action::PageDown,
        key_action(KeyInput { code: Key::PageUp, ctrl }, InputMode::Normal) == Action::PageUp,
{
}

/// The key map of normal mode, key by key, with or without Control: `q`
/// quits; `j`/Down move down and `k`/Up move up; `g`/Home and `G`/End go to
/// the first and last entry; Tab and BackTab switch tabs and `1`/`2` pick
/// one; Enter opens the details; `?` the help; `/` starts a search; `o`
/// switches the outdated filter; `U` updates all; `x`/Delete remove; `p`
/// pins; `c` cleans up; `r` refreshes; `t` shows the dependency tree; any
/// other key does nothing.
pub proof fn lemma_normal_mode_keys(ctrl: bool, other: char)
    requires
        !"qjkgGdu12?/oUxpcrt"@.contains(other),
    ensures
        ({
            let act = |k: Key| key_action(KeyInput { code: k, ctrl }, InputMode::Normal);
            &&& act(Key::Char('q')) == Action::Quit
            &&& act(Key::Char('j')) == Action::NextItem
            &&& act(Key::Down) == Action::NextItem
            &&& act(Key::Char('k')) == Action::PreviousItem
            &&& act(Key::Up) == Action::PreviousItem
            &&& act(Key::Char('g')) == Action::FirstItem
            &&& act(Key::Home) == Action::FirstItem
            &&& act(Key::Char('G')) == Action::LastItem
            &&& act(Key::End) == Action::LastItem
            &&& act(Key::Tab) == Action::NextTab
            &&& act(Key::BackTab) == Action::PreviousTab
            &&& act(Key::Char('1')) == Action::SelectTab(0)
            &&& act(Key::Char('2')) == Action::SelectTab(1)
            &&& act(Key::Enter) == Action::ToggleDetails
            &&& act(Key::Char('?')) == Action::ToggleHelp
            &&& act(Key::Char('/')) == Action::EnterSearch
            &&& act(Key::Char('o')) == Action::ToggleOutdatedFilter
            &&& act(Key::Char('U')) == Action::UpdateAll
            &&& act(Key::Char('x')) == Action::RemoveSelected
            &&& act(Key::Delete) == Action::RemoveSelected
            &&& act(Key::Char('p')) == Action::TogglePin
            &&& act(Key::Char('c')) == Action::Cleanup
            &&& act(Key::Char('r')) == Action::Refresh
            &&& act(Key::Char('t')) == Action::ToggleDependencyTree
            &&& act(Key::Char(other)) == Action::Noop
            &&& act(Key::Esc) == Action::Noop
            &&& act(Key::Backspace) == Action::Noop
            &&& act(Key::Other) == Action::Noop
        }),
{
    reveal_strlit("qjkgGdu12?/oUxpcrt");
    assert("qjkgGdu12?/oUxpcrt"@[0] == 'q');
    assert("qjkgGdu12?/oUxpcrt"@[1] == 'j');
    assert("qjkgGdu12?/oUxpcrt"@[2] == 'k');
    assert("qjkgGdu12?/oUxpcrt"@[3] == 'g');
    assert("qjkgGdu12?/oUxpcrt"@[4] == 'G');
    assert("qjkgGdu12?/oUxpcrt"@[5] == 'd');
    assert("qjkgGdu12?/oUxpcrt"@[6] == 'u');
    assert("qjkgGdu12?/oUxpcrt"@[7] == '1');
    assert("qjkgGdu12?/oUxpcrt"@[8] == '2');
    assert("qjkgGdu12?/oUxpcrt"@[9] == '?');
    assert("qjkgGdu12?/oUxpcrt"@[10] == '/');
    assert("qjkgGdu12?/oUxpcrt"@[11] == 'o');
    assert("qjkgGdu12?/oUxpcrt"@[12] == 'U');
    assert("qjkgGdu12?/oUxpcrt"@[13] == 'x');
    assert("qjkgGdu12?/oUxpcrt"@[14] == 'p');
    assert("qjkgGdu12?/oUxpcrt"@[15] == 'c');
    assert("qjkgGdu12?/oUxpcrt"@[16] == 'r');
    assert("qjkgGdu12?/oUxpcrt"@[17] == 't');
}

/// The key map while searching and while confirming: in a search, Escape
/// and Enter end it, Backspace erases and any character is typed; in a
/// confirmation, `y`, `Y` and Enter confirm, `n`, `N` and Escape cancel.
pub proof fn lemma_search_and_confirm_keys(ctrl: bool, c: char)
    ensures
        key_action(KeyInput { code: Key::Esc, ctrl }, InputMode::Search) == Action::ExitSearch,
        key_action(KeyInput { code: Key::Enter, ctrl }, InputMode::Search) == Action::ExitSearch,
        key_action(KeyInput { code: Key::Backspace, ctrl }, InputMode::Search)
            == Action::SearchBackspace,
        key_action(KeyInput { code: Key::Char(c), ctrl }, InputMode::Search) == Action::SearchInput(c),
        key_action(KeyInput { code: Key::Up, ctrl }, InputMode::Search) == Action::Noop,
        key_action(KeyInput { code: Key::Char('y'), ctrl }, InputMode::Confirm) == Action::ConfirmAction,
        key_action(KeyInput { code: Key::Char('Y'), ctrl }, InputMode::Confirm) == Action::ConfirmAction,
        key_action(KeyInput { code: Key::Enter, ctrl }, InputMode::Confirm) == Action::ConfirmAction,
        key_action(KeyInput { code: Key::Char('n'), ctrl }, InputMode::Confirm) == Action::CancelAction,
        key_action(KeyInput { code: Key::Char('N'), ctrl }, InputMode::Confirm) == Action::CancelAction,
        key_action(KeyInput { code: Key::Esc, ctrl }, InputMode::Confirm) == Action::CancelAction,
        c != 'y' && c != 'Y' && c != 'n' && c != 'N' ==> key_action(
            KeyInput { code: Key::Char(c), ctrl },
            InputMode::Confirm,
        ) == Action::Noop,
{
}


} // verus!
