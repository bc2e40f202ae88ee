use brew_tui::actions::Action;
use brew_tui::app::InputMode;
use brew_tui::keys::{handle_key_event, Key, KeyInput};

fn key(code: Key) -> KeyInput {
    KeyInput { code, ctrl: false }
}

fn ctrl(code: Key) -> KeyInput {
    KeyInput { code, ctrl: true }
}

#[test]
fn normal_mode_keys() {
    let n = InputMode::Normal;
    assert_eq!(handle_key_event(key(Key::Char('q')), &n), Action::Quit);
    assert_eq!(handle_key_event(key(Key::Char('j')), &n), Action::NextItem);
    assert_eq!(handle_key_event(key(Key::Down), &n), Action::NextItem);
    assert_eq!(handle_key_event(key(Key::Up), &n), Action::PreviousItem);
    assert_eq!(handle_key_event(key(Key::Char('g')), &n), Action::FirstItem);
    assert_eq!(handle_key_event(key(Key::End), &n), Action::LastItem);
    assert_eq!(handle_key_event(key(Key::Tab), &n), Action::NextTab);
    assert_eq!(handle_key_event(key(Key::BackTab), &n), Action::PreviousTab);
    assert_eq!(handle_key_event(key(Key::Char('1')), &n), Action::SelectTab(0));
    assert_eq!(handle_key_event(key(Key::Char('2')), &n), Action::SelectTab(1));
    assert_eq!(handle_key_event(key(Key::Enter), &n), Action::ToggleDetails);
    assert_eq!(handle_key_event(key(Key::Char('?')), &n), Action::ToggleHelp);
    assert_eq!(handle_key_event(key(Key::Char('/')), &n), Action::EnterSearch);
    assert_eq!(handle_key_event(key(Key::Char('o')), &n), Action::ToggleOutdatedFilter);
    assert_eq!(handle_key_event(key(Key::Char('U')), &n), Action::UpdateAll);
    assert_eq!(handle_key_event(key(Key::Delete), &n), Action::RemoveSelected);
    assert_eq!(handle_key_event(key(Key::Char('x')), &n), Action::RemoveSelected);
    assert_eq!(handle_key_event(key(Key::Char('p')), &n), Action::TogglePin);
    assert_eq!(handle_key_event(key(Key::Char('c')), &n), Action::Cleanup);
    assert_eq!(handle_key_event(key(Key::Char('r')), &n), Action::Refresh);
    assert_eq!(handle_key_event(key(Key::Char('t')), &n), Action::ToggleDependencyTree);
    assert_eq!(handle_key_event(key(Key::Char('z')), &n), Action::Noop);
    assert_eq!(handle_key_event(key(Key::Esc), &n), Action::Noop);
}

#[test]
fn control_turns_d_and_u_into_page_moves() {
    let n = InputMode::Normal;
    assert_eq!(handle_key_event(key(Key::Char('d')), &n), Action::ToggleDetails);
    assert_eq!(handle_key_event(ctrl(Key::Char('d')), &n), Action::PageDown);
    assert_eq!(handle_key_event(key(Key::Char('u')), &n), Action::UpdateSelected);
    assert_eq!(handle_key_event(ctrl(Key::Char('u')), &n), Action::PageUp);
    assert_eq!(handle_key_event(ctrl(Key::PageDown), &n), Action::PageDown);
    assert_eq!(handle_key_event(key(Key::PageDown), &n), Action::PageDown);
    assert_eq!(handle_key_event(key(Key::PageUp), &n), Action::PageUp);
    assert_eq!(handle_key_event(ctrl(Key::PageUp), &n), Action::PageUp);
}

#[test]
fn search_mode_keys() {
    let s = InputMode::Search;
    assert_eq!(handle_key_event(key(Key::Esc), &s), Action::ExitSearch);
    assert_eq!(handle_key_event(key(Key::Enter), &s), Action::ExitSearch);
    assert_eq!(handle_key_event(key(Key::Backspace), &s), Action::SearchBackspace);
    assert_eq!(handle_key_event(key(Key::Char('q')), &s), Action::SearchInput('q'));
    assert_eq!(handle_key_event(key(Key::Char('🔥')), &s), Action::SearchInput('🔥'));
    assert_eq!(handle_key_event(key(Key::Up), &s), Action::Noop);
}

#[test]
fn confirm_mode_keys() {
    let c = InputMode::Confirm;
    assert_eq!(handle_key_event(key(Key::Char('y')), &c), Action::ConfirmAction);
    assert_eq!(handle_key_event(key(Key::Char('Y')), &c), Action::ConfirmAction);
    assert_eq!(handle_key_event(key(Key::Enter), &c), Action::ConfirmAction);
    assert_eq!(handle_key_event(key(Key::Char('n')), &c), Action::CancelAction);
    assert_eq!(handle_key_event(key(Key::Char('N')), &c), Action::CancelAction);
    assert_eq!(handle_key_event(key(Key::Esc), &c), Action::CancelAction);
    assert_eq!(handle_key_event(key(Key::Char('q')), &c), Action::Noop);
}
