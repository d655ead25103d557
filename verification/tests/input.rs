use cuneiforbits::ui::Input;
use cuneiforbits::ui::InputMode;
use termion::event::Event;
use termion::event::Key;
use termion::event::MouseButton;
use termion::event::MouseEvent;

fn key(mode: InputMode, k: Key) -> Option<Input> {
    mode.map(Event::Key(k))
}

#[test]
fn control_ignores_plain_characters() {
    assert_eq!(key(InputMode::Control, Key::Char('j')), None);
    assert_eq!(key(InputMode::Control, Key::Char('x')), None);
    assert_eq!(key(InputMode::Control, Key::Backspace), None);
    assert_eq!(key(InputMode::Control, Key::Delete), None);
    assert_eq!(key(InputMode::Control, Key::Ctrl('f')), None);
}

#[test]
fn typing_takes_plain_characters() {
    assert_eq!(key(InputMode::Type, Key::Char('j')), Some(Input::Type('j')));
    assert_eq!(key(InputMode::Type, Key::Char('a')), Some(Input::Type('a')));
    assert_eq!(key(InputMode::Type, Key::Char(' ')), Some(Input::Type(' ')));
    assert_eq!(key(InputMode::Type, Key::Char('\n')), Some(Input::Type('\n')));
}

#[test]
fn escape_goes_back_in_both_modes() {
    assert_eq!(key(InputMode::Control, Key::Esc), Some(Input::Back));
    assert_eq!(key(InputMode::Type, Key::Esc), Some(Input::Back));
}

#[test]
fn control_arrows_and_letters_move() {
    assert_eq!(key(InputMode::Control, Key::Left), Some(Input::Left));
    assert_eq!(key(InputMode::Control, Key::Char('a')), Some(Input::Left));
    assert_eq!(key(InputMode::Control, Key::Right), Some(Input::Right));
    assert_eq!(key(InputMode::Control, Key::Char('d')), Some(Input::Right));
    assert_eq!(key(InputMode::Control, Key::Up), Some(Input::Up));
    assert_eq!(key(InputMode::Control, Key::Char('w')), Some(Input::Up));
    assert_eq!(key(InputMode::Control, Key::Down), Some(Input::Down));
    assert_eq!(key(InputMode::Control, Key::Char('s')), Some(Input::Down));
}

#[test]
fn control_enter_and_space_select() {
    assert_eq!(key(InputMode::Control, Key::Char('\n')), Some(Input::Select));
    assert_eq!(key(InputMode::Control, Key::Char(' ')), Some(Input::Select));
}

#[test]
fn typing_arrows_and_control_keys_move() {
    assert_eq!(key(InputMode::Type, Key::Left), Some(Input::Left));
    assert_eq!(key(InputMode::Type, Key::Ctrl('f')), Some(Input::Left));
    assert_eq!(key(InputMode::Type, Key::Right), Some(Input::Right));
    assert_eq!(key(InputMode::Type, Key::Ctrl('b')), Some(Input::Right));
    assert_eq!(key(InputMode::Type, Key::Up), Some(Input::Up));
    assert_eq!(key(InputMode::Type, Key::Ctrl('p')), Some(Input::Up));
    assert_eq!(key(InputMode::Type, Key::Down), Some(Input::Down));
    assert_eq!(key(InputMode::Type, Key::Ctrl('n')), Some(Input::Down));
}

#[test]
fn typing_delete_and_backspace() {
    assert_eq!(key(InputMode::Type, Key::Delete), Some(Input::Del));
    assert_eq!(key(InputMode::Type, Key::Ctrl('d')), Some(Input::Del));
    assert_eq!(key(InputMode::Type, Key::Backspace), Some(Input::BkSpace));
}

#[test]
fn typing_ignores_other_keys() {
    assert_eq!(key(InputMode::Type, Key::Home), None);
    assert_eq!(key(InputMode::Type, Key::F(1)), None);
    assert_eq!(key(InputMode::Type, Key::Alt('x')), None);
    assert_eq!(key(InputMode::Type, Key::Ctrl('x')), None);
}

#[test]
fn mouse_and_unsupported_are_ignored() {
    let press = MouseEvent::Press(MouseButton::Left, 1, 1);
    assert_eq!(InputMode::Control.map(Event::Mouse(press)), None);
    assert_eq!(InputMode::Type.map(Event::Mouse(press)), None);
    assert_eq!(InputMode::Control.map(Event::Mouse(MouseEvent::Release(2, 3))), None);
    assert_eq!(InputMode::Type.map(Event::Mouse(MouseEvent::Hold(2, 3))), None);
    assert_eq!(InputMode::Control.map(Event::Unsupported(vec![27, 91])), None);
    assert_eq!(InputMode::Type.map(Event::Unsupported(vec![27, 91])), None);
}
