use cuneiforbits::screen::Piece;
use cuneiforbits::ui::type_box::TypeBox;
use cuneiforbits::ui::Input;

fn listening(len: u8) -> TypeBox {
    let mut b = TypeBox::new().at(1, 1).with_len(len);
    let mut out: Vec<Piece> = Vec::new();
    b.activate(true, &mut out);
    b
}

fn text(b: &TypeBox) -> String {
    b.content().iter().collect()
}

fn raw(out: &[Piece]) -> String {
    let mut s = String::new();
    for p in out {
        match p {
            Piece::Raw(t) | Piece::Wide(t) => s.push_str(t),
            Piece::Flush => s.push_str("<flush>"),
            _ => panic!("no such piece comes from a text field"),
        }
    }
    s
}

#[test]
fn new_field_is_empty_and_silent() {
    let b = TypeBox::new();
    assert_eq!(text(&b), "");
    assert_eq!(b.cursor(), 0);
    assert!(!b.is_active());
}

#[test]
fn inactive_field_ignores_input() {
    let mut b = TypeBox::new().at(1, 1).with_len(5);
    assert!(!b.take_input(&Input::Type('a')));
    assert!(!b.take_input(&Input::Left));
    assert!(!b.take_input(&Input::BkSpace));
    assert_eq!(text(&b), "");
    assert_eq!(b.cursor(), 0);
}

#[test]
fn backspace_on_empty_field_changes_nothing() {
    let mut b = listening(5);
    assert!(b.take_input(&Input::BkSpace));
    assert_eq!(text(&b), "");
    assert_eq!(b.cursor(), 0);
}

#[test]
fn field_of_five_takes_five_characters() {
    let mut b = listening(5);
    for _ in 0..5 {
        assert!(b.take_input(&Input::Type('a')));
    }
    assert_eq!(text(&b), "aaaaa");
    assert_eq!(b.cursor(), 5);
    assert!(b.take_input(&Input::Type('a')));
    assert_eq!(text(&b), "aaaaa");
    assert_eq!(b.content().len(), 5);
    assert_eq!(b.cursor(), 5);
}

#[test]
fn typing_puts_characters_at_the_cursor() {
    let mut b = listening(5);
    b.take_input(&Input::Type('a'));
    b.take_input(&Input::Type('c'));
    b.take_input(&Input::Left);
    b.take_input(&Input::Type('b'));
    assert_eq!(text(&b), "abc");
    assert_eq!(b.cursor(), 2);
}

#[test]
fn line_break_is_not_typed() {
    let mut b = listening(5);
    assert!(!b.take_input(&Input::Type('\n')));
    assert_eq!(text(&b), "");
}

#[test]
fn other_commands_are_not_for_the_field() {
    let mut b = listening(5);
    assert!(!b.take_input(&Input::Up));
    assert!(!b.take_input(&Input::Down));
    assert!(!b.take_input(&Input::Select));
    assert!(!b.take_input(&Input::Back));
}

#[test]
fn left_stops_at_the_start() {
    let mut b = listening(5);
    b.take_input(&Input::Type('a'));
    assert!(b.take_input(&Input::Left));
    assert_eq!(b.cursor(), 0);
    assert!(b.take_input(&Input::Left));
    assert_eq!(b.cursor(), 0);
}

#[test]
fn right_stops_behind_the_content() {
    let mut b = listening(5);
    b.take_input(&Input::Type('a'));
    b.take_input(&Input::Type('b'));
    b.take_input(&Input::Left);
    b.take_input(&Input::Left);
    assert!(b.take_input(&Input::Right));
    assert_eq!(b.cursor(), 1);
    assert!(b.take_input(&Input::Right));
    assert_eq!(b.cursor(), 2);
    assert!(b.take_input(&Input::Right));
    assert_eq!(b.cursor(), 2);
}

#[test]
fn right_stops_at_the_last_column() {
    let mut b = listening(3);
    b.take_input(&Input::Type('a'));
    b.take_input(&Input::Type('b'));
    b.take_input(&Input::Type('c'));
    assert_eq!(b.cursor(), 3);
    b.take_input(&Input::Left);
    b.take_input(&Input::Left);
    assert_eq!(b.cursor(), 1);
    b.take_input(&Input::Right);
    assert_eq!(b.cursor(), 2);
    b.take_input(&Input::Right);
    assert_eq!(b.cursor(), 2);
}

#[test]
fn backspace_removes_before_the_cursor() {
    let mut b = listening(5);
    b.take_input(&Input::Type('a'));
    b.take_input(&Input::Type('b'));
    b.take_input(&Input::Type('c'));
    b.take_input(&Input::Left);
    assert!(b.take_input(&Input::BkSpace));
    assert_eq!(text(&b), "ac");
    assert_eq!(b.cursor(), 1);
}

#[test]
fn delete_removes_at_the_cursor() {
    let mut b = listening(5);
    b.take_input(&Input::Type('a'));
    b.take_input(&Input::Type('b'));
    b.take_input(&Input::Type('c'));
    b.take_input(&Input::Left);
    b.take_input(&Input::Left);
    assert!(b.take_input(&Input::Del));
    assert_eq!(text(&b), "ac");
    assert_eq!(b.cursor(), 1);
}

#[test]
fn delete_at_the_end_changes_nothing() {
    let mut b = listening(5);
    b.take_input(&Input::Type('a'));
    assert!(b.take_input(&Input::Del));
    assert_eq!(text(&b), "a");
    assert_eq!(b.cursor(), 1);
}

#[test]
fn field_of_no_width_takes_nothing() {
    let mut b = listening(0);
    assert!(b.take_input(&Input::Type('a')));
    assert!(b.take_input(&Input::Right));
    assert_eq!(text(&b), "");
    assert_eq!(b.cursor(), 0);
}

#[test]
fn fill_keeps_what_fits() {
    let mut b = TypeBox::new().at(1, 1).with_len(3);
    b.fill("abcdef");
    assert_eq!(text(&b), "abc");
    b.fill("x");
    assert_eq!(text(&b), "x");
    assert_eq!(b.text(), "x");
}

#[test]
fn narrowing_cuts_the_content() {
    let mut b = listening(5);
    for c in ['a', 'b', 'c', 'd'] {
        b.take_input(&Input::Type(c));
    }
    let b = b.with_len(2);
    assert_eq!(text(&b), "ab");
    assert_eq!(b.cursor(), 2);
}

#[test]
fn activation_writes_cursor_style() {
    let mut b = TypeBox::new().at(1, 1).with_len(5);
    let mut out: Vec<Piece> = Vec::new();
    b.activate(true, &mut out);
    assert!(b.is_active());
    assert_eq!(raw(&out), "\x1b[1 q");
    b.activate(true, &mut out);
    assert_eq!(raw(&out), "\x1b[1 q");
    let mut out: Vec<Piece> = Vec::new();
    b.activate(false, &mut out);
    assert!(!b.is_active());
    assert_eq!(raw(&out), "\x1b[?25l\x1b[u");
    b.activate(false, &mut out);
    assert_eq!(raw(&out), "\x1b[?25l\x1b[u");
}

#[test]
fn silent_field_is_drawn_plain_and_padded() {
    let mut b = TypeBox::new().at(4, 2).with_len(5);
    b.fill("ab");
    let mut out: Vec<Piece> = Vec::new();
    b.before_render(&mut out);
    b.draw(&mut out);
    b.after_render(&mut out);
    assert_eq!(raw(&out), "\x1b[2;4Hab   ");
}

#[test]
fn listening_field_is_drawn_inverted_with_cursor() {
    let mut b = TypeBox::new().at(4, 2).with_len(5);
    let mut out: Vec<Piece> = Vec::new();
    b.activate(true, &mut out);
    b.take_input(&Input::Type('h'));
    b.take_input(&Input::Type('i'));
    let mut out: Vec<Piece> = Vec::new();
    b.before_render(&mut out);
    assert_eq!(raw(&out), "\x1b[?25l");
    let mut out: Vec<Piece> = Vec::new();
    b.draw(&mut out);
    assert_eq!(raw(&out), "\x1b[38;5;0m\x1b[48;5;7m\x1b[2;4Hhi   \x1b[39m\x1b[49m");
    let mut out: Vec<Piece> = Vec::new();
    b.after_render(&mut out);
    assert_eq!(raw(&out), "\x1b[2;6H\x1b[?25h");
}

#[test]
fn field_far_out_is_drawn_where_it_is() {
    let mut b = TypeBox::new().at(65280, 65535).with_len(255);
    let mut out: Vec<Piece> = Vec::new();
    b.activate(true, &mut out);
    for _ in 0..255 {
        b.take_input(&Input::Type('x'));
    }
    assert_eq!(b.cursor(), 255);
    let mut out: Vec<Piece> = Vec::new();
    b.after_render(&mut out);
    assert_eq!(raw(&out), "\x1b[65535;65535H\x1b[?25h");
    let mut out: Vec<Piece> = Vec::new();
    b.activate(false, &mut out);
    let b = b.at(100, 7).with_len(0);
    let mut out: Vec<Piece> = Vec::new();
    b.draw(&mut out);
    assert_eq!(raw(&out), "\x1b[7;100H");
}
