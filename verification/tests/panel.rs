use cuneiforbits::debug_log::scroll_target;
use cuneiforbits::debug_log::DebugLog;
use cuneiforbits::debug_log::Inspect;
use cuneiforbits::screen::chars_of;
use cuneiforbits::screen::text_of;
use cuneiforbits::screen::blanks;
use cuneiforbits::screen::Piece;
use cuneiforbits::ui_print::proccess;
use termion::event::Event;
use termion::event::Key;

fn raw(out: &[Piece]) -> String {
    let mut s = String::new();
    for p in out {
        match p {
            Piece::Raw(t) => s.push_str(t),
            Piece::Flush => s.push_str("<flush>"),
            _ => panic!("the panel writes raw text only"),
        }
    }
    s
}

#[test]
fn scroll_does_not_go_below_zero() {
    let mut log = DebugLog::new();
    assert_eq!(log.offset(), 0);
    log.scroll(-3);
    assert_eq!(log.offset(), 0);
    log.scroll(4);
    assert_eq!(log.offset(), 4);
    log.scroll(-10);
    assert_eq!(log.offset(), 0);
}

#[test]
fn scroll_targets() {
    assert_eq!(scroll_target(0, -3), 0);
    assert_eq!(scroll_target(0, 4), 4);
    assert_eq!(scroll_target(4, -10), 0);
    assert_eq!(scroll_target(10, -4), 6);
    assert_eq!(scroll_target(7, 0), 7);
    assert_eq!(scroll_target(65535, -1), 65534);
    assert_eq!(scroll_target(32768, 32767), 65535);
    assert_eq!(scroll_target(100, -32768), 0);
    assert_eq!(scroll_target(40000, -32768), 7232);
}

#[test]
fn keys_scroll_and_inspect() {
    let mut log = DebugLog::new();
    assert_eq!(log.on_event(&Event::Key(Key::Alt('n'))), None);
    assert_eq!(log.on_event(&Event::Key(Key::Alt('n'))), None);
    assert_eq!(log.offset(), 2);
    assert_eq!(log.on_event(&Event::Key(Key::Alt('p'))), None);
    assert_eq!(log.offset(), 1);
    assert_eq!(log.on_event(&Event::Key(Key::Alt('p'))), None);
    assert_eq!(log.on_event(&Event::Key(Key::Alt('p'))), None);
    assert_eq!(log.offset(), 0);
    assert_eq!(log.on_event(&Event::Key(Key::Alt('g'))), Some(Inspect::Game));
    assert_eq!(log.on_event(&Event::Key(Key::Alt('C'))), Some(Inspect::Components));
    assert_eq!(log.on_event(&Event::Key(Key::Alt('v'))), Some(Inspect::Numbers));
    assert_eq!(log.on_event(&Event::Key(Key::Alt('c'))), None);
    assert_eq!(log.on_event(&Event::Key(Key::Char('n'))), None);
    assert_eq!(log.on_event(&Event::Unsupported(vec![1])), None);
    assert_eq!(log.offset(), 0);
}

#[test]
fn logged_lines_are_kept_in_order() {
    let mut log = DebugLog::new();
    assert!(!log.is_full());
    log.log("first");
    log.log("second");
    assert_eq!(log.lines(), &vec!["first".to_string(), "second".to_string()]);
}

#[test]
fn empty_panel_frame() {
    let log = DebugLog::new();
    let mut out: Vec<Piece> = Vec::new();
    log.redraw(40, &mut out);
    assert_eq!(raw(&out), "\x1b[15;1H\x1b[J\x1b[15;61H<flush>");
}

#[test]
fn panel_frame_with_lines_and_text() {
    let mut log = DebugLog::new();
    log.log("one");
    log.log("two");
    log.load_info("a\nbc\nd".to_string());
    let mut out: Vec<Piece> = Vec::new();
    log.redraw(40, &mut out);
    assert_eq!(
        raw(&out),
        "\x1b[15;1H\x1b[J\x1b[15;1Hone\x1b[16;1Htwo\x1b[15;61Ha\x1b[16;61Hbc\x1b[17;61Hd<flush>"
    );
}

#[test]
fn scrolled_text_leaves_lines_out() {
    let mut log = DebugLog::new();
    log.load_info("a\nbc\nd\ne".to_string());
    log.scroll(2);
    assert_eq!(log.info_pane(40), "\x1b[15;61Hd\x1b[16;61He");
    log.scroll(1);
    assert_eq!(log.info_pane(40), "\x1b[15;61He");
    log.scroll(5);
    assert_eq!(log.info_pane(40), "");
}

#[test]
fn text_stops_where_the_terminal_ends() {
    let mut log = DebugLog::new();
    log.load_info("0\n1\n2\n3\n4\n5".to_string());
    assert_eq!(log.info_pane(17), "0\x1b[16;61H1\x1b[17;61H2");
    assert_eq!(log.info_pane(15), "0");
    log.scroll(1);
    assert_eq!(log.info_pane(16), "\x1b[15;61H1\x1b[16;61H2");
}

#[test]
fn wide_characters_are_padded() {
    assert_eq!(proccess("", &vec![]), "");
    assert_eq!(proccess("abc", &vec![1, 1, 1]), "abc");
    assert_eq!(proccess("a𒀿|", &vec![1, 3, 1]), "a𒀿  |");
    assert_eq!(proccess("xy", &vec![2, 0]), "x y");
}

#[test]
fn characters_and_text() {
    assert_eq!(chars_of("a𒀿b"), vec!['a', '𒀿', 'b']);
    assert_eq!(chars_of(""), Vec::<char>::new());
    assert_eq!(text_of(&vec!['h', 'é', 'y']), "héy");
    assert_eq!(text_of(&vec![]), "");
    assert_eq!(blanks(0), "");
    assert_eq!(blanks(3), "   ");
}
