use cuneiforbits::game::Game;
use cuneiforbits::job::Luck;
use cuneiforbits::screen::Piece;
use cuneiforbits::ui::jobs_view;
use cuneiforbits::ui::jobs_view::HorizSel;
use cuneiforbits::ui::leave_editing;
use cuneiforbits::ui::push_of;
use cuneiforbits::ui::rockets_view;
use cuneiforbits::ui::tick_view;
use cuneiforbits::ui::unimplemented_view;
use cuneiforbits::ui::AnyView;
use cuneiforbits::ui::FullView;
use cuneiforbits::ui::Input;
use cuneiforbits::ui::InputMode;
use cuneiforbits::ui::Transition;
use cuneiforbits::ui::UI;
use termion::event::Event;
use termion::event::Key;

fn luck(customer: u8, name: &str) -> Luck {
    Luck { customer, name: name.to_string() }
}

fn press(ui: &mut UI, game: &mut Game, k: Key) -> bool {
    let mut out: Vec<Piece> = Vec::new();
    ui.input(game, &luck(0, "Space X"), Event::Key(k), &mut out)
}

fn follow(ui: &mut UI, game: &mut Game, t: Transition) -> bool {
    let mut out: Vec<Piece> = Vec::new();
    ui.handle_trans(game, &luck(0, "Space X"), Some(t), &mut out)
}

fn placeholder() -> AnyView {
    AnyView::Placeholder(unimplemented_view::View::new())
}

fn menu_selection(ui: &UI) -> u8 {
    match &ui.current_view {
        AnyView::Tabs(v) => v.selection(),
        _ => panic!("the menu is not current"),
    }
}

fn flushes(out: &[Piece]) -> usize {
    out.iter().filter(|p| matches!(p, Piece::Flush)).count()
}

#[test]
fn new_interface_shows_the_menu() {
    let game = Game::new();
    let ui = UI::new(&game);
    assert!(matches!(ui.current_view, AnyView::Tabs(_)));
    assert!(ui.view_stack.is_empty());
    assert_eq!(ui.input_mode, InputMode::Control);
    assert_eq!(menu_selection(&ui), 0);
}

#[test]
fn pushes_and_pops_balance() {
    for n in 0..6usize {
        let mut game = Game::new();
        let mut ui = UI::new(&game);
        press(&mut ui, &mut game, Key::Down);
        for i in 0..n {
            let view = if i % 2 == 0 {
                placeholder()
            } else {
                AnyView::Rockets(rockets_view::View::new())
            };
            assert!(follow(&mut ui, &mut game, Transition::Push(Box::new(view))));
            assert_eq!(ui.view_stack.len(), i + 1);
        }
        for i in 0..n {
            assert!(follow(&mut ui, &mut game, Transition::Pop));
            assert_eq!(ui.view_stack.len(), n - i - 1);
        }
        assert!(ui.view_stack.is_empty());
        assert!(matches!(ui.current_view, AnyView::Tabs(_)));
        assert_eq!(menu_selection(&ui), 1);
        assert_eq!(ui.input_mode, InputMode::Control);
    }
}

#[test]
fn pop_on_empty_stack_ends_the_session() {
    let mut game = Game::new();
    let mut ui = UI::new(&game);
    press(&mut ui, &mut game, Key::Down);
    press(&mut ui, &mut game, Key::Down);
    let mut out: Vec<Piece> = Vec::new();
    let cont = ui.handle_trans(&mut game, &luck(0, "A"), Some(Transition::Pop), &mut out);
    assert!(!cont);
    assert!(out.is_empty());
    assert!(ui.view_stack.is_empty());
    assert!(matches!(ui.current_view, AnyView::Tabs(_)));
    assert_eq!(menu_selection(&ui), 2);
    assert_eq!(ui.input_mode, InputMode::Control);
    assert_eq!(game.available_jobs().len(), 0);
}

#[test]
fn escape_on_the_menu_ends_the_session() {
    let mut game = Game::new();
    let mut ui = UI::new(&game);
    assert!(!press(&mut ui, &mut game, Key::Esc));
}

#[test]
fn exit_tab_ends_the_session() {
    let mut game = Game::new();
    let mut ui = UI::new(&game);
    for _ in 0..4 {
        assert!(press(&mut ui, &mut game, Key::Down));
    }
    assert_eq!(menu_selection(&ui), 4);
    assert!(!press(&mut ui, &mut game, Key::Char('\n')));
}

#[test]
fn unknown_keys_change_nothing() {
    let mut game = Game::new();
    let mut ui = UI::new(&game);
    let mut out: Vec<Piece> = Vec::new();
    assert!(ui.input(&mut game, &luck(0, "A"), Event::Key(Key::Char('j')), &mut out));
    assert!(ui.input(&mut game, &luck(0, "A"), Event::Unsupported(vec![1, 2]), &mut out));
    assert!(out.is_empty());
    assert_eq!(menu_selection(&ui), 0);
}

#[test]
fn menu_selection_wraps() {
    let mut game = Game::new();
    let mut ui = UI::new(&game);
    assert!(press(&mut ui, &mut game, Key::Up));
    assert_eq!(menu_selection(&ui), 4);
    assert!(press(&mut ui, &mut game, Key::Down));
    assert_eq!(menu_selection(&ui), 0);
    assert!(press(&mut ui, &mut game, Key::Char('s')));
    assert_eq!(menu_selection(&ui), 1);
    assert!(press(&mut ui, &mut game, Key::Char('w')));
    assert_eq!(menu_selection(&ui), 0);
}

#[test]
fn tick_view_pops_itself() {
    let mut game = Game::new();
    let mut ui = UI::new(&game);
    for _ in 0..3 {
        press(&mut ui, &mut game, Key::Down);
    }
    assert_eq!(menu_selection(&ui), 3);
    let mut out: Vec<Piece> = Vec::new();
    let cont = ui.input(&mut game, &luck(2, "Sat Corp"), Event::Key(Key::Char(' ')), &mut out);
    assert!(cont);
    assert!(ui.view_stack.is_empty());
    assert!(matches!(ui.current_view, AnyView::Tabs(_)));
    assert_eq!(menu_selection(&ui), 3);
    assert_eq!(game.available_jobs().len(), 1);
    assert_eq!(game.customers().name_of(game.available_jobs()[0].customer), Some("Sat Corp".to_string()));
    // the menu was resumed once: drawn on resuming, and drawn once more
    assert_eq!(flushes(&out), 2);
    // and the tab leads to a tick again
    assert!(press(&mut ui, &mut game, Key::Char(' ')));
    assert_eq!(game.available_jobs().len(), 2);
    assert!(ui.view_stack.is_empty());
}

#[test]
fn pushed_tick_view_is_undone() {
    let mut game = Game::new();
    let mut ui = UI::new(&game);
    follow(&mut ui, &mut game, Transition::Push(Box::new(placeholder())));
    let tick = AnyView::Tick(tick_view::View::new());
    assert!(follow(&mut ui, &mut game, push_of(tick)));
    assert_eq!(ui.view_stack.len(), 1);
    assert!(matches!(ui.current_view, AnyView::Placeholder(_)));
    assert_eq!(game.available_jobs().len(), 1);
}

#[test]
fn selecting_a_tab_pushes_its_view_and_back_pops_it() {
    let mut game = Game::new();
    let mut ui = UI::new(&game);
    assert!(press(&mut ui, &mut game, Key::Char('\n')));
    assert!(matches!(ui.current_view, AnyView::Placeholder(_)));
    assert_eq!(ui.view_stack.len(), 1);
    assert!(press(&mut ui, &mut game, Key::Up));
    assert!(matches!(ui.current_view, AnyView::Placeholder(_)));
    assert!(press(&mut ui, &mut game, Key::Esc));
    assert!(matches!(ui.current_view, AnyView::Tabs(_)));
    assert!(ui.view_stack.is_empty());
    // the tab leads to the same view again
    assert!(ui.accepts(&game, Some(Input::Select)));
    assert!(press(&mut ui, &mut game, Key::Char('\n')));
    assert!(matches!(ui.current_view, AnyView::Placeholder(_)));
}

#[test]
fn spent_tab_cannot_be_selected() {
    let mut game = Game::new();
    let mut ui = UI::new(&game);
    for _ in 0..4 {
        press(&mut ui, &mut game, Key::Down);
    }
    assert!(ui.accepts(&game, Some(Input::Select)));
    assert!(!press(&mut ui, &mut game, Key::Char('\n')));
    assert!(!ui.accepts(&game, Some(Input::Select)));
    assert!(ui.accepts(&game, Some(Input::Up)));
    assert!(ui.accepts(&game, None));
    let mut out: Vec<Piece> = Vec::new();
    let r = ui.try_input(&mut game, &luck(0, "A"), Event::Key(Key::Char('\n')), &mut out);
    assert_eq!(r, None);
    assert!(out.is_empty());
    let r = ui.try_input(&mut game, &luck(0, "A"), Event::Key(Key::Up), &mut out);
    assert_eq!(r, Some(true));
    assert_eq!(menu_selection(&ui), 3);
    let r = ui.try_input(&mut game, &luck(0, "A"), Event::Key(Key::Char('q')), &mut out);
    assert_eq!(r, Some(true));
}

#[test]
fn input_mode_transition_sets_the_mode() {
    let mut game = Game::new();
    let mut ui = UI::new(&game);
    let mut out: Vec<Piece> = Vec::new();
    let l = luck(0, "A");
    assert!(ui.handle_trans(&mut game, &l, Some(Transition::InputMode(InputMode::Type)), &mut out));
    assert_eq!(ui.input_mode, InputMode::Type);
    assert!(out.is_empty());
    assert!(ui.handle_trans(&mut game, &l, None, &mut out));
    assert_eq!(ui.input_mode, InputMode::Type);
    assert!(ui.handle_trans(&mut game, &l, Some(Transition::InputMode(InputMode::Control)), &mut out));
    assert_eq!(ui.input_mode, InputMode::Control);
}

#[test]
fn batch_applies_every_member_in_order() {
    let mut game = Game::new();
    let mut ui = UI::new(&game);
    let batch = Transition::Multiple(vec![
        Transition::Push(Box::new(placeholder())),
        Transition::InputMode(InputMode::Type),
        Transition::Push(Box::new(AnyView::Rockets(rockets_view::View::new()))),
        Transition::Pop,
    ]);
    assert!(follow(&mut ui, &mut game, batch));
    assert!(matches!(ui.current_view, AnyView::Placeholder(_)));
    assert_eq!(ui.view_stack.len(), 1);
    assert_eq!(ui.input_mode, InputMode::Type);
    assert!(follow(&mut ui, &mut game, Transition::Multiple(vec![])));
    assert_eq!(ui.view_stack.len(), 1);
}

#[test]
fn batch_goes_on_after_a_terminating_pop() {
    let mut game = Game::new();
    let mut ui = UI::new(&game);
    let batch = Transition::Multiple(vec![
        Transition::Pop,
        Transition::InputMode(InputMode::Type),
        Transition::Push(Box::new(placeholder())),
    ]);
    assert!(!follow(&mut ui, &mut game, batch));
    assert_eq!(ui.input_mode, InputMode::Type);
    assert_eq!(ui.view_stack.len(), 1);
    assert!(matches!(ui.current_view, AnyView::Placeholder(_)));
}

#[test]
fn leaving_editing_restores_steering_and_pops() {
    let mut game = Game::new();
    let mut ui = UI::new(&game);
    follow(&mut ui, &mut game, Transition::Push(Box::new(placeholder())));
    follow(&mut ui, &mut game, Transition::InputMode(InputMode::Type));
    assert!(follow(&mut ui, &mut game, leave_editing()));
    assert_eq!(ui.input_mode, InputMode::Control);
    assert!(ui.view_stack.is_empty());
    assert!(matches!(ui.current_view, AnyView::Tabs(_)));
    // with nothing suspended the pop in it ends the session
    assert!(!follow(&mut ui, &mut game, leave_editing()));
}

#[test]
fn nested_batches() {
    let mut game = Game::new();
    let mut ui = UI::new(&game);
    let inner = Transition::Multiple(vec![Transition::Push(Box::new(placeholder())), Transition::Pop]);
    let outer = Transition::Multiple(vec![inner, Transition::Push(Box::new(placeholder()))]);
    assert!(follow(&mut ui, &mut game, outer));
    assert_eq!(ui.view_stack.len(), 1);
}

#[test]
fn accepting_the_last_job_moves_the_selection_up() {
    let mut game = Game::new();
    game.tick_with(&luck(0, "A"));
    game.tick_with(&luck(1, "B"));
    game.tick_with(&luck(2, "C"));
    let mut ui = UI::new(&game);
    press(&mut ui, &mut game, Key::Down);
    assert!(press(&mut ui, &mut game, Key::Char('\n')));
    press(&mut ui, &mut game, Key::Down);
    press(&mut ui, &mut game, Key::Down);
    press(&mut ui, &mut game, Key::Right);
    match &ui.current_view {
        AnyView::Jobs(v) => {
            assert_eq!(v.vert_sel, 2);
            assert_eq!(v.horiz_sel, HorizSel::Accept);
            assert!(!v.no_jobs);
        },
        _ => panic!("the list of jobs is not current"),
    }
    assert!(press(&mut ui, &mut game, Key::Char('\n')));
    assert_eq!(game.available_jobs().len(), 2);
    assert_eq!(game.accepted_jobs().len(), 1);
    assert_eq!(game.accepted_jobs()[0].customer.0, 2);
    match &ui.current_view {
        AnyView::Jobs(v) => assert_eq!(v.vert_sel, 1),
        _ => panic!("the list of jobs is not current"),
    }
}

#[test]
fn declining_in_the_middle_keeps_the_selection() {
    let mut game = Game::new();
    game.tick_with(&luck(0, "A"));
    game.tick_with(&luck(1, "B"));
    game.tick_with(&luck(2, "C"));
    let mut v = jobs_view::View::new(&game);
    let mut out: Vec<Piece> = Vec::new();
    v.update(&mut game, Input::Down, &mut out);
    v.update(&mut game, Input::Right, &mut out);
    v.update(&mut game, Input::Right, &mut out);
    assert_eq!(v.horiz_sel, HorizSel::Decline);
    assert!(v.update(&mut game, Input::Select, &mut out).is_none());
    assert_eq!(v.vert_sel, 1);
    assert_eq!(game.available_jobs().len(), 2);
    assert_eq!(game.accepted_jobs().len(), 0);
    v.update(&mut game, Input::Select, &mut out);
    assert_eq!(v.vert_sel, 0);
    v.update(&mut game, Input::Select, &mut out);
    assert_eq!(v.vert_sel, 0);
    assert_eq!(game.available_jobs().len(), 0);
    assert!(v.no_jobs);
    // with no jobs left nothing more is declined
    assert!(v.accepts(&game, Input::Select));
    v.update(&mut game, Input::Select, &mut out);
    assert_eq!(v.vert_sel, 0);
}

#[test]
fn start_hides_the_cursor_and_draws() {
    let game = Game::new();
    let mut ui = UI::new(&game);
    let mut out: Vec<Piece> = Vec::new();
    ui.start(&game, &mut out);
    match &out[0] {
        Piece::Wide(s) => assert_eq!(s, "\x1b[?25l"),
        _ => panic!("the cursor is hidden first"),
    }
    assert_eq!(flushes(&out), 1);
}

#[test]
fn close_clears_the_screen() {
    let mut out: Vec<Piece> = Vec::new();
    UI::close(&mut out);
    assert_eq!(out.len(), 2);
    match &out[0] {
        Piece::Raw(s) => assert_eq!(s, "\x1b[2J\x1b[1;1H\x1b[?25h"),
        _ => panic!("the screen is cleared first"),
    }
    assert!(matches!(out[1], Piece::Flush));
}
