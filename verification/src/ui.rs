//! The user interface: a current view over a stack of suspended ones, fed
//! with the commands that key presses translate to.

use vstd::prelude::*;
use termion::event::Event;
use termion::event::Key;
use termion::event::MouseButton;
use termion::event::MouseEvent;
use crate::game::Game;
use crate::game::GameModel;
use crate::job::Luck;
use crate::job::LuckModel;
use crate::screen::Piece;
use crate::screen::PieceModel;
use crate::screen::clear_all;
use crate::screen::clear_all_text;
use crate::screen::emit;
use crate::screen::goto;
use crate::screen::goto_text;
use crate::screen::hide_cursor;
use crate::screen::hide_text;
use crate::screen::pieces_of;
use crate::screen::show_cursor;
use crate::screen::show_text;

pub mod basic_tl_view;
pub mod jobs_view;
pub mod navigation;
pub mod rocket_builder_view;
pub mod rockets_view;
pub mod tick_view;
pub mod type_box;
pub mod unimplemented_view;

verus! {

/// termion's `Event`, with the variants that termion gives it: a key, a
/// mouse event, or bytes that termion could not make sense of.
#[verifier::external_type_specification]
pub struct ExEvent(Event);

/// termion's `Key`, with the variants that termion gives it.
#[verifier::external_type_specification]
pub struct ExKey(Key);

/// termion's `MouseEvent`, with the variants that termion gives it.
#[verifier::external_type_specification]
pub struct ExMouseEvent(MouseEvent);

/// termion's `MouseButton`, with the variants that termion gives it.
#[verifier::external_type_specification]
pub struct ExMouseButton(MouseButton);

/// What the player wants, whatever key said so.
#[derive(Clone, Copy, Debug, PartialEq, Eq, Structural)]
pub enum Input {
    Up,
    Down,
    Left,
    Right,
    Select,
    Back,
    Type(char),
    Del,
    BkSpace,
}

/// Which keys stand for which commands: those that steer through the
/// views, or those that edit a text field.
#[derive(Clone, Copy, Debug, PartialEq, Eq, Structural)]
pub enum InputMode {
    Control,
    Type,
}

/// Whether the session goes on.
pub type Continue = bool;

/// A request to change what is on the screen or how keys are read.
#[derive(Debug)]
pub enum Transition {
    /// Suspend the current view and make this one current.
    Push(Box<AnyView>),
    /// End the current view and resume the one suspended last.
    Pop,
    /// Read keys in this mode from now on.
    InputMode(InputMode),
    /// Do these one after the other.
    Multiple(Vec<Transition>),
}

/// One of the views there are.
#[derive(Debug)]
pub enum AnyView {
    Tabs(basic_tl_view::View),
    Placeholder(unimplemented_view::View),
    Jobs(jobs_view::View),
    Tick(tick_view::View),
    Rockets(rockets_view::View),
    Builder(rocket_builder_view::View),
}

/// A transition, as plain values.
pub enum TransitionModel {
    Push(ViewModel),
    Pop,
    InputMode(InputMode),
    Multiple(Seq<TransitionModel>),
}

/// A view, as plain values.
pub enum ViewModel {
    Tabs(basic_tl_view::TabsModel),
    Placeholder,
    Jobs(jobs_view::View),
    Tick,
    Rockets(rockets_view::View),
    Builder(rocket_builder_view::BuilderModel),
}

/// What a view's reaction comes to: the view and the game afterwards, the
/// transition it asks for, and what it wrote.
pub struct Outcome {
    pub view: ViewModel,
    pub game: GameModel,
    pub transition: Option<TransitionModel>,
    pub out: Seq<PieceModel>,
}

/// The plain value of a view.
pub open(crate) spec fn view_model(view: AnyView) -> ViewModel
    decreases view,
{
    match view {
        AnyView::Tabs(v) => ViewModel::Tabs(
            basic_tl_view::TabsModel {
                title: v.title@,
                selection: v.selection,
                tabs: tab_models(v.tabs@),
            },
        ),
        AnyView::Placeholder(_) => ViewModel::Placeholder,
        AnyView::Jobs(v) => ViewModel::Jobs(v),
        AnyView::Tick(_) => ViewModel::Tick,
        AnyView::Rockets(v) => ViewModel::Rockets(v),
        AnyView::Builder(v) => ViewModel::Builder(v@),
    }
}

/// The plain values of a menu's tabs.
pub open(crate) spec fn tab_models(tabs: Seq<basic_tl_view::Tab>) -> Seq<basic_tl_view::TabModel>
    decreases tabs,
{
    Seq::new(
        tabs.len(),
        |i: int|
            basic_tl_view::TabModel {
                name: tabs[i].name@,
                transition: if 0 <= i < tabs.len() {
                    match tabs[i].transition {
                        Some(t) => Some(transition_model(t)),
                        None => None,
                    }
                } else {
                    None
                },
            },
    )
}

/// The plain value of a transition.
pub open(crate) spec fn transition_model(transition: Transition) -> TransitionModel
    decreases transition,
{
    match transition {
        Transition::Push(view) => TransitionModel::Push(view_model(*view)),
        Transition::Pop => TransitionModel::Pop,
        Transition::InputMode(mode) => TransitionModel::InputMode(mode),
        Transition::Multiple(v) => TransitionModel::Multiple(
            Seq::new(
                v@.len(),
                |i: int|
                    if 0 <= i < v@.len() {
                        transition_model(v@[i])
                    } else {
                        TransitionModel::Pop
                    },
            ),
        ),
    }
}

impl View for AnyView {
    type V = ViewModel;

    open(crate) spec fn view(&self) -> ViewModel {
        view_model(*self)
    }
}

impl View for Transition {
    type V = TransitionModel;

    open(crate) spec fn view(&self) -> TransitionModel {
        transition_model(*self)
    }
}

/// The plain value of a transition, if there is one.
pub open spec fn asked(transition: Option<Transition>) -> Option<TransitionModel> {
    match transition {
        Some(t) => Some(t@),
        None => None,
    }
}

/// The transition that makes `view` current.
pub fn push_of(view: AnyView) -> (t: Transition)
    ensures
        t@ == TransitionModel::Push(view@),
{
    Transition::Push(Box::new(view))
}

/// What leaving a view that edits text asks for: steering keys again, and
/// the view to end.
pub open spec fn leaving_editing() -> TransitionModel {
    TransitionModel::Multiple(
        seq![TransitionModel::InputMode(InputMode::Control), TransitionModel::Pop],
    )
}

/// The transition that leaves a view that edits text.
pub fn leave_editing() -> (t: Transition)
    ensures
        t@ == leaving_editing(),
{
    let mut both: Vec<Transition> = Vec::new();
    both.push(Transition::InputMode(InputMode::Control));
    both.push(Transition::Pop);
    let t = Transition::Multiple(both);
    assert(transition_model(both@[0]) == TransitionModel::InputMode(InputMode::Control));
    assert(transition_model(both@[1]) == TransitionModel::Pop);
    assert(t@->Multiple_0 =~= seq![
        TransitionModel::InputMode(InputMode::Control),
        TransitionModel::Pop,
    ]);
    t
}

/// What a view is drawn as.
pub open spec fn frame(view: ViewModel, game: GameModel) -> Seq<PieceModel> {
    match view {
        ViewModel::Tabs(v) => v.frame(),
        ViewModel::Placeholder => unimplemented_view::frame(),
        ViewModel::Jobs(v) => v.frame(game),
        ViewModel::Tick => tick_view::frame(),
        ViewModel::Rockets(v) => v.frame(game),
        ViewModel::Builder(v) => v.frame(game),
    }
}

/// The view after it was drawn: the list of jobs notes whether there were
/// any.
pub open spec fn redrawn(view: ViewModel, game: GameModel) -> ViewModel {
    match view {
        ViewModel::Jobs(v) => ViewModel::Jobs(v.redrawn(game)),
        _ => view,
    }
}

/// What a view does when it only draws itself.
pub open spec fn only_drawn(view: ViewModel, game: GameModel) -> Outcome {
    Outcome { view: redrawn(view, game), game, transition: None, out: frame(view, game) }
}

/// Whether a view can react to a command in a game. It cannot where it
/// would have to reach for what is not there. The view that ticks the game
/// can react to none: it ends as soon as it becomes current, and a command
/// that finds it current finds the interface out of order.
pub open spec fn can_update(view: ViewModel, game: GameModel, input: Input) -> bool {
    match view {
        ViewModel::Tabs(v) => v.can_update(input),
        ViewModel::Placeholder => true,
        ViewModel::Jobs(v) => v.can_update(game, input),
        ViewModel::Tick => false,
        ViewModel::Rockets(v) => v.can_update(game, input),
        ViewModel::Builder(v) => v.can_update(game, input),
    }
}

/// A view's reaction to a command.
pub open spec fn updated(view: ViewModel, game: GameModel, input: Input) -> Outcome {
    match view {
        ViewModel::Tabs(v) => v.updated(game, input),
        ViewModel::Placeholder => unimplemented_view::updated(game, input),
        ViewModel::Jobs(v) => v.updated(game, input),
        ViewModel::Tick => tick_view::updated(game, input),
        ViewModel::Rockets(v) => v.updated(game, input),
        ViewModel::Builder(v) => v.updated(game, input),
    }
}

/// A view's reaction to becoming current for the first time.
pub open spec fn started(view: ViewModel, game: GameModel, luck: LuckModel) -> Outcome {
    match view {
        ViewModel::Tick => tick_view::started(game, luck),
        ViewModel::Rockets(v) => v.resettled(game),
        ViewModel::Builder(v) => v.started(game),
        _ => only_drawn(view, game),
    }
}

/// A view's reaction to becoming current again, after `last` has ended.
pub open spec fn restarted(view: ViewModel, game: GameModel, last: ViewModel) -> Outcome {
    match view {
        ViewModel::Tabs(v) => v.restarted(game, last),
        ViewModel::Rockets(v) => v.resettled(game),
        _ => only_drawn(view, game),
    }
}

/// Whether what happened is what `outcome` says: the view and the game
/// are as it says, the transition is the one it asks for, and what it wrote
/// has been added to the output.
pub open spec fn came_to(
    outcome: Outcome,
    view: ViewModel,
    game: GameModel,
    transition: Option<TransitionModel>,
    before: Seq<PieceModel>,
    after: Seq<PieceModel>,
) -> bool {
    &&& view == outcome.view
    &&& game == outcome.game
    &&& transition == outcome.transition
    &&& after == before + outcome.out
}

/// What every view can do: draw itself, react to a command, and react to
/// becoming current.
pub trait FullView: Sized {
    /// The view as plain values.
    spec fn model(&self) -> ViewModel;

    /// Draws the whole view.
    fn full_redraw(&mut self, game: &Game, out: &mut Vec<Piece>)
        requires
            game.wf(),
        ensures
            final(self).model() == redrawn(old(self).model(), game@),
            pieces_of(final(out)@) == pieces_of(old(out)@) + frame(old(self).model(), game@),
    ;

    /// Reacts to a command.
    fn update(&mut self, game: &mut Game, input: Input, out: &mut Vec<Piece>) -> (t: Option<Transition>)
        requires
            old(game).wf(),
            can_update(old(self).model(), old(game)@, input),
        ensures
            final(game).wf(),
            came_to(
                updated(old(self).model(), old(game)@, input),
                final(self).model(),
                final(game)@,
                asked(t),
                pieces_of(old(out)@),
                pieces_of(final(out)@),
            ),
    ;

    /// Reacts to becoming current again, after `last` has ended.
    fn restart(&mut self, game: &mut Game, last: AnyView, out: &mut Vec<Piece>) -> (t: Option<Transition>)
        requires
            old(game).wf(),
        ensures
            final(game).wf(),
            came_to(
                restarted(old(self).model(), old(game)@, last@),
                final(self).model(),
                final(game)@,
                asked(t),
                pieces_of(old(out)@),
                pieces_of(final(out)@),
            ),
    ;

    /// Reacts to becoming current for the first time.
    fn start(&mut self, game: &mut Game, luck: &Luck, out: &mut Vec<Piece>) -> (t: Option<Transition>)
        requires
            old(game).wf(),
        ensures
            final(game).wf(),
            came_to(
                started(old(self).model(), old(game)@, luck@),
                final(self).model(),
                final(game)@,
                asked(t),
                pieces_of(old(out)@),
                pieces_of(final(out)@),
            ),
    ;
}

/// The command that a key stands for while steering: the arrows or `w`,
/// `a`, `s`, `d` move, Enter or the space bar selects, Escape goes back.
pub open spec fn control_command(key: Key) -> Option<Input> {
    match key {
        Key::Left | Key::Char('a') => Some(Input::Left),
        Key::Right | Key::Char('d') => Some(Input::Right),
        Key::Up | Key::Char('w') => Some(Input::Up),
        Key::Down | Key::Char('s') => Some(Input::Down),
        Key::Char('\n') | Key::Char(' ') => Some(Input::Select),
        Key::Esc => Some(Input::Back),
        _ => None,
    }
}

/// The command that a key stands for while editing: the arrows or Ctrl
/// with `f`, `b`, `p`, `n` move, Delete or Ctrl with `d` deletes forward,
/// Backspace deletes backward, Escape goes back, and any other character
/// is typed.
pub open spec fn typing_command(key: Key) -> Option<Input> {
    match key {
        Key::Left | Key::Ctrl('f') => Some(Input::Left),
        Key::Right | Key::Ctrl('b') => Some(Input::Right),
        Key::Up | Key::Ctrl('p') => Some(Input::Up),
        Key::Down | Key::Ctrl('n') => Some(Input::Down),
        Key::Delete | Key::Ctrl('d') => Some(Input::Del),
        Key::Backspace => Some(Input::BkSpace),
        Key::Char(c) => Some(Input::Type(c)),
        Key::Esc => Some(Input::Back),
        _ => None,
    }
}

/// The command that an event stands for in a mode. Only keys stand for
/// commands.
pub open spec fn translate(mode: InputMode, event: Event) -> Option<Input> {
    match event {
        Event::Key(key) => match mode {
            InputMode::Control => control_command(key),
            InputMode::Type => typing_command(key),
        },
        _ => None,
    }
}

impl InputMode {
    /// The command that `event` stands for in this mode, if any.
    pub fn map(&self, event: Event) -> (input: Option<Input>)
        ensures
            input == translate(*self, event),
    {
        match self {
            InputMode::Control => match event {
                Event::Key(k) => match k {
                    Key::Left | Key::Char('a') => Some(Input::Left),
                    Key::Right | Key::Char('d') => Some(Input::Right),
                    Key::Up | Key::Char('w') => Some(Input::Up),
                    Key::Down | Key::Char('s') => Some(Input::Down),
                    Key::Char('\n') | Key::Char(' ') => Some(Input::Select),
                    Key::Esc => Some(Input::Back),
                    _ => None,
                },
                Event::Mouse(_) => None,
                Event::Unsupported(_) => None,
            },
            InputMode::Type => match event {
                Event::Key(Key::Left) | Event::Key(Key::Ctrl('f')) => Some(Input::Left),
                Event::Key(Key::Right) | Event::Key(Key::Ctrl('b')) => Some(Input::Right),
                Event::Key(Key::Up) | Event::Key(Key::Ctrl('p')) => Some(Input::Up),
                Event::Key(Key::Down) | Event::Key(Key::Ctrl('n')) => Some(Input::Down),
                Event::Key(Key::Delete) | Event::Key(Key::Ctrl('d')) => Some(Input::Del),
                Event::Key(Key::Backspace) => Some(Input::BkSpace),
                Event::Key(Key::Char(c)) => Some(Input::Type(c)),
                Event::Key(Key::Esc) => Some(Input::Back),
                _ => None,
            },
        }
    }
}

/// In either mode Escape goes back.
pub proof fn escape_goes_back(mode: InputMode)
    ensures
        translate(mode, Event::Key(Key::Esc)) == Some(Input::Back),
{
}

/// A character that steers nothing is ignored while steering and typed
/// while editing.
pub proof fn characters_are_typed_only_while_editing(c: char)
    ensures
        translate(InputMode::Type, Event::Key(Key::Char(c))) == Some(Input::Type(c)),
        c != 'a' && c != 'd' && c != 'w' && c != 's' && c != '\n' && c != ' ' ==> translate(
            InputMode::Control,
            Event::Key(Key::Char(c)),
        ) is None,
{
}

/// Mouse events and events that the terminal could not make sense of stand
/// for no command in either mode.
pub proof fn only_keys_are_commands(mode: InputMode, event: Event)
    requires
        !(event is Key),
    ensures
        translate(mode, event) is None,
{
}

impl AnyView {
    /// Whether the view can react to a command in a game.
    pub fn accepts(&self, game: &Game, input: Input) -> (ok: bool)
        ensures
            ok == can_update(self@, game@, input),
    {
        match self {
            AnyView::Tabs(v) => v.accepts(input),
            AnyView::Placeholder(_) => true,
            AnyView::Jobs(v) => v.accepts(game, input),
            AnyView::Tick(_) => false,
            AnyView::Rockets(v) => v.accepts(game, input),
            AnyView::Builder(v) => v.accepts(game, input),
        }
    }
}

impl FullView for AnyView {
    open(crate) spec fn model(&self) -> ViewModel {
        self@
    }

    fn full_redraw(&mut self, game: &Game, out: &mut Vec<Piece>) {
        match self {
            AnyView::Tabs(v) => v.full_redraw(game, out),
            AnyView::Placeholder(v) => v.full_redraw(game, out),
            AnyView::Jobs(v) => v.full_redraw(game, out),
            AnyView::Tick(v) => v.full_redraw(game, out),
            AnyView::Rockets(v) => v.full_redraw(game, out),
            AnyView::Builder(v) => v.full_redraw(game, out),
        }
    }

    fn update(&mut self, game: &mut Game, input: Input, out: &mut Vec<Piece>) -> (t: Option<Transition>) {
        match self {
            AnyView::Tabs(v) => v.update(game, input, out),
            AnyView::Placeholder(v) => v.update(game, input, out),
            AnyView::Jobs(v) => v.update(game, input, out),
            AnyView::Tick(v) => v.update(game, input, out),
            AnyView::Rockets(v) => v.update(game, input, out),
            AnyView::Builder(v) => v.update(game, input, out),
        }
    }

    fn restart(&mut self, game: &mut Game, last: AnyView, out: &mut Vec<Piece>) -> (t: Option<Transition>) {
        match self {
            AnyView::Tabs(v) => v.restart(game, last, out),
            AnyView::Placeholder(v) => v.restart(game, last, out),
            AnyView::Jobs(v) => v.restart(game, last, out),
            AnyView::Tick(v) => v.restart(game, last, out),
            AnyView::Rockets(v) => v.restart(game, last, out),
            AnyView::Builder(v) => v.restart(game, last, out),
        }
    }

    fn start(&mut self, game: &mut Game, luck: &Luck, out: &mut Vec<Piece>) -> (t: Option<Transition>) {
        match self {
            AnyView::Tabs(v) => v.start(game, luck, out),
            AnyView::Placeholder(v) => v.start(game, luck, out),
            AnyView::Jobs(v) => v.start(game, luck, out),
            AnyView::Tick(v) => v.start(game, luck, out),
            AnyView::Rockets(v) => v.start(game, luck, out),
            AnyView::Builder(v) => v.start(game, luck, out),
        }
    }
}

/// The user interface: the view that is current, the views suspended
/// beneath it, the one suspended last at the end, and the mode in which
/// keys are read.
#[derive(Debug)]
pub struct UI {
    pub current_view: AnyView,
    pub view_stack: Vec<AnyView>,
    pub input_mode: InputMode,
}

/// The user interface, as plain values.
pub struct UiModel {
    pub current: ViewModel,
    pub stack: Seq<ViewModel>,
    pub mode: InputMode,
}

/// Where a step has led: the interface and the game afterwards, what was
/// written, and whether the session goes on.
pub struct Reached {
    pub ui: UiModel,
    pub game: GameModel,
    pub out: Seq<PieceModel>,
    pub cont: bool,
}

/// The views of a sequence, each as plain values.
pub open spec fn views_of(views: Seq<AnyView>) -> Seq<ViewModel> {
    views.map_values(|v: AnyView| v@)
}

/// The transitions of a sequence, each as plain values.
pub open spec fn transitions_of(transitions: Seq<Transition>) -> Seq<TransitionModel> {
    Seq::new(transitions.len(), |i: int| transitions[i]@)
}

impl View for UI {
    type V = UiModel;

    open spec fn view(&self) -> UiModel {
        UiModel {
            current: self.current_view@,
            stack: views_of(self.view_stack@),
            mode: self.input_mode,
        }
    }
}

/// A bound on how far a transition can lead: each transition counts one,
/// a batch counts its members too, and a view that asks to end as soon as
/// it becomes current counts for that as well.
pub open spec fn weight(transition: TransitionModel) -> nat
    decreases transition,
{
    match transition {
        TransitionModel::Push(view) => 1 + if view is Tick {
            1nat
        } else {
            0nat
        },
        TransitionModel::Pop => 1,
        TransitionModel::InputMode(_) => 1,
        TransitionModel::Multiple(members) => 1 + weights(members),
    }
}

/// The bound for the members of a batch.
pub open spec fn weights(members: Seq<TransitionModel>) -> nat
    decreases members,
{
    if members.len() == 0 {
        0
    } else {
        1 + weight(members.first()) + weights(members.drop_first())
    }
}

/// The bound for a transition that may be missing.
pub open spec fn opt_weight(transition: Option<TransitionModel>) -> nat {
    match transition {
        Some(t) => weight(t),
        None => 0,
    }
}

/// Where nothing happens: everything stays, nothing is written, and the
/// session goes on.
pub open spec fn stayed(ui: UiModel, game: GameModel) -> Reached {
    Reached { ui, game, out: Seq::empty(), cont: true }
}

/// Where a transition leads.
///
/// To push a view suspends the current one and starts the new one, whose
/// own request is followed at once. To pop resumes the view suspended
/// last, follows its request and draws what is then current; with nothing
/// suspended the session ends and nothing changes. A batch is followed
/// member by member, all of them, and the session goes on only if every
/// member lets it.
pub open spec fn applied(
    ui: UiModel,
    game: GameModel,
    luck: LuckModel,
    transition: Option<TransitionModel>,
) -> Reached
    decreases opt_weight(transition), 1nat,
{
    match transition {
        None => stayed(ui, game),
        Some(TransitionModel::Push(view)) => {
            let begun = started(view, game, luck);
            let next = applied(
                UiModel { current: begun.view, stack: ui.stack.push(ui.current), mode: ui.mode },
                begun.game,
                luck,
                begun.transition,
            );
            Reached { out: begun.out + next.out, ..next }
        },
        Some(TransitionModel::Pop) => if ui.stack.len() == 0 {
            Reached { ui, game, out: Seq::empty(), cont: false }
        } else {
            let resumed = restarted(ui.stack.last(), game, ui.current);
            let next = applied(
                UiModel { current: resumed.view, stack: ui.stack.drop_last(), mode: ui.mode },
                resumed.game,
                luck,
                resumed.transition,
            );
            Reached {
                ui: UiModel { current: redrawn(next.ui.current, next.game), ..next.ui },
                game: next.game,
                out: resumed.out + next.out + frame(next.ui.current, next.game),
                cont: next.cont,
            }
        },
        Some(TransitionModel::InputMode(mode)) => stayed(UiModel { mode, ..ui }, game),
        Some(TransitionModel::Multiple(members)) => applied_all(ui, game, luck, members),
    }
}

/// Where the members of a batch lead, one after the other.
pub open spec fn applied_all(
    ui: UiModel,
    game: GameModel,
    luck: LuckModel,
    members: Seq<TransitionModel>,
) -> Reached
    decreases weights(members), 0nat,
{
    if members.len() == 0 {
        stayed(ui, game)
    } else {
        let head = applied(ui, game, luck, Some(members.first()));
        let tail = applied_all(head.ui, head.game, luck, members.drop_first());
        Reached { out: head.out + tail.out, cont: head.cont && tail.cont, ..tail }
    }
}

impl UiModel {
    /// Whether the interface can take an event: the current view can
    /// react to the command that the event stands for.
    pub open spec fn accepts(self, game: GameModel, event: Event) -> bool {
        match translate(self.mode, event) {
            Some(input) => can_update(self.current, game, input),
            None => true,
        }
    }

    /// Where a command leads: the current view reacts, and its request is
    /// followed.
    pub open spec fn commanded(self, game: GameModel, luck: LuckModel, input: Input) -> Reached {
        let reaction = updated(self.current, game, input);
        let next = applied(
            UiModel { current: reaction.view, ..self },
            reaction.game,
            luck,
            reaction.transition,
        );
        Reached { out: reaction.out + next.out, ..next }
    }

    /// Where an event leads: nowhere if it stands for no command.
    pub open spec fn stepped(self, game: GameModel, luck: LuckModel, event: Event) -> Reached {
        match translate(self.mode, event) {
            Some(input) => self.commanded(game, luck, input),
            None => stayed(self, game),
        }
    }
}

/// Whether what happened is what `reached` says.
pub open spec fn got_to(
    reached: Reached,
    ui: UiModel,
    game: GameModel,
    cont: bool,
    before: Seq<PieceModel>,
    after: Seq<PieceModel>,
) -> bool {
    &&& ui == reached.ui
    &&& game == reached.game
    &&& cont == reached.cont
    &&& after == before + reached.out
}

/// What an interface writes when it begins: the cursor is hidden.
pub open spec fn greeting() -> Seq<PieceModel> {
    seq![PieceModel::Wide(hide_text())]
}

/// What is written when a session is over: the screen is cleared, and the
/// cursor is shown at the top left.
pub open spec fn farewell() -> Seq<PieceModel> {
    seq![PieceModel::Raw(clear_all_text() + goto_text(1, 1) + show_text()), PieceModel::Flush]
}

impl UI {
    /// An interface that shows the menu, with nothing suspended, read in
    /// steering keys.
    pub fn new(game: &Game) -> (ui: UI)
        ensures
            ui@ == (UiModel {
                current: ViewModel::Tabs(basic_tl_view::home(game@)),
                stack: Seq::empty(),
                mode: InputMode::Control,
            }),
    {
        let ui = UI {
            current_view: AnyView::Tabs(basic_tl_view::View::new(game)),
            view_stack: Vec::new(),
            input_mode: InputMode::Control,
        };
        assert(ui@.stack =~= Seq::empty());
        ui
    }

    /// Begins the session: hides the cursor and draws the current view.
    pub fn start(&mut self, game: &Game, out: &mut Vec<Piece>)
        requires
            game.wf(),
        ensures
            final(self)@ == (UiModel {
                current: redrawn(old(self)@.current, game@),
                ..old(self)@
            }),
            pieces_of(final(out)@) == pieces_of(old(out)@) + greeting() + frame(
                old(self)@.current,
                game@,
            ),
    {
        emit(out, Piece::Wide(hide_cursor()));
        assert(pieces_of(out@) =~= pieces_of(old(out)@) + greeting());
        self.current_view.full_redraw(game, out);
    }

    /// Ends the session on the screen.
    pub fn close(out: &mut Vec<Piece>)
        ensures
            pieces_of(final(out)@) == pieces_of(old(out)@) + farewell(),
    {
        let mut s = clear_all();
        s.append(goto(1, 1).as_str());
        s.append(show_cursor().as_str());
        emit(out, Piece::Raw(s));
        emit(out, Piece::Flush);
        assert(pieces_of(out@) =~= pieces_of(old(out)@) + farewell());
    }

    /// Whether the current view can react to a command, if there is one.
    pub fn accepts(&self, game: &Game, input: Option<Input>) -> (ok: bool)
        ensures
            ok == match input {
                Some(input) => can_update(self@.current, game@, input),
                None => true,
            },
    {
        match input {
            Some(input) => self.current_view.accepts(game, input),
            None => true,
        }
    }

    /// Takes an event and says whether the session goes on. The current
    /// view has to be able to react to what the event stands for.
    pub fn input(
        &mut self,
        game: &mut Game,
        luck: &Luck,
        event: Event,
        out: &mut Vec<Piece>,
    ) -> (cont: Continue)
        requires
            old(game).wf(),
            old(self)@.accepts(old(game)@, event),
        ensures
            final(game).wf(),
            got_to(
                old(self)@.stepped(old(game)@, luck@, event),
                final(self)@,
                final(game)@,
                cont,
                pieces_of(old(out)@),
                pieces_of(final(out)@),
            ),
    {
        match self.input_mode.map(event) {
            Some(input) => self.command(game, luck, input, out),
            None => {
                assert(pieces_of(out@) =~= pieces_of(old(out)@) + Seq::empty());
                true
            },
        }
    }

    /// Takes an event if the current view can react to what it stands
    /// for, and says whether the session goes on; else changes nothing and
    /// returns nothing.
    pub fn try_input(
        &mut self,
        game: &mut Game,
        luck: &Luck,
        event: Event,
        out: &mut Vec<Piece>,
    ) -> (cont: Option<Continue>)
        requires
            old(game).wf(),
        ensures
            final(game).wf(),
            cont is Some == old(self)@.accepts(old(game)@, event),
            cont is Some ==> got_to(
                old(self)@.stepped(old(game)@, luck@, event),
                final(self)@,
                final(game)@,
                cont->0,
                pieces_of(old(out)@),
                pieces_of(final(out)@),
            ),
            cont is None ==> final(self)@ == old(self)@,
            cont is None ==> final(game)@ == old(game)@,
            cont is None ==> final(out)@ == old(out)@,
    {
        match self.input_mode.map(event) {
            Some(input) => {
                if self.current_view.accepts(game, input) {
                    Some(self.command(game, luck, input, out))
                } else {
                    None
                }
            },
            None => {
                assert(pieces_of(out@) =~= pieces_of(old(out)@) + Seq::empty());
                Some(true)
            },
        }
    }

    /// Hands a command to the current view and follows its request.
    pub fn command(
        &mut self,
        game: &mut Game,
        luck: &Luck,
        input: Input,
        out: &mut Vec<Piece>,
    ) -> (cont: Continue)
        requires
            old(game).wf(),
            can_update(old(self)@.current, old(game)@, input),
        ensures
            final(game).wf(),
            got_to(
                old(self)@.commanded(old(game)@, luck@, input),
                final(self)@,
                final(game)@,
                cont,
                pieces_of(old(out)@),
                pieces_of(final(out)@),
            ),
    {
        let trans = self.current_view.update(game, input, out);
        let ghost reaction = updated(old(self)@.current, old(game)@, input);
        let ghost mid = pieces_of(out@);
        let cont = self.handle_trans(game, luck, trans, out);
        assert(pieces_of(out@) =~= pieces_of(old(out)@) + (reaction.out + applied(
            UiModel { current: reaction.view, ..old(self)@ },
            reaction.game,
            luck@,
            reaction.transition,
        ).out));
        cont
    }

    /// Follows a transition and says whether the session goes on.
    pub fn handle_trans(
        &mut self,
        game: &mut Game,
        luck: &Luck,
        transition: Option<Transition>,
        out: &mut Vec<Piece>,
    ) -> (cont: Continue)
        requires
            old(game).wf(),
        ensures
            final(game).wf(),
            got_to(
                applied(old(self)@, old(game)@, luck@, asked(transition)),
                final(self)@,
                final(game)@,
                cont,
                pieces_of(old(out)@),
                pieces_of(final(out)@),
            ),
        decreases opt_weight(asked(transition)), 1nat,
    {
        match transition {
            Some(Transition::Push(v)) => {
                let mut v: AnyView = *v;
                let ghost pushed = v@;
                core::mem::swap(&mut v, &mut self.current_view);
                self.view_stack.push(v);
                assert(self@.stack =~= old(self)@.stack.push(old(self)@.current));
                let start_trans = self.current_view.start(game, luck, out);
                let ghost begun = started(pushed, old(game)@, luck@);
                let ghost mid = self@;
                let cont = self.handle_trans(game, luck, start_trans, out);
                assert(pieces_of(out@) =~= pieces_of(old(out)@) + (begun.out + applied(
                    mid,
                    begun.game,
                    luck@,
                    begun.transition,
                ).out));
                cont
            },
            Some(Transition::Pop) => {
                match self.view_stack.pop() {
                    Some(v) => {
                        let mut v = v;
                        core::mem::swap(&mut v, &mut self.current_view);
                        assert(self@.stack =~= old(self)@.stack.drop_last());
                        assert(self@.current == old(self)@.stack.last());
                        let t = self.current_view.restart(game, v, out);
                        let ghost resumed = restarted(
                            old(self)@.stack.last(),
                            old(game)@,
                            old(self)@.current,
                        );
                        let ghost mid = self@;
                        let cont = self.handle_trans(game, luck, t, out);
                        let ghost next = applied(mid, resumed.game, luck@, resumed.transition);
                        self.current_view.full_redraw(game, out);
                        assert(pieces_of(out@) =~= pieces_of(old(out)@) + (resumed.out + next.out
                            + frame(next.ui.current, next.game)));
                        cont
                    },
                    None => {
                        assert(pieces_of(out@) =~= pieces_of(old(out)@) + Seq::empty());
                        assert(old(self)@.stack.len() == 0);
                        false
                    },
                }
            },
            Some(Transition::InputMode(mode)) => {
                self.input_mode = mode;
                assert(pieces_of(out@) =~= pieces_of(old(out)@) + Seq::empty());
                true
            },
            Some(Transition::Multiple(vec)) => {
                let ghost all = transitions_of(vec@);
                assert(asked(transition)->0->Multiple_0 =~= all);
                let mut rest = vec;
                let mut ret = true;
                let ghost goal = applied_all(old(self)@, old(game)@, luck@, all);
                assert(pieces_of(out@) =~= pieces_of(old(out)@) + Seq::empty());
                let ghost mut written: Seq<PieceModel> = Seq::empty();
                while rest.len() > 0
                    invariant
                        game.wf(),
                        weights(transitions_of(rest@)) <= weights(all),
                        opt_weight(asked(transition)) == 1 + weights(all),
                        pieces_of(out@) == pieces_of(old(out)@) + written,
                        goal.ui == applied_all(self@, game@, luck@, transitions_of(rest@)).ui,
                        goal.game == applied_all(self@, game@, luck@, transitions_of(rest@)).game,
                        goal.out == written + applied_all(
                            self@,
                            game@,
                            luck@,
                            transitions_of(rest@),
                        ).out,
                        goal.cont == (ret && applied_all(
                            self@,
                            game@,
                            luck@,
                            transitions_of(rest@),
                        ).cont),
                    decreases rest.len(),
                {
                    let ghost members = transitions_of(rest@);
                    let ghost here = self@;
                    let ghost board = game@;
                    let t = rest.remove(0);
                    assert(members.first() == t@);
                    assert(transitions_of(rest@) =~= members.drop_first());
                    let go_on = self.handle_trans(game, luck, Some(t), out);
                    let ghost head = applied(here, board, luck@, Some(members.first()));
                    proof {
                        let tail = applied_all(head.ui, head.game, luck@, members.drop_first());
                        assert(goal.out =~= (written + head.out) + tail.out);
                        assert(pieces_of(out@) =~= pieces_of(old(out)@) + (written + head.out));
                        written = written + head.out;
                    }
                    ret = ret && go_on;
                }
                assert(goal.out =~= written);
                ret
            },
            None => {
                assert(pieces_of(out@) =~= pieces_of(old(out)@) + Seq::empty());
                true
            },
        }
    }
}

} // verus!
