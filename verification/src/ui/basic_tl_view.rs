//! The top-level menu: a title over a column of tabs, one of them selected.

use vstd::prelude::*;
use vstd::view::View as _;
use crate::game::Game;
use crate::game::GameModel;
use crate::job::Luck;
use crate::screen::Piece;
use crate::screen::PieceModel;
use crate::screen::clear_all;
use crate::screen::clear_all_text;
use crate::screen::emit;
use crate::screen::goto;
use crate::screen::goto_text;
use crate::screen::pieces_of;
use crate::screen::right;
use crate::screen::right_text;
use crate::ui::AnyView;
use crate::ui::FullView;
use crate::ui::Input;
use crate::ui::Outcome;
use crate::ui::Transition;
use crate::ui::TransitionModel;
use crate::ui::ViewModel;
use crate::ui::jobs_view;
use crate::ui::rockets_view;
use crate::ui::tab_models;
use crate::ui::tick_view;
use crate::ui::unimplemented_view;

verus! {

/// The menu. It has at least one tab and at most 256, and one of them is
/// selected.
#[derive(Debug)]
pub struct View {
    pub(crate) title: &'static str,
    pub(crate) selection: u8,
    pub(crate) tabs: Vec<Tab>,
}

/// A tab: its name, and what selecting it asks for. While the view it led
/// to is current, the tab holds nothing.
#[derive(Debug)]
pub struct Tab {
    pub(crate) name: &'static str,
    pub(crate) transition: Option<Transition>,
}

/// A menu, as plain values.
pub struct TabsModel {
    pub title: Seq<char>,
    pub selection: u8,
    pub tabs: Seq<TabModel>,
}

/// A tab, as plain values.
pub struct TabModel {
    pub name: Seq<char>,
    pub transition: Option<TransitionModel>,
}

/// The most tabs a menu can have.
pub const MAX_TABS: usize = 256;

impl vstd::view::View for View {
    type V = TabsModel;

    open(crate) spec fn view(&self) -> TabsModel {
        TabsModel { title: self.title@, selection: self.selection, tabs: tab_models(self.tabs@) }
    }
}

impl TabModel {
    /// The tab without what selecting it asks for.
    pub open spec fn spent(self) -> TabModel {
        TabModel { transition: None, ..self }
    }

    /// The tab that asks for `view` to become current.
    pub open spec fn leading_to(self, view: ViewModel) -> TabModel {
        TabModel { transition: Some(TransitionModel::Push(view)), ..self }
    }
}

impl TabsModel {
    /// The place of the last tab.
    pub open spec fn max_selection(self) -> u8 {
        (self.tabs.len() - 1) as u8
    }

    /// The row of the tab at `idx`: the cursor goes to its line, a marker
    /// or two columns of room follow, then the name.
    pub open spec fn row(self, idx: int) -> Seq<PieceModel> {
        seq![
            PieceModel::Raw(goto_text(1, (2 + idx) as u16)),
            if idx == self.selection {
                PieceModel::Wide("▶"@)
            } else {
                PieceModel::Wide(right_text(2))
            },
            PieceModel::Wide(self.tabs[idx].name),
        ]
    }

    /// The rows of the first `n` tabs.
    pub open spec fn rows(self, n: nat) -> Seq<PieceModel>
        decreases n,
    {
        if n == 0 {
            Seq::empty()
        } else {
            self.rows((n - 1) as nat) + self.row(n - 1)
        }
    }

    /// What the menu is drawn as: the title on a cleared screen, then the
    /// tabs from the second line on.
    #[verifier::opaque]
    pub open spec fn frame(self) -> Seq<PieceModel> {
        seq![
            PieceModel::Wide(clear_all_text() + goto_text(1, 1)),
            PieceModel::Wide(self.title + goto_text(1, 2)),
        ] + self.rows(self.tabs.len()) + seq![PieceModel::Flush]
    }

    /// Whether the menu can react to a command: to select a tab, the tab
    /// has to hold what it asks for.
    pub open spec fn can_update(self, input: Input) -> bool {
        input == Input::Select ==> self.tabs[self.selection as int].transition is Some
    }

    /// The menu with the selection moved to `selection`.
    pub open spec fn selecting(self, selection: u8) -> TabsModel {
        TabsModel { selection, ..self }
    }

    /// The menu's reaction to a command. Up and Down move the selection,
    /// around the ends, and draw the menu. Select hands out what the
    /// selected tab asks for and leaves the tab empty. Back asks to end.
    pub open spec fn updated(self, game: GameModel, input: Input) -> Outcome {
        match input {
            Input::Up => {
                let moved = self.selecting(
                    if self.selection == 0 {
                        self.max_selection()
                    } else {
                        (self.selection - 1) as u8
                    },
                );
                Outcome {
                    view: ViewModel::Tabs(moved),
                    game,
                    transition: None,
                    out: moved.frame(),
                }
            },
            Input::Down => {
                let moved = self.selecting(
                    if self.selection == self.max_selection() {
                        0
                    } else {
                        (self.selection + 1) as u8
                    },
                );
                Outcome {
                    view: ViewModel::Tabs(moved),
                    game,
                    transition: None,
                    out: moved.frame(),
                }
            },
            Input::Select => Outcome {
                view: ViewModel::Tabs(
                    TabsModel {
                        tabs: self.tabs.update(
                            self.selection as int,
                            self.tabs[self.selection as int].spent(),
                        ),
                        ..self
                    },
                ),
                game,
                transition: self.tabs[self.selection as int].transition,
                out: Seq::empty(),
            },
            Input::Back => Outcome {
                view: ViewModel::Tabs(self),
                game,
                transition: Some(TransitionModel::Pop),
                out: Seq::empty(),
            },
            _ => Outcome { view: ViewModel::Tabs(self), game, transition: None, out: Seq::empty() },
        }
    }

    /// The menu's reaction to becoming current again: the selected tab
    /// leads to the view that has just ended, and the menu is drawn.
    pub open spec fn restarted(self, game: GameModel, last: ViewModel) -> Outcome {
        let kept = TabsModel {
            tabs: self.tabs.update(
                self.selection as int,
                self.tabs[self.selection as int].leading_to(last),
            ),
            ..self
        };
        Outcome { view: ViewModel::Tabs(kept), game, transition: None, out: kept.frame() }
    }
}

/// The menu a session begins with: missions, jobs, rockets, a tick of the
/// clock, and the way out.
pub open spec fn home(game: GameModel) -> TabsModel {
    TabsModel {
        title: "Cuneiforbits"@,
        selection: 0,
        tabs: seq![
            TabModel {
                name: "Missions"@,
                transition: Some(TransitionModel::Push(ViewModel::Placeholder)),
            },
            TabModel {
                name: "Jobs"@,
                transition: Some(TransitionModel::Push(ViewModel::Jobs(jobs_view::fresh(game)))),
            },
            TabModel {
                name: "Rockets"@,
                transition: Some(TransitionModel::Push(ViewModel::Rockets(rockets_view::fresh()))),
            },
            TabModel { name: "Tick"@, transition: Some(TransitionModel::Push(ViewModel::Tick)) },
            TabModel { name: "Exit"@, transition: Some(TransitionModel::Pop) },
        ],
    }
}

impl View {
    #[verifier::type_invariant]
    pub open(crate) spec fn inv(&self) -> bool {
        1 <= self.tabs@.len() <= MAX_TABS && self.selection < self.tabs@.len()
    }

    /// The menu a session begins with.
    pub fn new(game: &Game) -> (v: View)
        ensures
            v@ == home(game@),
    {
        let mut tabs: Vec<Tab> = Vec::new();
        tabs.push(
            Tab {
                name: "Missions",
                transition: Some(
                    Transition::Push(Box::new(AnyView::Placeholder(unimplemented_view::View::new()))),
                ),
            },
        );
        tabs.push(
            Tab {
                name: "Jobs",
                transition: Some(
                    Transition::Push(Box::new(AnyView::Jobs(jobs_view::View::new(game)))),
                ),
            },
        );
        tabs.push(
            Tab {
                name: "Rockets",
                transition: Some(
                    Transition::Push(Box::new(AnyView::Rockets(rockets_view::View::new()))),
                ),
            },
        );
        tabs.push(
            Tab {
                name: "Tick",
                transition: Some(Transition::Push(Box::new(AnyView::Tick(tick_view::View::new())))),
            },
        );
        tabs.push(Tab { name: "Exit", transition: Some(Transition::Pop) });
        let v = View { title: "Cuneiforbits", selection: 0, tabs };
        assert(v@.tabs =~= home(game@).tabs);
        v
    }

    /// The place of the selected tab.
    pub fn selection(&self) -> (at: u8)
        ensures
            at == self@.selection,
            at < self@.tabs.len(),
    {
        proof {
            use_type_invariant(self);
        }
        self.selection
    }

    /// The place of the last tab.
    pub fn max_selection(&self) -> (at: u8)
        ensures
            at == self@.max_selection(),
            at + 1 == self@.tabs.len(),
    {
        proof {
            use_type_invariant(self);
        }
        (self.tabs.len() - 1) as u8
    }

    /// Whether the menu can react to a command.
    pub fn accepts(&self, input: Input) -> (ok: bool)
        ensures
            ok == self@.can_update(input),
    {
        proof {
            use_type_invariant(self);
        }
        match input {
            Input::Select => self.tabs[self.selection as usize].transition.is_some(),
            _ => true,
        }
    }

    fn draw(&self, out: &mut Vec<Piece>)
        ensures
            pieces_of(final(out)@) == pieces_of(old(out)@) + self@.frame(),
    {
        proof {
            use_type_invariant(self);
        }
        let mut head = clear_all();
        head.append(goto(1, 1).as_str());
        emit(out, Piece::Wide(head));
        let mut title = self.title.to_string();
        title.append(goto(1, 2).as_str());
        emit(out, Piece::Wide(title));
        let ghost top = pieces_of(out@);
        let mut idx: usize = 0;
        while idx < self.tabs.len()
            invariant
                idx <= self.tabs@.len() <= MAX_TABS,
                pieces_of(out@) == top + self@.rows(idx as nat),
            decreases self.tabs.len() - idx,
        {
            emit(out, Piece::Raw(goto(1, 2 + idx as u16)));
            if idx == self.selection as usize {
                emit(out, Piece::Wide("▶".to_string()));
            } else {
                emit(out, Piece::Wide(right(2)));
            }
            emit(out, Piece::Wide(self.tabs[idx].name.to_string()));
            assert(pieces_of(out@) =~= top + self@.rows((idx + 1) as nat));
            idx += 1;
        }
        emit(out, Piece::Flush);
        reveal(TabsModel::frame);
        assert(pieces_of(out@) =~= pieces_of(old(out)@) + self@.frame());
    }
}

impl FullView for View {
    open(crate) spec fn model(&self) -> ViewModel {
        ViewModel::Tabs(self@)
    }

    fn full_redraw(&mut self, game: &Game, out: &mut Vec<Piece>) {
        self.draw(out);
    }

    fn update(&mut self, game: &mut Game, input: Input, out: &mut Vec<Piece>) -> (t: Option<Transition>) {
        proof {
            use_type_invariant(&*self);
        }
        match input {
            Input::Up => {
                if self.selection == 0 {
                    self.selection = self.max_selection();
                } else {
                    self.selection -= 1;
                }
                self.draw(out);
                None
            },
            Input::Down => {
                if self.selection == self.max_selection() {
                    self.selection = 0;
                } else {
                    self.selection += 1;
                }
                self.draw(out);
                None
            },
            Input::Select => {
                let at: usize = self.selection as usize;
                let t = self.tabs[at].transition.take();
                assert(self@.tabs =~= old(self)@.tabs.update(
                    at as int,
                    old(self)@.tabs[at as int].spent(),
                ));
                assert(pieces_of(out@) =~= pieces_of(old(out)@) + Seq::empty());
                t
            },
            Input::Back => {
                assert(pieces_of(out@) =~= pieces_of(old(out)@) + Seq::empty());
                Some(Transition::Pop)
            },
            _ => {
                assert(pieces_of(out@) =~= pieces_of(old(out)@) + Seq::empty());
                None
            },
        }
    }

    fn restart(&mut self, game: &mut Game, last: AnyView, out: &mut Vec<Piece>) -> (t: Option<Transition>) {
        proof {
            use_type_invariant(&*self);
        }
        let at: usize = self.selection as usize;
        self.tabs[at].transition = Some(Transition::Push(Box::new(last)));
        assert(self@.tabs =~= old(self)@.tabs.update(
            at as int,
            old(self)@.tabs[at as int].leading_to(last@),
        ));
        self.draw(out);
        None
    }

    fn start(&mut self, game: &mut Game, luck: &Luck, out: &mut Vec<Piece>) -> (t: Option<Transition>) {
        self.draw(out);
        None
    }
}

} // verus!
