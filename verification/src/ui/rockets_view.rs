//! The list of rocket designs, with a button to begin a new design and one
//! beside each design to edit it.

use vstd::prelude::*;
use vstd::view::View as _;
use crate::game::Game;
use crate::game::GameModel;
use crate::job::Luck;
use crate::rocket::displays;
use crate::screen::Piece;
use crate::screen::PieceModel;
use crate::screen::clear_all;
use crate::screen::clear_all_text;
use crate::screen::emit;
use crate::screen::goto;
use crate::screen::goto_text;
use crate::screen::pieces_of;
use crate::screen::right;
use crate::screen::right_text;
use crate::ui::AnyView;
use crate::ui::FullView;
use crate::ui::Input;
use crate::ui::Outcome;
use crate::ui::Transition;
use crate::ui::TransitionModel;
use crate::ui::ViewModel;
use crate::ui::push_of;
use crate::ui::rocket_builder_view;

verus! {

/// The list of designs: what is selected in it.
#[derive(Clone, Copy, Debug, PartialEq, Eq, Structural)]
pub struct View {
    pub sel: Sel,
}

/// What can be selected: the button for a new design, a design, or the
/// button to edit a design.
#[derive(Clone, Copy, Debug, PartialEq, Eq, Structural)]
pub enum Sel {
    New,
    Rocket(u8),
    RocketEdit(u8),
}

/// The column of the buttons that edit.
pub const EDIT_BUTTON_X: u16 = 40;

/// The list as it is when first made.
pub open spec fn fresh() -> View {
    View { sel: Sel::Rocket(0) }
}

/// The row of the design at `idx`: its name and its components.
pub open spec fn design_row(game: GameModel, idx: int) -> Seq<PieceModel> {
    let rocket = game.rocket_designs[idx];
    seq![
        PieceModel::Raw(goto_text(2, (2 + 2 * idx) as u16)),
        PieceModel::Wide(rocket.name + ": "@ + displays(rocket.components)),
    ]
}

/// The rows of the first `n` designs.
pub open spec fn design_rows(game: GameModel, n: nat) -> Seq<PieceModel>
    decreases n,
{
    if n == 0 {
        Seq::empty()
    } else {
        design_rows(game, (n - 1) as nat) + design_row(game, n - 1)
    }
}

impl Sel {
    /// The marker of what is selected: braces around the button for a new
    /// design, an arrow before a design, brackets around its button.
    pub open spec fn marker(self) -> PieceModel {
        match self {
            Sel::New => PieceModel::Raw(goto_text(10, 1) + "{"@ + right_text(1) + "}"@),
            Sel::Rocket(idx) => PieceModel::Raw(
                goto_text(1, (2 + 2 * idx) as u16) + ">"@ + right_text((EDIT_BUTTON_X - 1) as u16)
                    + "(edit)"@,
            ),
            Sel::RocketEdit(idx) => PieceModel::Raw(
                goto_text(EDIT_BUTTON_X, (2 + 2 * idx) as u16) + "[edit]"@,
            ),
        }
    }

    /// The selection one step up in a list of `count` designs, which is not
    /// empty: from the button for a new design to the last design, from
    /// the first design to the button, else to the design above.
    pub open spec fn up(self, count: nat) -> Sel {
        match self {
            Sel::New => Sel::Rocket((count - 1) as u8),
            Sel::Rocket(idx) | Sel::RocketEdit(idx) => if idx == 0 {
                Sel::New
            } else {
                Sel::Rocket((idx - 1) as u8)
            },
        }
    }

    /// The selection one step down in a list of `count` designs, which is
    /// not empty: from the button for a new design to the first design,
    /// from the last design to the button, else to the design below.
    pub open spec fn down(self, count: nat) -> Sel {
        match self {
            Sel::New => Sel::Rocket(0),
            Sel::Rocket(idx) | Sel::RocketEdit(idx) => if idx == count - 1 {
                Sel::New
            } else {
                Sel::Rocket((idx + 1) as u8)
            },
        }
    }

    /// The selection moved between a design and its button.
    pub open spec fn across(self) -> Sel {
        match self {
            Sel::New => Sel::New,
            Sel::Rocket(idx) => Sel::RocketEdit(idx),
            Sel::RocketEdit(idx) => Sel::Rocket(idx),
        }
    }

    /// The place in a list of `count` designs, which is not empty, that is
    /// nearest to `idx`: `idx` itself where a design stands there, else the
    /// place of the last design.
    pub open spec fn within(idx: u8, count: nat) -> u8 {
        if idx > count - 1 {
            (count - 1) as u8
        } else {
            idx
        }
    }

    /// The selection looked over for a list of `count` designs: in an
    /// empty list the button for a new design is selected; a selection
    /// behind the last design moves to the last design, and stays on the
    /// design or on its button as it was.
    pub open spec fn checked(self, count: nat) -> Sel {
        if count == 0 {
            Sel::New
        } else {
            match self {
                Sel::Rocket(idx) => Sel::Rocket(Sel::within(idx, count)),
                Sel::RocketEdit(idx) => Sel::RocketEdit(Sel::within(idx, count)),
                Sel::New => self,
            }
        }
    }

    /// Whether the selection points at nothing that is not there in a list
    /// of `count` designs.
    pub open spec fn in_bounds(self, count: nat) -> bool {
        match self {
            Sel::Rocket(idx) | Sel::RocketEdit(idx) => idx < count,
            Sel::New => true,
        }
    }
}

impl View {
    /// What the list is drawn as: a heading on a cleared screen, the
    /// designs, and the marker.
    #[verifier::opaque]
    pub open spec fn frame(self, game: GameModel) -> Seq<PieceModel> {
        seq![
            PieceModel::Raw(clear_all_text() + goto_text(1, 1)),
            PieceModel::Raw("Rockets  (+)"@),
        ] + design_rows(game, game.rocket_designs.len()) + seq![
            self.sel.marker(),
            PieceModel::Flush,
        ]
    }

    /// Whether the list can react to a command: to step down from a
    /// design there has to be a number for the next place, and to edit a
    /// design, the design has to be there.
    pub open spec fn can_update(self, game: GameModel, input: Input) -> bool {
        let count = game.rocket_designs.len();
        match input {
            Input::Down => count == 0 || match self.sel {
                Sel::New => true,
                Sel::Rocket(idx) | Sel::RocketEdit(idx) => idx == count - 1 || idx < u8::MAX,
            },
            Input::Select => match self.sel {
                Sel::RocketEdit(idx) => idx < count,
                _ => true,
            },
            _ => true,
        }
    }

    /// The list drawn in a game, as an outcome.
    pub open spec fn shown(self, game: GameModel) -> Outcome {
        Outcome {
            view: ViewModel::Rockets(self),
            game,
            transition: None,
            out: self.frame(game),
        }
    }

    /// The list with the button for a new design selected, nothing drawn.
    pub open spec fn emptied(game: GameModel) -> Outcome {
        Outcome {
            view: ViewModel::Rockets(View { sel: Sel::New }),
            game,
            transition: None,
            out: Seq::empty(),
        }
    }

    /// The list's reaction to a command. Up and Down step through the
    /// button for a new design and the designs, and draw the list; in an
    /// empty list they select the button and draw nothing. Left and Right
    /// move between a design and its button, and draw the list. Select on
    /// a button asks for the builder, on a new design or on the design
    /// beside the button. Back asks to end.
    pub open spec fn updated(self, game: GameModel, input: Input) -> Outcome {
        let count = game.rocket_designs.len();
        match input {
            Input::Back => Outcome {
                view: ViewModel::Rockets(self),
                game,
                transition: Some(TransitionModel::Pop),
                out: Seq::empty(),
            },
            Input::Up => if count == 0 {
                Self::emptied(game)
            } else {
                (View { sel: self.sel.up(count) }).shown(game)
            },
            Input::Down => if count == 0 {
                Self::emptied(game)
            } else {
                (View { sel: self.sel.down(count) }).shown(game)
            },
            Input::Left | Input::Right => (View { sel: self.sel.across() }).shown(game),
            Input::Select => Outcome {
                view: ViewModel::Rockets(self),
                game,
                transition: match self.sel {
                    Sel::New => Some(
                        TransitionModel::Push(ViewModel::Builder(rocket_builder_view::blank())),
                    ),
                    Sel::RocketEdit(idx) => Some(
                        TransitionModel::Push(
                            ViewModel::Builder(rocket_builder_view::editing(game, idx)),
                        ),
                    ),
                    Sel::Rocket(_) => None,
                },
                out: Seq::empty(),
            },
            _ => Outcome {
                view: ViewModel::Rockets(self),
                game,
                transition: None,
                out: Seq::empty(),
            },
        }
    }

    /// The list's reaction to becoming current, for the first time or
    /// again: the selection is looked over, and the list is drawn.
    pub open spec fn resettled(self, game: GameModel) -> Outcome {
        (View { sel: self.sel.checked(game.rocket_designs.len()) }).shown(game)
    }

    /// The list as it is when first made.
    pub fn new() -> (v: View)
        ensures
            v == fresh(),
    {
        View { sel: Sel::Rocket(0) }
    }

    /// Whether the list can react to a command.
    pub fn accepts(&self, game: &Game, input: Input) -> (ok: bool)
        ensures
            ok == self.can_update(game@, input),
    {
        let count = game.rocket_designs.len();
        match input {
            Input::Down => count == 0 || match self.sel {
                Sel::New => true,
                Sel::Rocket(idx) | Sel::RocketEdit(idx) => idx as usize == count - 1 || idx
                    < u8::MAX,
            },
            Input::Select => match self.sel {
                Sel::RocketEdit(idx) => (idx as usize) < count,
                _ => true,
            },
            _ => true,
        }
    }

    /// Looks the selection over for the designs there are: afterwards it
    /// points at a design that is there, or at the button for a new design.
    pub fn check_idx(&mut self, game: &Game)
        requires
            game.wf(),
        ensures
            final(self).sel == old(self).sel.checked(game@.rocket_designs.len()),
            final(self).sel.in_bounds(game@.rocket_designs.len()),
    {
        let rocket_cnt = game.rocket_designs.len();
        if rocket_cnt == 0 {
            self.sel = Sel::New;
            return ;
        }
        let max_idx = (rocket_cnt - 1) as u8;
        match self.sel {
            Sel::Rocket(idx) => {
                if idx > max_idx {
                    self.sel = Sel::Rocket(max_idx)
                }
            },
            Sel::RocketEdit(idx) => {
                if idx > max_idx {
                    self.sel = Sel::RocketEdit(max_idx)
                }
            },
            Sel::New => {},
        }
    }

    fn show(&self, game: &Game, out: &mut Vec<Piece>)
        requires
            game.wf(),
        ensures
            pieces_of(final(out)@) == pieces_of(old(out)@) + self.frame(game@),
    {
        let mut head = clear_all();
        head.append(goto(1, 1).as_str());
        emit(out, Piece::Raw(head));
        emit(out, Piece::Raw("Rockets  (+)".to_string()));
        let ghost top = pieces_of(out@);
        let len = game.rocket_designs.len();
        let mut idx: usize = 0;
        while idx < len
            invariant
                game.wf(),
                len == game@.rocket_designs.len(),
                len == game.rocket_designs@.len(),
                idx <= len,
                pieces_of(out@) == top + design_rows(game@, idx as nat),
            decreases len - idx,
        {
            let rocket = &game.rocket_designs[idx];
            assert(rocket@ == game@.rocket_designs[idx as int]);
            emit(out, Piece::Raw(goto(2, (2 + 2 * idx) as u16)));
            let mut line = rocket.name.clone();
            line.append(": ");
            line.append(rocket.display_text().as_str());
            emit(out, Piece::Wide(line));
            assert(pieces_of(out@) =~= top + design_rows(game@, (idx + 1) as nat));
            idx += 1;
        }
        let marker = match self.sel {
            Sel::New => {
                let mut s = goto(10, 1);
                s.append("{");
                s.append(right(1).as_str());
                s.append("}");
                s
            },
            Sel::Rocket(idx) => {
                let mut s = goto(1, 2 + 2 * (idx as u16));
                s.append(">");
                s.append(right(EDIT_BUTTON_X - 1).as_str());
                s.append("(edit)");
                s
            },
            Sel::RocketEdit(idx) => {
                let mut s = goto(EDIT_BUTTON_X, 2 + 2 * (idx as u16));
                s.append("[edit]");
                s
            },
        };
        emit(out, Piece::Raw(marker));
        emit(out, Piece::Flush);
        reveal(View::frame);
        assert(pieces_of(out@) =~= pieces_of(old(out)@) + self.frame(game@));
    }
}

impl FullView for View {
    open spec fn model(&self) -> ViewModel {
        ViewModel::Rockets(*self)
    }

    fn full_redraw(&mut self, game: &Game, out: &mut Vec<Piece>) {
        self.show(game, out);
    }

    fn update(&mut self, game: &mut Game, input: Input, out: &mut Vec<Piece>) -> (t: Option<Transition>) {
        match input {
            Input::Back => {
                assert(pieces_of(out@) =~= pieces_of(old(out)@) + Seq::empty());
                Some(Transition::Pop)
            },
            Input::Up => {
                let rocket_cnt = game.rocket_designs.len();
                if rocket_cnt == 0 {
                    self.sel = Sel::New;
                    assert(pieces_of(out@) =~= pieces_of(old(out)@) + Seq::empty());
                    return None;
                }
                let max_idx = (rocket_cnt - 1) as u8;
                match self.sel {
                    Sel::New => self.sel = Sel::Rocket(max_idx),
                    Sel::Rocket(idx) | Sel::RocketEdit(idx) => {
                        self.sel = if idx == 0 {
                            Sel::New
                        } else {
                            Sel::Rocket(idx - 1)
                        }
                    },
                }
                self.show(game, out);
                None
            },
            Input::Down => {
                let rocket_cnt = game.rocket_designs.len();
                if rocket_cnt == 0 {
                    self.sel = Sel::New;
                    assert(pieces_of(out@) =~= pieces_of(old(out)@) + Seq::empty());
                    return None;
                }
                let max_idx = (rocket_cnt - 1) as u8;
                match self.sel {
                    Sel::New => self.sel = Sel::Rocket(0),
                    Sel::Rocket(idx) | Sel::RocketEdit(idx) => {
                        self.sel = if idx == max_idx {
                            Sel::New
                        } else {
                            Sel::Rocket(idx + 1)
                        }
                    },
                }
                self.show(game, out);
                None
            },
            Input::Left | Input::Right => {
                self.sel = match self.sel {
                    Sel::New => Sel::New,
                    Sel::Rocket(idx) => Sel::RocketEdit(idx),
                    Sel::RocketEdit(idx) => Sel::Rocket(idx),
                };
                self.show(game, out);
                None
            },
            Input::Select => {
                assert(pieces_of(out@) =~= pieces_of(old(out)@) + Seq::empty());
                match self.sel {
                    Sel::New => {
                        let builder = AnyView::Builder(rocket_builder_view::View::new_rocket());
                        assert(builder@ == ViewModel::Builder(rocket_builder_view::blank()));
                        Some(push_of(builder))
                    },
                    Sel::RocketEdit(idx) => {
                        let builder = AnyView::Builder(
                            rocket_builder_view::View::edit_rocket(game, idx),
                        );
                        assert(builder@ == ViewModel::Builder(
                            rocket_builder_view::editing(game@, idx),
                        ));
                        Some(push_of(builder))
                    },
                    Sel::Rocket(_) => None,
                }
            },
            _ => {
                assert(pieces_of(out@) =~= pieces_of(old(out)@) + Seq::empty());
                None
            },
        }
    }

    fn restart(&mut self, game: &mut Game, last: AnyView, out: &mut Vec<Piece>) -> (t: Option<Transition>) {
        self.check_idx(game);
        self.show(game, out);
        None
    }

    fn start(&mut self, game: &mut Game, luck: &Luck, out: &mut Vec<Piece>) -> (t: Option<Transition>) {
        self.check_idx(game);
        self.show(game, out);
        None
    }
}

/// A selection that was looked over points at nothing that is not there:
/// in an empty list it is the button for a new design, and else it is the
/// button, a design of the list or the button beside one. A selection that
/// pointed at what is there is left as it was, and one that pointed behind
/// the last design points at the last design, on the design or on its
/// button as before.
pub proof fn checked_selection_is_in_bounds(sel: Sel, count: nat)
    requires
        count <= crate::game::MAX_DESIGNS,
    ensures
        sel.checked(count).in_bounds(count),
        count == 0 ==> sel.checked(count) == Sel::New,
        count > 0 && sel.in_bounds(count) ==> sel.checked(count) == sel,
        count > 0 ==> (sel is Rocket <==> sel.checked(count) is Rocket),
        count > 0 ==> (sel is RocketEdit <==> sel.checked(count) is RocketEdit),
        count > 0 && sel is Rocket && !sel.in_bounds(count) ==> sel.checked(count) == Sel::Rocket(
            (count - 1) as u8,
        ),
        count > 0 && sel is RocketEdit && !sel.in_bounds(count) ==> sel.checked(count)
            == Sel::RocketEdit((count - 1) as u8),
{
}

} // verus!
