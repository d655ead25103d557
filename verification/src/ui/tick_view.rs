//! The view that lets time pass: it ticks the game once and ends at once.

use vstd::prelude::*;
use vstd::view::View as _;
use crate::game::Game;
use crate::game::GameModel;
use crate::job::Luck;
use crate::job::LuckModel;
use crate::screen::Piece;
use crate::screen::PieceModel;
use crate::screen::clear_all;
use crate::screen::clear_all_text;
use crate::screen::emit;
use crate::screen::pieces_of;
use crate::ui::AnyView;
use crate::ui::FullView;
use crate::ui::Input;
use crate::ui::Outcome;
use crate::ui::Transition;
use crate::ui::TransitionModel;
use crate::ui::ViewModel;

verus! {

#[derive(Clone, Copy, Debug, PartialEq, Eq, Structural)]
pub struct View;

/// What the view is drawn as: a cleared screen.
pub open spec fn frame() -> Seq<PieceModel> {
    seq![PieceModel::Raw(clear_all_text()), PieceModel::Flush]
}

/// The view's reaction to a command, which it can never be given: it
/// ends when it becomes current, so no command finds it current.
pub open spec fn updated(game: GameModel, input: Input) -> Outcome {
    Outcome { view: ViewModel::Tick, game, transition: None, out: Seq::empty() }
}

/// The view's reaction to becoming current: the game ticks with the given
/// draw, and the view asks to end.
pub open spec fn started(game: GameModel, luck: LuckModel) -> Outcome {
    Outcome {
        view: ViewModel::Tick,
        game: game.ticked(luck),
        transition: Some(TransitionModel::Pop),
        out: Seq::empty(),
    }
}

impl View {
    /// The view. There is nothing to tell one from another.
    pub fn new() -> (v: View)
        ensures
            v == View,
    {
        View
    }
}

impl FullView for View {
    open spec fn model(&self) -> ViewModel {
        ViewModel::Tick
    }

    fn full_redraw(&mut self, game: &Game, out: &mut Vec<Piece>) {
        emit(out, Piece::Raw(clear_all()));
        emit(out, Piece::Flush);
        assert(pieces_of(out@) =~= pieces_of(old(out)@) + frame());
    }

    /// Never called: the view ends as soon as it becomes current, so it
    /// can react to no command, and no caller can say that it can.
    fn update(&mut self, game: &mut Game, input: Input, out: &mut Vec<Piece>) -> (t: Option<Transition>) {
        assert(pieces_of(out@) =~= pieces_of(old(out)@) + Seq::empty());
        None
    }

    fn restart(&mut self, game: &mut Game, last: AnyView, out: &mut Vec<Piece>) -> (t: Option<Transition>) {
        self.full_redraw(game, out);
        None
    }

    fn start(&mut self, game: &mut Game, luck: &Luck, out: &mut Vec<Piece>) -> (t: Option<Transition>) {
        game.tick_with(luck);
        assert(pieces_of(out@) =~= pieces_of(old(out)@) + Seq::empty());
        Some(Transition::Pop)
    }
}

} // verus!
