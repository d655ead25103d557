//! The view that stands in for what has not been built yet.

use vstd::prelude::*;
use vstd::view::View as _;
use crate::game::Game;
use crate::game::GameModel;
use crate::job::Luck;
use crate::screen::Piece;
use crate::screen::PieceModel;
use crate::screen::clear_all;
use crate::screen::clear_all_text;
use crate::screen::emit;
use crate::screen::goto;
use crate::screen::goto_text;
use crate::screen::pieces_of;
use crate::ui::AnyView;
use crate::ui::FullView;
use crate::ui::Input;
use crate::ui::Outcome;
use crate::ui::Transition;
use crate::ui::TransitionModel;
use crate::ui::ViewModel;

verus! {

#[derive(Clone, Copy, Debug, PartialEq, Eq, Structural)]
pub struct View;

/// What the view is drawn as: a note on a cleared screen, and a word on
/// the error stream.
pub open spec fn frame() -> Seq<PieceModel> {
    seq![
        PieceModel::Wide(clear_all_text() + goto_text(1, 1) + "Unimplemended View. 𒀿|"@),
        PieceModel::Diagnostic("STDERR"@),
        PieceModel::Flush,
    ]
}

/// The view's reaction to a command: it ends on Back and ignores the rest.
pub open spec fn updated(game: GameModel, input: Input) -> Outcome {
    Outcome {
        view: ViewModel::Placeholder,
        game,
        transition: if input == Input::Back {
            Some(TransitionModel::Pop)
        } else {
            None
        },
        out: Seq::empty(),
    }
}

impl View {
    /// The view. There is nothing to tell one from another.
    pub fn new() -> (v: View)
        ensures
            v == View,
    {
        View
    }
}

impl FullView for View {
    open spec fn model(&self) -> ViewModel {
        ViewModel::Placeholder
    }

    fn full_redraw(&mut self, game: &Game, out: &mut Vec<Piece>) {
        let mut s = clear_all();
        s.append(goto(1, 1).as_str());
        s.append("Unimplemended View. 𒀿|");
        emit(out, Piece::Wide(s));
        emit(out, Piece::Diagnostic("STDERR".to_string()));
        emit(out, Piece::Flush);
        assert(pieces_of(out@) =~= pieces_of(old(out)@) + frame());
    }

    fn update(&mut self, game: &mut Game, input: Input, out: &mut Vec<Piece>) -> (t: Option<Transition>) {
        assert(pieces_of(out@) =~= pieces_of(old(out)@) + Seq::empty());
        match input {
            Input::Back => Some(Transition::Pop),
            _ => None,
        }
    }

    fn restart(&mut self, game: &mut Game, last: AnyView, out: &mut Vec<Piece>) -> (t: Option<Transition>) {
        self.full_redraw(game, out);
        None
    }

    fn start(&mut self, game: &mut Game, luck: &Luck, out: &mut Vec<Piece>) -> (t: Option<Transition>) {
        self.full_redraw(game, out);
        None
    }
}

} // verus!
