//! The list of jobs on offer, each with a button to accept and one to
//! decline it.

use vstd::prelude::*;
use vstd::view::View as _;
use crate::game::Game;
use crate::game::GameModel;
use crate::job::Luck;
use crate::screen::Piece;
use crate::screen::PieceModel;
use crate::screen::clear_all;
use crate::screen::clear_all_text;
use crate::screen::emit;
use crate::screen::goto;
use crate::screen::goto_text;
use crate::screen::pieces_of;
use crate::screen::right;
use crate::screen::right_text;
use crate::ui::AnyView;
use crate::ui::FullView;
use crate::ui::Input;
use crate::ui::Outcome;
use crate::ui::Transition;
use crate::ui::TransitionModel;
use crate::ui::ViewModel;

verus! {

/// The list of jobs: which job and which of its columns is selected, and
/// whether the list was empty when it was last drawn.
#[derive(Clone, Copy, Debug, PartialEq, Eq, Structural)]
pub struct View {
    pub vert_sel: u8,
    pub horiz_sel: HorizSel,
    pub no_jobs: bool,
}

/// The columns of a job's row.
#[derive(Clone, Copy, Debug, PartialEq, Eq, Structural)]
pub enum HorizSel {
    Name,
    Accept,
    Decline,
}

/// The room that a customer's name has, in columns.
pub const MAX_CUSTOMER_NAME_LEN: u16 = 20;

/// The column of the button that accepts.
pub const ACCEPT_COLUMN: u16 = 25;

/// The list as it is when first made for a game.
pub open spec fn fresh(game: GameModel) -> View {
    View { vert_sel: 0, horiz_sel: HorizSel::Name, no_jobs: game.available_jobs.len() == 0 }
}

impl HorizSel {
    /// The column to the left, if there is one.
    pub open spec fn left(self) -> HorizSel {
        match self {
            HorizSel::Name | HorizSel::Accept => HorizSel::Name,
            HorizSel::Decline => HorizSel::Accept,
        }
    }

    /// The column to the right, if there is one.
    pub open spec fn right(self) -> HorizSel {
        match self {
            HorizSel::Name => HorizSel::Accept,
            HorizSel::Accept | HorizSel::Decline => HorizSel::Decline,
        }
    }

    /// The column of the screen where the marker of this column begins.
    pub open spec fn marker_column(self) -> u16 {
        match self {
            HorizSel::Name => 1,
            HorizSel::Accept => 24,
            HorizSel::Decline => 28,
        }
    }

    /// The marker of this column: an arrow before a name, brackets around
    /// a button.
    pub open spec fn marker(self) -> Seq<char> {
        match self {
            HorizSel::Name => "▶"@,
            HorizSel::Accept | HorizSel::Decline => "["@ + right_text(1) + "]"@,
        }
    }
}

/// The rows of the job at `idx`: the customer's name and the two buttons
/// on one line, the payload on the next.
pub open spec fn job_rows(game: GameModel, idx: int) -> Seq<PieceModel> {
    let job = game.available_jobs[idx];
    let row = (3 + idx * 2) as u16;
    seq![
        PieceModel::Raw(goto_text(3, row) + game.customers.names[job.customer.0 as int]),
        PieceModel::Raw(goto_text(5, (row + 1) as u16)),
        PieceModel::Payload(job.payload),
        PieceModel::Raw(goto_text(ACCEPT_COLUMN, row) + "✓"@ + right_text(3) + "X"@),
    ]
}

/// The rows of the first `n` jobs.
pub open spec fn jobs_rows(game: GameModel, n: nat) -> Seq<PieceModel>
    decreases n,
{
    if n == 0 {
        Seq::empty()
    } else {
        jobs_rows(game, (n - 1) as nat) + job_rows(game, n - 1)
    }
}

impl View {
    /// The list after it was drawn: it has noted whether there are jobs.
    pub open spec fn redrawn(self, game: GameModel) -> View {
        View { no_jobs: game.available_jobs.len() == 0, ..self }
    }

    /// The marker in front of what is selected, where there are jobs.
    pub open spec fn marker(self, game: GameModel) -> Seq<PieceModel> {
        if game.available_jobs.len() == 0 {
            Seq::empty()
        } else {
            seq![
                PieceModel::Raw(
                    goto_text(self.horiz_sel.marker_column(), (3 + self.vert_sel * 2) as u16)
                        + self.horiz_sel.marker(),
                ),
            ]
        }
    }

    /// What the list is drawn as: a heading on a cleared screen, the jobs,
    /// and the marker.
    #[verifier::opaque]
    pub open spec fn frame(self, game: GameModel) -> Seq<PieceModel> {
        seq![
            PieceModel::Raw(clear_all_text() + goto_text(1, 1)),
            PieceModel::Raw("Jobs"@ + goto_text(1, 2)),
        ] + jobs_rows(game, game.available_jobs.len()) + self.marker(game) + seq![
            PieceModel::Flush,
        ]
    }

    /// Whether the list can react to a command. While it takes the list
    /// for filled, there has to be a job to move to, and to accept or
    /// decline, the selected job has to be there.
    pub open spec fn can_update(self, game: GameModel, input: Input) -> bool {
        let len = game.available_jobs.len();
        match input {
            Input::Up => self.no_jobs || len > 0,
            Input::Down => self.no_jobs || (len > 0 && (self.vert_sel == len - 1 || self.vert_sel
                < u8::MAX)),
            Input::Select => self.horiz_sel == HorizSel::Name || self.no_jobs || self.vert_sel
                < len,
            _ => true,
        }
    }

    /// The place of the selection after the list of jobs has become `len`
    /// long: where it no longer points at a job, it moves up by one, but
    /// not above the first place.
    pub open spec fn settled(self, len: nat) -> View {
        if self.vert_sel >= len && self.vert_sel > 0 {
            View { vert_sel: (self.vert_sel - 1) as u8, ..self }
        } else {
            self
        }
    }

    /// The list drawn in a game, as an outcome.
    pub open spec fn shown(self, game: GameModel) -> Outcome {
        Outcome {
            view: ViewModel::Jobs(self.redrawn(game)),
            game,
            transition: None,
            out: self.frame(game),
        }
    }

    /// The list's reaction to a command. Up and Down move from job to job,
    /// around the ends, while the list takes itself for filled. Left and
    /// Right move from column to column. Select on a button accepts or
    /// declines the selected job, after which the selection is settled.
    /// All of these draw the list. Back asks to end.
    pub open spec fn updated(self, game: GameModel, input: Input) -> Outcome {
        let len = game.available_jobs.len();
        match input {
            Input::Back => Outcome {
                view: ViewModel::Jobs(self),
                game,
                transition: Some(TransitionModel::Pop),
                out: Seq::empty(),
            },
            Input::Up => (if self.no_jobs {
                self
            } else if self.vert_sel == 0 {
                View { vert_sel: (len - 1) as u8, ..self }
            } else {
                View { vert_sel: (self.vert_sel - 1) as u8, ..self }
            }).shown(game),
            Input::Down => (if self.no_jobs {
                self
            } else if self.vert_sel == len - 1 {
                View { vert_sel: 0, ..self }
            } else {
                View { vert_sel: (self.vert_sel + 1) as u8, ..self }
            }).shown(game),
            Input::Left => (View { horiz_sel: self.horiz_sel.left(), ..self }).shown(game),
            Input::Right => (View { horiz_sel: self.horiz_sel.right(), ..self }).shown(game),
            Input::Select => match self.horiz_sel {
                HorizSel::Name => Outcome {
                    view: ViewModel::Jobs(self),
                    game,
                    transition: None,
                    out: Seq::empty(),
                },
                HorizSel::Accept => {
                    let after = if self.no_jobs {
                        game
                    } else {
                        game.accepted(self.vert_sel as int)
                    };
                    self.settled(after.available_jobs.len()).shown(after)
                },
                HorizSel::Decline => {
                    let after = if self.no_jobs {
                        game
                    } else {
                        game.declined(self.vert_sel as int)
                    };
                    self.settled(after.available_jobs.len()).shown(after)
                },
            },
            _ => Outcome { view: ViewModel::Jobs(self), game, transition: None, out: Seq::empty() },
        }
    }

    /// The list as it is when first made for a game.
    pub fn new(game: &Game) -> (v: View)
        ensures
            v == fresh(game@),
    {
        View { vert_sel: 0, horiz_sel: HorizSel::Name, no_jobs: game.available_jobs.len() == 0 }
    }

    /// Whether the list can react to a command.
    pub fn accepts(&self, game: &Game, input: Input) -> (ok: bool)
        ensures
            ok == self.can_update(game@, input),
    {
        let len = game.available_jobs.len();
        match input {
            Input::Up => self.no_jobs || len > 0,
            Input::Down => self.no_jobs || (len > 0 && (self.vert_sel as usize == len - 1
                || self.vert_sel < u8::MAX)),
            Input::Select => match self.horiz_sel {
                HorizSel::Name => true,
                _ => self.no_jobs || (self.vert_sel as usize) < len,
            },
            _ => true,
        }
    }

    fn settle(&mut self, game: &Game)
        ensures
            *final(self) == old(self).settled(game@.available_jobs.len()),
    {
        if self.vert_sel as usize >= game.available_jobs.len() && self.vert_sel > 0 {
            self.vert_sel -= 1;
        }
    }

    fn show(&mut self, game: &Game, out: &mut Vec<Piece>)
        requires
            game.wf(),
        ensures
            *final(self) == old(self).redrawn(game@),
            pieces_of(final(out)@) == pieces_of(old(out)@) + old(self).frame(game@),
    {
        let mut head = clear_all();
        head.append(goto(1, 1).as_str());
        emit(out, Piece::Raw(head));
        let mut title = "Jobs".to_string();
        title.append(goto(1, 2).as_str());
        emit(out, Piece::Raw(title));
        let ghost top = pieces_of(out@);
        let len = game.available_jobs.len();
        let mut idx: usize = 0;
        while idx < len
            invariant
                game.wf(),
                len == game@.available_jobs.len(),
                len == game.available_jobs@.len(),
                idx <= len,
                pieces_of(out@) == top + jobs_rows(game@, idx as nat),
            decreases len - idx,
        {
            let job = &game.available_jobs[idx];
            assert(job@ == game@.available_jobs[idx as int]);
            let row: u16 = (3 + idx * 2) as u16;
            let mut line = goto(3, row);
            match game.customers.name_of(job.customer) {
                Some(name) => {
                    line.append(name.as_str());
                },
                None => {
                    assert(false);
                },
            }
            emit(out, Piece::Raw(line));
            emit(out, Piece::Raw(goto(5, row + 1)));
            emit(out, Piece::Payload(job.payload.copy()));
            let mut buttons = goto(ACCEPT_COLUMN, row);
            buttons.append("✓");
            buttons.append(right(3).as_str());
            buttons.append("X");
            emit(out, Piece::Raw(buttons));
            assert(pieces_of(out@) =~= top + jobs_rows(game@, (idx + 1) as nat));
            idx += 1;
        }
        let ghost listed = pieces_of(out@);
        assert(listed =~= pieces_of(old(out)@) + seq![
            PieceModel::Raw(clear_all_text() + goto_text(1, 1)),
            PieceModel::Raw("Jobs"@ + goto_text(1, 2)),
        ] + jobs_rows(game@, game@.available_jobs.len()));
        self.no_jobs = len == 0;
        if !self.no_jobs {
            let x: u16 = match self.horiz_sel {
                HorizSel::Name => 1,
                HorizSel::Accept => 24,
                HorizSel::Decline => 28,
            };
            let mut marker = goto(x, 3 + (self.vert_sel as u16) * 2);
            match self.horiz_sel {
                HorizSel::Name => {
                    marker.append("▶");
                },
                _ => {
                    marker.append("[");
                    marker.append(right(1).as_str());
                    marker.append("]");
                },
            }
            assert(marker@ =~= goto_text(
                self.horiz_sel.marker_column(),
                (3 + self.vert_sel * 2) as u16,
            ) + self.horiz_sel.marker());
            emit(out, Piece::Raw(marker));
        }
        assert(pieces_of(out@) =~= listed + old(self).marker(game@));
        emit(out, Piece::Flush);
        reveal(View::frame);
        assert(pieces_of(out@) =~= pieces_of(old(out)@) + old(self).frame(game@));
    }
}

impl FullView for View {
    open spec fn model(&self) -> ViewModel {
        ViewModel::Jobs(*self)
    }

    fn full_redraw(&mut self, game: &Game, out: &mut Vec<Piece>) {
        self.show(game, out);
    }

    fn update(&mut self, game: &mut Game, input: Input, out: &mut Vec<Piece>) -> (t: Option<Transition>) {
        match input {
            Input::Back => {
                assert(pieces_of(out@) =~= pieces_of(old(out)@) + Seq::empty());
                Some(Transition::Pop)
            },
            Input::Up => {
                if !self.no_jobs {
                    if self.vert_sel == 0 {
                        self.vert_sel = (game.available_jobs.len() - 1) as u8;
                    } else {
                        self.vert_sel -= 1;
                    }
                }
                self.show(game, out);
                None
            },
            Input::Down => {
                if !self.no_jobs {
                    let max_idx = (game.available_jobs.len() - 1) as u8;
                    if self.vert_sel == max_idx {
                        self.vert_sel = 0;
                    } else {
                        self.vert_sel += 1;
                    }
                }
                self.show(game, out);
                None
            },
            Input::Left => {
                self.horiz_sel = match self.horiz_sel {
                    HorizSel::Name | HorizSel::Accept => HorizSel::Name,
                    HorizSel::Decline => HorizSel::Accept,
                };
                self.show(game, out);
                None
            },
            Input::Right => {
                self.horiz_sel = match self.horiz_sel {
                    HorizSel::Name => HorizSel::Accept,
                    HorizSel::Accept | HorizSel::Decline => HorizSel::Decline,
                };
                self.show(game, out);
                None
            },
            Input::Select => {
                match self.horiz_sel {
                    HorizSel::Name => {
                        assert(pieces_of(out@) =~= pieces_of(old(out)@) + Seq::empty());
                    },
                    HorizSel::Accept => {
                        if !self.no_jobs {
                            game.accept_job_at(self.vert_sel as usize);
                        }
                        self.settle(game);
                        self.show(game, out);
                    },
                    HorizSel::Decline => {
                        if !self.no_jobs {
                            game.decline_job_at(self.vert_sel as usize);
                        }
                        self.settle(game);
                        self.show(game, out);
                    },
                }
                None
            },
            _ => {
                assert(pieces_of(out@) =~= pieces_of(old(out)@) + Seq::empty());
                None
            },
        }
    }

    fn restart(&mut self, game: &mut Game, last: AnyView, out: &mut Vec<Piece>) -> (t: Option<Transition>) {
        self.show(game, out);
        None
    }

    fn start(&mut self, game: &mut Game, luck: &Luck, out: &mut Vec<Piece>) -> (t: Option<Transition>) {
        self.show(game, out);
        None
    }
}

/// After a job was accepted or declined, the selection points at a job
/// again, or at the first place where no job is left: it moves up by one
/// exactly where the last job of the list was selected and was not the
/// only one.
pub proof fn selection_stays_in_bounds(view: View, game: GameModel)
    requires
        game.wf(),
        !view.no_jobs,
        view.vert_sel < game.available_jobs.len(),
        view.horiz_sel != HorizSel::Name,
    ensures
        ({
            let after = view.updated(game, Input::Select);
            let len = game.available_jobs.len();
            &&& after.game.available_jobs.len() == len - 1
            &&& after.view is Jobs
            &&& after.view->Jobs_0.vert_sel == if view.vert_sel == len - 1 && view.vert_sel > 0 {
                view.vert_sel - 1
            } else {
                view.vert_sel as int
            }
            &&& len > 1 ==> after.view->Jobs_0.vert_sel < len - 1
            &&& len == 1 ==> after.view->Jobs_0.vert_sel == 0
        }),
{
}

} // verus!
