//! What holds of the stack of views, whatever the views are.

use vstd::prelude::*;
use crate::game::GameModel;
use crate::job::LuckModel;
use crate::screen::PieceModel;
use crate::ui::Input;
use crate::ui::Reached;
use crate::ui::TransitionModel;
use crate::ui::UiModel;
use crate::ui::ViewModel;
use crate::ui::applied;
use crate::ui::applied_all;
use crate::ui::can_update;
use crate::ui::opt_weight;
use crate::ui::updated;
use crate::ui::weights;
use crate::ui::frame;
use crate::ui::redrawn;
use crate::ui::restarted;
use crate::ui::started;
use crate::ui::stayed;

verus! {

/// A view after it has become current again and was drawn: `last` is the
/// view that ended above it.
pub open spec fn resumed(view: ViewModel, game: GameModel, last: ViewModel) -> ViewModel {
    redrawn(restarted(view, game, last).view, game)
}

/// Resuming leaves a view what it is: a menu keeps its title and its
/// selection, the list of jobs notes whether there are any, the list of
/// rockets looks its selection over, and every other view stays as it was.
pub proof fn resuming_keeps_the_view(view: ViewModel, game: GameModel, last: ViewModel)
    ensures
        match view {
            ViewModel::Tabs(menu) => {
                &&& resumed(view, game, last) is Tabs
                &&& resumed(view, game, last)->Tabs_0.title == menu.title
                &&& resumed(view, game, last)->Tabs_0.selection == menu.selection
            },
            ViewModel::Jobs(list) => resumed(view, game, last) == ViewModel::Jobs(
                list.redrawn(game),
            ),
            ViewModel::Rockets(list) => {
                &&& resumed(view, game, last) is Rockets
                &&& resumed(view, game, last)->Rockets_0.sel == list.sel.checked(
                    game.rocket_designs.len(),
                )
            },
            _ => resumed(view, game, last) == view,
        },
{
}

/// Where pushing the views leads, the first of them first.
pub open spec fn pushed_all(
    ui: UiModel,
    game: GameModel,
    luck: LuckModel,
    views: Seq<ViewModel>,
) -> Reached
    decreases views.len(),
{
    if views.len() == 0 {
        stayed(ui, game)
    } else {
        let before = pushed_all(ui, game, luck, views.drop_last());
        let last = applied(
            before.ui,
            before.game,
            luck,
            Some(TransitionModel::Push(views.last())),
        );
        Reached { out: before.out + last.out, cont: before.cont && last.cont, ..last }
    }
}

/// Where popping `n` times leads.
pub open spec fn popped(ui: UiModel, game: GameModel, luck: LuckModel, n: nat) -> Reached
    decreases n,
{
    if n == 0 {
        stayed(ui, game)
    } else {
        let first = applied(ui, game, luck, Some(TransitionModel::Pop));
        let rest = popped(first.ui, first.game, luck, (n - 1) as nat);
        Reached { out: first.out + rest.out, cont: first.cont && rest.cont, ..rest }
    }
}

/// A pop with nothing suspended ends the session and changes nothing:
/// the interface and the game stay as they are, and nothing is written.
pub proof fn pop_on_empty_stack_ends(ui: UiModel, game: GameModel, luck: LuckModel)
    requires
        ui.stack.len() == 0,
    ensures
        applied(ui, game, luck, Some(TransitionModel::Pop)) == (Reached {
            ui,
            game,
            out: Seq::empty(),
            cont: false,
        }),
{
}

/// Pushing a view that asks for nothing when it becomes current suspends
/// the current view beneath it and leaves the game and the mode alone.
pub proof fn push_suspends_current(
    ui: UiModel,
    game: GameModel,
    luck: LuckModel,
    view: ViewModel,
)
    requires
        !(view is Tick),
    ensures
        applied(ui, game, luck, Some(TransitionModel::Push(view))) == (Reached {
            ui: UiModel {
                current: started(view, game, luck).view,
                stack: ui.stack.push(ui.current),
                mode: ui.mode,
            },
            game,
            out: started(view, game, luck).out,
            cont: true,
        }),
{
    reveal_with_fuel(applied, 2);
    let begun = started(view, game, luck);
    assert(begun.transition is None);
    assert(begun.game == game);
    assert(begun.out + Seq::<PieceModel>::empty() =~= begun.out);
}

/// A pop with a view suspended resumes that view, once: it becomes
/// current, the views beneath it stay suspended, and the game and the mode
/// are left alone. What is written is what the view writes on being
/// resumed, and the view drawn.
pub proof fn pop_resumes_suspended(ui: UiModel, game: GameModel, luck: LuckModel)
    requires
        ui.stack.len() > 0,
    ensures
        applied(ui, game, luck, Some(TransitionModel::Pop)) == (Reached {
            ui: UiModel {
                current: resumed(ui.stack.last(), game, ui.current),
                stack: ui.stack.drop_last(),
                mode: ui.mode,
            },
            game,
            out: restarted(ui.stack.last(), game, ui.current).out + frame(
                restarted(ui.stack.last(), game, ui.current).view,
                game,
            ),
            cont: true,
        }),
{
    reveal_with_fuel(applied, 2);
    let again = restarted(ui.stack.last(), game, ui.current);
    assert(again.transition is None);
    assert(again.game == game);
    assert(again.out + Seq::<PieceModel>::empty() + frame(again.view, game) =~= again.out + frame(
        again.view,
        game,
    ));
}

/// Pushing a view that asks to end as soon as it becomes current comes to
/// a push and a pop: the game ticks, the view that was current is current
/// again and has been resumed exactly once, and the stack and the mode are
/// as before.
pub proof fn push_of_ending_view_is_undone(ui: UiModel, game: GameModel, luck: LuckModel)
    ensures
        applied(ui, game, luck, Some(TransitionModel::Push(ViewModel::Tick))) == (Reached {
            ui: UiModel {
                current: resumed(ui.current, game.ticked(luck), ViewModel::Tick),
                stack: ui.stack,
                mode: ui.mode,
            },
            game: game.ticked(luck),
            out: restarted(ui.current, game.ticked(luck), ViewModel::Tick).out + frame(
                restarted(ui.current, game.ticked(luck), ViewModel::Tick).view,
                game.ticked(luck),
            ),
            cont: true,
        }),
{
    reveal_with_fuel(applied, 2);
    let after = game.ticked(luck);
    let begun = started(ViewModel::Tick, game, luck);
    assert(begun.transition == Some(TransitionModel::Pop));
    assert(begun.view == ViewModel::Tick);
    assert(begun.game == after);
    let pushed = UiModel {
        current: ViewModel::Tick,
        stack: ui.stack.push(ui.current),
        mode: ui.mode,
    };
    pop_resumes_suspended(pushed, after, luck);
    assert(pushed.stack.drop_last() =~= ui.stack);
    assert(pushed.stack.last() == ui.current);
    let again = restarted(ui.current, after, ViewModel::Tick);
    assert(begun.out + (again.out + frame(again.view, after)) =~= again.out + frame(
        again.view,
        after,
    ));
}

/// Pushes of views that ask for nothing leave the game and the mode alone
/// and put the view that was current, and then each other, on the stack.
pub proof fn pushes_grow_stack(
    ui: UiModel,
    game: GameModel,
    luck: LuckModel,
    views: Seq<ViewModel>,
)
    requires
        forall|i: int| 0 <= i < views.len() ==> !(#[trigger] views[i] is Tick),
    ensures
        pushed_all(ui, game, luck, views).cont,
        pushed_all(ui, game, luck, views).game == game,
        pushed_all(ui, game, luck, views).ui.mode == ui.mode,
        pushed_all(ui, game, luck, views).ui.stack.len() == ui.stack.len() + views.len(),
        pushed_all(ui, game, luck, views).ui.stack.take(ui.stack.len() as int) == ui.stack,
        views.len() > 0 ==> pushed_all(ui, game, luck, views).ui.stack[ui.stack.len() as int]
            == ui.current,
        views.len() == 0 ==> pushed_all(ui, game, luck, views).ui == ui,
    decreases views.len(),
{
    if views.len() == 0 {
        assert(ui.stack.take(ui.stack.len() as int) =~= ui.stack);
    } else {
        pushes_grow_stack(ui, game, luck, views.drop_last());
        let before = pushed_all(ui, game, luck, views.drop_last());
        push_suspends_current(before.ui, game, luck, views.last());
        let after = pushed_all(ui, game, luck, views);
        assert(after.ui.stack == before.ui.stack.push(before.ui.current));
        assert(after.ui.stack.take(ui.stack.len() as int) =~= before.ui.stack.take(
            ui.stack.len() as int,
        ));
    }
}

/// Pops, no more than there are suspended views, leave the game and the
/// mode alone and take that many views off the stack; the view that is
/// then current is the one that was suspended at that depth, resumed.
pub proof fn pops_shrink_stack(ui: UiModel, game: GameModel, luck: LuckModel, n: nat)
    requires
        n <= ui.stack.len(),
    ensures
        popped(ui, game, luck, n).cont,
        popped(ui, game, luck, n).game == game,
        popped(ui, game, luck, n).ui.mode == ui.mode,
        popped(ui, game, luck, n).ui.stack == ui.stack.take(ui.stack.len() - n),
        n == 0 ==> popped(ui, game, luck, n).ui == ui,
        n > 0 ==> exists|last: ViewModel|
            popped(ui, game, luck, n).ui.current == #[trigger] resumed(
                ui.stack[ui.stack.len() - n],
                game,
                last,
            ),
    decreases n,
{
    if n == 0 {
        assert(ui.stack.take(ui.stack.len() as int) =~= ui.stack);
    } else {
        pop_resumes_suspended(ui, game, luck);
        let first = applied(ui, game, luck, Some(TransitionModel::Pop));
        pops_shrink_stack(first.ui, game, luck, (n - 1) as nat);
        let end = popped(ui, game, luck, n);
        assert(end.ui.stack =~= ui.stack.take(ui.stack.len() - n));
        if n == 1 {
            assert(end.ui.current == resumed(ui.stack[ui.stack.len() - 1], game, ui.current));
        } else {
            let last = choose|last: ViewModel|
                popped(first.ui, game, luck, (n - 1) as nat).ui.current == #[trigger] resumed(
                    first.ui.stack[first.ui.stack.len() - (n - 1)],
                    game,
                    last,
                );
            assert(first.ui.stack[first.ui.stack.len() - (n - 1)] == ui.stack[ui.stack.len() - n]);
            assert(end.ui.current == resumed(ui.stack[ui.stack.len() - n], game, last));
        }
    }
}

/// As many pops as pushes lead back: after pushing views that ask for
/// nothing when they become current, and popping as often, the session
/// goes on, the stack, the mode and the game are as they were, and the
/// view that was current is current again, resumed.
pub proof fn pushes_and_pops_balance(
    ui: UiModel,
    game: GameModel,
    luck: LuckModel,
    views: Seq<ViewModel>,
)
    requires
        forall|i: int| 0 <= i < views.len() ==> !(#[trigger] views[i] is Tick),
    ensures
        ({
            let up = pushed_all(ui, game, luck, views);
            let down = popped(up.ui, up.game, luck, views.len());
            &&& up.cont
            &&& down.cont
            &&& down.game == game
            &&& down.ui.mode == ui.mode
            &&& down.ui.stack == ui.stack
            &&& views.len() == 0 ==> down.ui.current == ui.current
            &&& views.len() > 0 ==> exists|last: ViewModel|
                down.ui.current == #[trigger] resumed(ui.current, game, last)
        }),
{
    pushes_grow_stack(ui, game, luck, views);
    let up = pushed_all(ui, game, luck, views);
    pops_shrink_stack(up.ui, game, luck, views.len());
    let down = popped(up.ui, up.game, luck, views.len());
    if views.len() > 0 {
        let last = choose|last: ViewModel|
            down.ui.current == #[trigger] resumed(
                up.ui.stack[up.ui.stack.len() - views.len()],
                game,
                last,
            );
        assert(down.ui.current == resumed(ui.current, game, last));
    }
}

/// A view's reaction to a command that it can react to leaves a game that
/// is well formed well formed.
pub proof fn reaction_keeps_game_well_formed(view: ViewModel, game: GameModel, input: Input)
    requires
        game.wf(),
        can_update(view, game, input),
    ensures
        updated(view, game, input).game.wf(),
{
}

/// Following a transition leaves a game that is well formed well formed.
pub proof fn transition_keeps_game_well_formed(
    ui: UiModel,
    game: GameModel,
    luck: LuckModel,
    transition: Option<TransitionModel>,
)
    requires
        game.wf(),
    ensures
        applied(ui, game, luck, transition).game.wf(),
    decreases opt_weight(transition), 1nat,
{
    match transition {
        None => {},
        Some(TransitionModel::Push(view)) => {
            let begun = started(view, game, luck);
            assert(begun.game.wf());
            transition_keeps_game_well_formed(
                UiModel { current: begun.view, stack: ui.stack.push(ui.current), mode: ui.mode },
                begun.game,
                luck,
                begun.transition,
            );
        },
        Some(TransitionModel::Pop) => {
            if ui.stack.len() > 0 {
                let again = restarted(ui.stack.last(), game, ui.current);
                transition_keeps_game_well_formed(
                    UiModel { current: again.view, stack: ui.stack.drop_last(), mode: ui.mode },
                    again.game,
                    luck,
                    again.transition,
                );
            }
        },
        Some(TransitionModel::InputMode(_)) => {},
        Some(TransitionModel::Multiple(members)) => {
            batch_keeps_game_well_formed(ui, game, luck, members);
        },
    }
}

/// Following a batch leaves a game that is well formed well formed.
pub proof fn batch_keeps_game_well_formed(
    ui: UiModel,
    game: GameModel,
    luck: LuckModel,
    members: Seq<TransitionModel>,
)
    requires
        game.wf(),
    ensures
        applied_all(ui, game, luck, members).game.wf(),
    decreases weights(members), 0nat,
{
    if members.len() > 0 {
        transition_keeps_game_well_formed(ui, game, luck, Some(members.first()));
        let head = applied(ui, game, luck, Some(members.first()));
        batch_keeps_game_well_formed(head.ui, head.game, luck, members.drop_first());
    }
}

/// A command that the current view can react to leaves a game that is well
/// formed well formed.
pub proof fn command_keeps_game_well_formed(
    ui: UiModel,
    game: GameModel,
    luck: LuckModel,
    input: Input,
)
    requires
        game.wf(),
        can_update(ui.current, game, input),
    ensures
        ui.commanded(game, luck, input).game.wf(),
{
    reaction_keeps_game_well_formed(ui.current, game, input);
    let reaction = updated(ui.current, game, input);
    transition_keeps_game_well_formed(
        UiModel { current: reaction.view, ..ui },
        reaction.game,
        luck,
        reaction.transition,
    );
}

} // verus!
