//! The builder: a rocket design under work, the components it can be given,
//! a button to save it and a field for its name.

use vstd::prelude::*;
use vstd::view::View as _;
use vstd::utf8::encode_utf8;
use crate::game::Game;
use crate::game::GameModel;
use crate::game::MAX_DESIGNS;
use crate::job::Luck;
use crate::rocket::Component;
use crate::rocket::ComponentModel;
use crate::rocket::Rocket;
use crate::rocket::RocketModel;
use crate::rocket::default_name;
use crate::screen::Piece;
use crate::screen::PieceModel;
use crate::screen::clear_all;
use crate::screen::clear_all_text;
use crate::screen::emit;
use crate::screen::goto;
use crate::screen::goto_text;
use crate::screen::pieces_of;
use crate::screen::right;
use crate::screen::right_text;
use crate::ui::AnyView;
use crate::ui::FullView;
use crate::ui::Input;
use crate::ui::InputMode;
use crate::ui::Outcome;
use crate::ui::Transition;
use crate::ui::TransitionModel;
use crate::ui::ViewModel;
use crate::ui::type_box::TypeBox;
use crate::ui::type_box::TypeBoxModel;

verus! {

/// The builder.
#[derive(Debug)]
pub struct View {
    pub(crate) edited: Edited,
    pub(crate) rocket: Rocket,
    pub(crate) sel: Sel,
    pub(crate) name: TypeBox,
}

/// What can be selected: a component of the rocket, a component on the
/// shelf, the button that saves, or the field for the name.
#[derive(Clone, Copy, Debug, PartialEq, Eq, Structural)]
pub enum Sel {
    RocketComponent(u8),
    NewComponent(u8),
    Save,
    Name,
}

/// Where the design under work belongs: nowhere yet, or at a place among
/// the game's designs.
#[derive(Clone, Copy, Debug, PartialEq, Eq, Structural)]
pub enum Edited {
    New,
    Edit(u8),
}

/// A builder, as plain values.
pub struct BuilderModel {
    pub edited: Edited,
    pub rocket: RocketModel,
    pub sel: Sel,
    pub name: TypeBoxModel,
}

/// The column of the button that saves.
pub const SAVE_BUTTON_X: u16 = 30;

/// The columns that a component of the rocket takes.
pub const COMPONENT_WIDTH: u16 = 6;

/// The width of the field for the name.
pub const NAME_WIDTH: u8 = 20;

impl vstd::view::View for View {
    type V = BuilderModel;

    open(crate) spec fn view(&self) -> BuilderModel {
        BuilderModel { edited: self.edited, rocket: self.rocket@, sel: self.sel, name: self.name@ }
    }
}

/// The field for the name as a builder begins with it: empty, at the top
/// left, not listening.
pub open spec fn name_field() -> TypeBoxModel {
    TypeBoxModel {
        content: Seq::empty(),
        cursor: 0,
        len: NAME_WIDTH,
        loc_x: 1,
        loc_y: 1,
        active: false,
    }
}

/// The builder of a new design.
pub open spec fn blank() -> BuilderModel {
    BuilderModel {
        edited: Edited::New,
        rocket: RocketModel { name: default_name(), components: Seq::empty() },
        sel: Sel::NewComponent(0),
        name: name_field(),
    }
}

/// The builder of the game's design at `idx`.
pub open spec fn editing(game: GameModel, idx: u8) -> BuilderModel {
    BuilderModel {
        edited: Edited::Edit(idx),
        rocket: game.rocket_designs[idx as int],
        sel: Sel::RocketComponent(0),
        name: name_field(),
    }
}

/// The room behind a display of so many bytes, up to the width of a
/// component.
pub open spec fn gap(bytes: nat) -> u16 {
    if bytes <= COMPONENT_WIDTH {
        (COMPONENT_WIDTH - bytes) as u16
    } else {
        0
    }
}

/// The components of the rocket in a row, the first `n` of them: each is
/// its display and the room behind it.
pub open spec fn part_cells(parts: Seq<ComponentModel>, n: nat) -> Seq<PieceModel>
    decreases n,
{
    if n == 0 {
        Seq::empty()
    } else {
        part_cells(parts, (n - 1) as nat).push(
            PieceModel::Raw(
                parts[n - 1].display + right_text(gap(encode_utf8(parts[n - 1].display).len())),
            ),
        )
    }
}

/// The rows of the shelf's component at `idx`: display, name and class on
/// one line, the mass on the next.
pub open spec fn shelf_row(known: Seq<ComponentModel>, idx: int) -> Seq<PieceModel> {
    let c = known[idx];
    seq![
        PieceModel::Wide(
            goto_text(3, (7 + idx * 2) as u16) + c.display + goto_text(8, (7 + idx * 2) as u16)
                + c.name + " ("@ + c.class.symbol_text() + ")"@ + goto_text(
                11,
                (8 + idx * 2) as u16,
            ) + "Mass: "@,
        ),
        PieceModel::Kilograms(c.mass),
        PieceModel::Wide(" kg"@),
    ]
}

/// The rows of the first `n` components of the shelf.
pub open spec fn shelf_rows(known: Seq<ComponentModel>, n: nat) -> Seq<PieceModel>
    decreases n,
{
    if n == 0 {
        Seq::empty()
    } else {
        shelf_rows(known, (n - 1) as nat) + shelf_row(known, n - 1)
    }
}

/// The number of components as the builder counts them: in eight bits.
pub open spec fn count8(parts: nat) -> u8 {
    (parts % 256) as u8
}

impl Sel {
    /// The marker of what is selected: a caret under a component of the
    /// rocket, an arrow before a component of the shelf, brackets around
    /// the button. The field for the name has none.
    pub open spec fn marker(self) -> Seq<PieceModel> {
        match self {
            Sel::RocketComponent(idx) => seq![
                PieceModel::Raw(goto_text((3 + COMPONENT_WIDTH * idx) as u16, 5) + "^"@),
            ],
            Sel::NewComponent(idx) => seq![
                PieceModel::Raw(goto_text(1, (7 + idx * 2) as u16) + "+>"@),
            ],
            Sel::Save => seq![
                PieceModel::Raw(goto_text(SAVE_BUTTON_X, 1) + "["@ + right_text(4) + "]"@),
            ],
            Sel::Name => Seq::empty(),
        }
    }

    /// One step up, where the rocket has `parts` components: from the
    /// rocket to the button, from the top of the shelf to the rocket, or to
    /// the button if the rocket is empty, else up the shelf.
    pub open spec fn up(self, parts: nat) -> Sel {
        match self {
            Sel::RocketComponent(_) => Sel::Save,
            Sel::NewComponent(idx) => if idx == 0 && parts > 0 {
                Sel::RocketComponent(0)
            } else if idx == 0 {
                Sel::Save
            } else {
                Sel::NewComponent((idx - 1) as u8)
            },
            Sel::Save | Sel::Name => self,
        }
    }

    /// One step down, where the rocket has `parts` components and the shelf
    /// `known`: from the rocket to the top of the shelf, down the shelf as
    /// far as the place behind its last component, from the button to the
    /// rocket, or to the shelf if the rocket is empty.
    pub open spec fn down(self, parts: nat, known: nat) -> Sel {
        match self {
            Sel::RocketComponent(_) => Sel::NewComponent(0),
            Sel::NewComponent(idx) => if idx != known {
                Sel::NewComponent((idx + 1) as u8)
            } else {
                self
            },
            Sel::Save => if parts > 0 {
                Sel::RocketComponent(0)
            } else {
                Sel::NewComponent(0)
            },
            Sel::Name => self,
        }
    }

    /// One step right along a rocket counted as `count` components, around
    /// the end.
    pub open spec fn right(self, count: u8) -> Sel {
        match self {
            Sel::RocketComponent(idx) => if idx == count - 1 {
                Sel::RocketComponent(0)
            } else {
                Sel::RocketComponent((idx + 1) as u8)
            },
            _ => self,
        }
    }

    /// One step left along a rocket counted as `count` components, around
    /// the end.
    pub open spec fn left(self, count: u8) -> Sel {
        match self {
            Sel::RocketComponent(idx) => if idx == 0 {
                Sel::RocketComponent((count - 1) as u8)
            } else {
                Sel::RocketComponent((idx - 1) as u8)
            },
            _ => self,
        }
    }
}

impl Sel {
    /// The selection after a command that moves it, where the rocket has
    /// `parts` components and the shelf `known`.
    pub open spec fn stepped(self, input: Input, parts: nat, known: nat) -> Sel {
        match input {
            Input::Up => self.up(parts),
            Input::Down => self.down(parts, known),
            Input::Right => self.right(count8(parts)),
            Input::Left => self.left(count8(parts)),
            _ => self,
        }
    }
}

/// Whether a command confirms: Select, or a line break that was typed.
pub open spec fn confirms(input: Input) -> bool {
    input == Input::Select || input == Input::Type('\n')
}

impl BuilderModel {
    /// The top of the builder: on a cleared screen the rocket's name and
    /// the button, and the cursor where the rocket begins.
    pub open spec fn head(self) -> Seq<PieceModel> {
        seq![
            PieceModel::Raw(clear_all_text() + goto_text(1, 1)),
            PieceModel::Raw(self.rocket.name),
            PieceModel::Raw(goto_text(SAVE_BUTTON_X, 1) + " save"@),
            PieceModel::Raw(goto_text(2, 4)),
        ]
    }

    /// What the builder is drawn as: on a cleared screen the rocket's name
    /// and the button, the rocket's components in a row, the shelf, the
    /// marker, and the field for the name.
    #[verifier::opaque]
    pub open spec fn frame(self, game: GameModel) -> Seq<PieceModel> {
        self.name.prelude() + self.head() + part_cells(
            self.rocket.components,
            self.rocket.components.len(),
        ) + seq![
            PieceModel::Raw(goto_text(1, 6) + "Components:"@),
        ] + shelf_rows(game.known_components, game.known_components.len()) + self.sel.marker()
            + self.name.drawn() + self.name.finale() + seq![PieceModel::Flush]
    }

    /// Whether the builder can react to a command. A step along the
    /// rocket needs a rocket that counts at least one component, a step
    /// down or right needs a number for the next place, a component can be
    /// taken only from a place of the shelf where one is, and a design can
    /// be saved only to a place where one is, or as one more where the
    /// game has room.
    pub open spec fn can_update(self, game: GameModel, input: Input) -> bool {
        let count = count8(self.rocket.components.len());
        if input == Input::Down {
            match self.sel {
                Sel::NewComponent(idx) => idx == game.known_components.len() || idx < u8::MAX,
                _ => true,
            }
        } else if input == Input::Right {
            match self.sel {
                Sel::RocketComponent(idx) => count >= 1 && (idx == count - 1 || idx < u8::MAX),
                _ => true,
            }
        } else if input == Input::Left {
            match self.sel {
                Sel::RocketComponent(idx) => idx != 0 || count >= 1,
                _ => true,
            }
        } else if confirms(input) {
            match self.sel {
                Sel::NewComponent(idx) => idx < game.known_components.len(),
                Sel::Save => match self.edited {
                    Edited::Edit(idx) => idx < game.rocket_designs.len(),
                    Edited::New => game.rocket_designs.len() < MAX_DESIGNS,
                },
                _ => true,
            }
        } else {
            true
        }
    }

    /// The builder after the field for the name has had the command.
    pub open spec fn typed(self, input: Input) -> BuilderModel {
        BuilderModel { name: self.name.after(input), ..self }
    }

    /// What the field's reaction writes: the builder once more, if the
    /// field reacted.
    pub open spec fn echo(self, game: GameModel, input: Input) -> Seq<PieceModel> {
        if self.name.handles(input) {
            self.typed(input).frame(game)
        } else {
            Seq::empty()
        }
    }

    /// The builder with another selection.
    pub open spec fn selecting(self, sel: Sel) -> BuilderModel {
        BuilderModel { sel, ..self }
    }

    /// The outcome where the builder is drawn after `before` was written
    /// and nothing is asked for.
    pub open spec fn shown(self, game: GameModel, before: Seq<PieceModel>) -> Outcome {
        Outcome {
            view: ViewModel::Builder(self),
            game,
            transition: None,
            out: before + self.frame(game),
        }
    }

    /// The outcome where nothing more is drawn and nothing is asked for.
    pub open spec fn idle(self, game: GameModel, before: Seq<PieceModel>) -> Outcome {
        Outcome { view: ViewModel::Builder(self), game, transition: None, out: before }
    }

    /// The builder's reaction to a confirming command: a component of the
    /// shelf is added to the rocket; the button saves the design to its
    /// place, or as one more design, whose place it then has; the field
    /// for the name stops listening and gives the rocket its name.
    pub open spec fn confirmed(self, game: GameModel) -> Outcome {
        let before = Seq::<PieceModel>::empty();
        match self.sel {
            Sel::RocketComponent(_) => self.idle(game, before),
            Sel::NewComponent(idx) => (BuilderModel {
                rocket: RocketModel {
                    components: self.rocket.components.push(game.known_components[idx as int]),
                    ..self.rocket
                },
                ..self
            }).shown(game, before),
            Sel::Save => match self.edited {
                Edited::Edit(idx) => self.idle(
                    GameModel {
                        rocket_designs: game.rocket_designs.update(idx as int, self.rocket),
                        ..game
                    },
                    before,
                ),
                Edited::New => (BuilderModel {
                    edited: Edited::Edit(game.rocket_designs.len() as u8),
                    ..self
                }).idle(
                    GameModel { rocket_designs: game.rocket_designs.push(self.rocket), ..game },
                    before,
                ),
            },
            Sel::Name => {
                let named = BuilderModel {
                    name: TypeBoxModel { active: false, ..self.name },
                    rocket: RocketModel { name: self.name.content, ..self.rocket },
                    sel: Sel::Save,
                    ..self
                };
                Outcome {
                    view: ViewModel::Builder(named),
                    game,
                    transition: Some(TransitionModel::InputMode(InputMode::Control)),
                    out: self.name.activation(false) + named.frame(game),
                }
            },
        }
    }

    /// The builder's reaction to a command. The field for the name has the
    /// command first, and the builder is drawn if the field reacted. Then:
    /// Back asks for steering keys and to end. Up, Down and Right move the
    /// selection and draw the builder. Left moves along the rocket and
    /// draws the builder; from the button it moves to the field for the
    /// name, which begins to listen, and asks for editing keys. A
    /// confirming command acts on what is selected.
    pub open spec fn updated(self, game: GameModel, input: Input) -> Outcome {
        let first = self.typed(input);
        let before = self.echo(game, input);
        let parts = self.rocket.components.len();
        if input == Input::Back {
            Outcome {
                view: ViewModel::Builder(self),
                game,
                transition: Some(crate::ui::leaving_editing()),
                out: Seq::empty(),
            }
        } else if input == Input::Up || input == Input::Down || input == Input::Right {
            first.selecting(self.sel.stepped(input, parts, game.known_components.len())).shown(
                game,
                before,
            )
        } else if input == Input::Left {
            match self.sel {
                Sel::RocketComponent(_) => first.selecting(
                    self.sel.stepped(input, parts, game.known_components.len()),
                ).shown(game, before),
                Sel::Save => {
                    let listening = BuilderModel {
                        sel: Sel::Name,
                        name: TypeBoxModel { active: true, ..first.name },
                        ..first
                    };
                    Outcome {
                        view: ViewModel::Builder(listening),
                        game,
                        transition: Some(TransitionModel::InputMode(InputMode::Type)),
                        out: before + first.name.activation(true) + listening.frame(game),
                    }
                },
                _ => first.idle(game, before),
            }
        } else if confirms(input) {
            self.confirmed(game)
        } else {
            first.idle(game, before)
        }
    }

    /// The builder's reaction to becoming current: the field for the name
    /// takes the rocket's name, as far as it fits, and the builder is
    /// drawn.
    pub open spec fn started(self, game: GameModel) -> Outcome {
        (BuilderModel { name: self.name.filled(self.rocket.name), ..self }).shown(
            game,
            Seq::empty(),
        )
    }
}

impl View {
    /// The builder of a new design.
    pub fn new_rocket() -> (v: View)
        ensures
            v@ == blank(),
    {
        let name = TypeBox::new().at(1, 1).with_len(NAME_WIDTH);
        assert(name@.content =~= Seq::<char>::empty());
        View { rocket: Rocket::new(), edited: Edited::New, sel: Sel::NewComponent(0), name }
    }

    /// The builder of the game's design at `idx`.
    pub fn edit_rocket(game: &Game, idx: u8) -> (v: View)
        requires
            idx < game@.rocket_designs.len(),
        ensures
            v@ == editing(game@, idx),
    {
        let name = TypeBox::new().at(1, 1).with_len(NAME_WIDTH);
        assert(name@.content =~= Seq::<char>::empty());
        View {
            rocket: game.rocket_designs[idx as usize].clone(),
            edited: Edited::Edit(idx),
            sel: Sel::RocketComponent(0),
            name,
        }
    }

    /// The design under work.
    pub fn rocket(&self) -> (rocket: &Rocket)
        ensures
            rocket@ == self@.rocket,
    {
        &self.rocket
    }

    /// What is selected.
    pub fn sel(&self) -> (sel: Sel)
        ensures
            sel == self@.sel,
    {
        self.sel
    }

    /// Where the design under work belongs.
    pub fn edited(&self) -> (edited: Edited)
        ensures
            edited == self@.edited,
    {
        self.edited
    }

    /// The field for the name.
    pub fn name(&self) -> (name: &TypeBox)
        ensures
            name@ == self@.name,
    {
        &self.name
    }

    /// Whether the builder can react to a command.
    pub fn accepts(&self, game: &Game, input: Input) -> (ok: bool)
        ensures
            ok == self@.can_update(game@, input),
    {
        let count: u8 = (self.rocket.components.len() % 256) as u8;
        match input {
            Input::Down => match self.sel {
                Sel::NewComponent(idx) => idx as usize == game.known_components.len() || idx
                    < u8::MAX,
                _ => true,
            },
            Input::Right => match self.sel {
                Sel::RocketComponent(idx) => count >= 1 && (idx == count - 1 || idx < u8::MAX),
                _ => true,
            },
            Input::Left => match self.sel {
                Sel::RocketComponent(idx) => idx != 0 || count >= 1,
                _ => true,
            },
            Input::Select => self.can_confirm(game),
            Input::Type(c) => c != '\n' || self.can_confirm(game),
            _ => true,
        }
    }

    fn can_confirm(&self, game: &Game) -> (ok: bool)
        ensures
            ok == self@.can_update(game@, Input::Select),
            ok == self@.can_update(game@, Input::Type('\n')),
    {
        match self.sel {
            Sel::NewComponent(idx) => (idx as usize) < game.known_components.len(),
            Sel::Save => match self.edited {
                Edited::Edit(idx) => (idx as usize) < game.rocket_designs.len(),
                Edited::New => game.rocket_designs.len() < MAX_DESIGNS,
            },
            _ => true,
        }
    }

    fn draw_parts(&self, out: &mut Vec<Piece>)
        ensures
            pieces_of(final(out)@) == pieces_of(old(out)@) + part_cells(
                self@.rocket.components,
                self@.rocket.components.len(),
            ),
    {
        let ghost top = pieces_of(out@);
        let parts = self.rocket.components.len();
        let mut i: usize = 0;
        assert(pieces_of(out@) =~= top + part_cells(self@.rocket.components, 0));
        while i < parts
            invariant
                parts == self.rocket.components@.len(),
                i <= parts,
                pieces_of(out@) == top + part_cells(self@.rocket.components, i as nat),
            decreases parts - i,
        {
            let component = &self.rocket.components[i];
            assert(component@ == self@.rocket.components[i as int]);
            let mut cell = component.display_text();
            let bytes = component.display.as_str().as_bytes().len();
            let room: u16 = if bytes <= COMPONENT_WIDTH as usize {
                COMPONENT_WIDTH - bytes as u16
            } else {
                0
            };
            assert(room == gap(encode_utf8(component@.display).len()));
            cell.append(right(room).as_str());
            emit(out, Piece::Raw(cell));
            assert(pieces_of(out@) =~= top + part_cells(
                self@.rocket.components,
                (i + 1) as nat,
            ));
            i += 1;
        }
    }

    fn draw_shelf(game: &Game, out: &mut Vec<Piece>)
        requires
            game.wf(),
        ensures
            pieces_of(final(out)@) == pieces_of(old(out)@) + shelf_rows(
                game@.known_components,
                game@.known_components.len(),
            ),
    {
        let ghost top = pieces_of(out@);
        let known = game.known_components.len();
        let mut idx: usize = 0;
        assert(pieces_of(out@) =~= top + shelf_rows(game@.known_components, 0));
        while idx < known
            invariant
                game.wf(),
                known == game.known_components@.len(),
                idx <= known,
                pieces_of(out@) == top + shelf_rows(game@.known_components, idx as nat),
            decreases known - idx,
        {
            let component = &game.known_components[idx];
            assert(component@ == game@.known_components[idx as int]);
            let row: u16 = (7 + idx * 2) as u16;
            let mut line = goto(3, row);
            line.append(component.display.as_str());
            line.append(goto(3 + Component::MAX_WIDTH, row).as_str());
            line.append(component.name.as_str());
            line.append(" (");
            line.append(component.class.symbol().as_str());
            line.append(")");
            line.append(goto(6 + Component::MAX_WIDTH, row + 1).as_str());
            line.append("Mass: ");
            let ghost before = pieces_of(out@);
            emit(out, Piece::Wide(line));
            emit(out, Piece::Kilograms(component.mass));
            emit(out, Piece::Wide(" kg".to_string()));
            assert(pieces_of(out@) =~= before + shelf_row(game@.known_components, idx as int));
            assert(pieces_of(out@) =~= top + shelf_rows(
                game@.known_components,
                (idx + 1) as nat,
            ));
            idx += 1;
        }
    }

    fn draw_marker(&self, out: &mut Vec<Piece>)
        ensures
            pieces_of(final(out)@) == pieces_of(old(out)@) + self@.sel.marker(),
    {
        match self.sel {
            Sel::RocketComponent(idx) => {
                let mut s = goto(3 + COMPONENT_WIDTH * (idx as u16), 5);
                s.append("^");
                emit(out, Piece::Raw(s));
            },
            Sel::NewComponent(idx) => {
                let mut s = goto(1, 7 + (idx as u16) * 2);
                s.append("+>");
                emit(out, Piece::Raw(s));
            },
            Sel::Save => {
                let mut s = goto(SAVE_BUTTON_X, 1);
                s.append("[");
                s.append(right(4).as_str());
                s.append("]");
                emit(out, Piece::Raw(s));
            },
            Sel::Name => {},
        }
        assert(pieces_of(out@) =~= pieces_of(old(out)@) + self@.sel.marker());
    }

    fn draw_head(&self, out: &mut Vec<Piece>)
        ensures
            pieces_of(final(out)@) == pieces_of(old(out)@) + self@.head(),
    {
        let mut head = clear_all();
        head.append(goto(1, 1).as_str());
        emit(out, Piece::Raw(head));
        emit(out, Piece::Raw(self.rocket.name.clone()));
        let mut save = goto(SAVE_BUTTON_X, 1);
        save.append(" save");
        emit(out, Piece::Raw(save));
        emit(out, Piece::Raw(goto(2, 4)));
        assert(pieces_of(out@) =~= pieces_of(old(out)@) + self@.head());
    }

    fn show(&self, game: &Game, out: &mut Vec<Piece>)
        requires
            game.wf(),
        ensures
            pieces_of(final(out)@) == pieces_of(old(out)@) + self@.frame(game@),
    {
        let ghost begun = pieces_of(out@);
        self.name.before_render(out);
        self.draw_head(out);
        self.draw_parts(out);
        let mut shelf = goto(1, 6);
        shelf.append("Components:");
        emit(out, Piece::Raw(shelf));
        let ghost upper = pieces_of(out@);
        assert(upper =~= begun + (self@.name.prelude() + self@.head() + part_cells(
            self@.rocket.components,
            self@.rocket.components.len(),
        ) + seq![PieceModel::Raw(goto_text(1, 6) + "Components:"@)]));
        View::draw_shelf(game, out);
        self.draw_marker(out);
        self.name.draw(out);
        self.name.after_render(out);
        emit(out, Piece::Flush);
        reveal(BuilderModel::frame);
        assert(pieces_of(out@) =~= begun + self@.frame(game@));
    }

    fn step(&mut self, game: &Game, input: Input)
        requires
            game.wf(),
            old(self)@.can_update(game@, input),
            input == Input::Up || input == Input::Down || input == Input::Right || input
                == Input::Left,
        ensures
            final(self)@ == old(self)@.selecting(old(self)@.sel.stepped(
                input,
                old(self)@.rocket.components.len(),
                game@.known_components.len(),
            )),
    {
        let parts = self.rocket.components.len();
        let count: u8 = (parts % 256) as u8;
        match input {
            Input::Up => match self.sel {
                Sel::RocketComponent(_) => {
                    self.sel = Sel::Save;
                },
                Sel::NewComponent(idx) => {
                    if idx == 0 && parts > 0 {
                        self.sel = Sel::RocketComponent(0);
                    } else if idx == 0 {
                        self.sel = Sel::Save;
                    } else {
                        self.sel = Sel::NewComponent(idx - 1);
                    }
                },
                Sel::Save | Sel::Name => {},
            },
            Input::Down => match self.sel {
                Sel::RocketComponent(_) => {
                    self.sel = Sel::NewComponent(0);
                },
                Sel::NewComponent(idx) => {
                    if idx as usize != game.known_components.len() {
                        self.sel = Sel::NewComponent(idx + 1);
                    }
                },
                Sel::Save => {
                    self.sel = if parts > 0 {
                        Sel::RocketComponent(0)
                    } else {
                        Sel::NewComponent(0)
                    };
                },
                Sel::Name => {},
            },
            Input::Right => match self.sel {
                Sel::RocketComponent(idx) => {
                    if idx == count - 1 {
                        self.sel = Sel::RocketComponent(0);
                    } else {
                        self.sel = Sel::RocketComponent(idx + 1);
                    }
                },
                Sel::NewComponent(_) | Sel::Save | Sel::Name => {},
            },
            _ => match self.sel {
                Sel::RocketComponent(idx) => {
                    if idx == 0 {
                        self.sel = Sel::RocketComponent(count - 1);
                    } else {
                        self.sel = Sel::RocketComponent(idx - 1)
                    }
                },
                Sel::NewComponent(_) | Sel::Save | Sel::Name => {},
            },
        }
    }

    fn confirm(&mut self, game: &mut Game, out: &mut Vec<Piece>) -> (t: Option<Transition>)
        requires
            old(game).wf(),
            old(self)@.can_update(old(game)@, Input::Select),
        ensures
            final(game).wf(),
            crate::ui::came_to(
                old(self)@.confirmed(old(game)@),
                ViewModel::Builder(final(self)@),
                final(game)@,
                crate::ui::asked(t),
                pieces_of(old(out)@),
                pieces_of(final(out)@),
            ),
    {
        match self.sel {
            Sel::RocketComponent(_) => {
                assert(pieces_of(out@) =~= pieces_of(old(out)@) + Seq::empty());
                None
            },
            Sel::NewComponent(idx) => {
                let component = game.known_components[idx as usize].clone();
                self.rocket.components.push(component);
                assert(self@.rocket.components =~= old(self)@.rocket.components.push(
                    game@.known_components[idx as int],
                ));
                self.show(game, out);
                assert(pieces_of(out@) =~= pieces_of(old(out)@) + (Seq::empty()
                    + self@.frame(game@)));
                None
            },
            Sel::Save => match self.edited {
                Edited::Edit(idx) => {
                    game.rocket_designs.set(idx as usize, self.rocket.clone());
                    assert(game@.rocket_designs =~= old(game)@.rocket_designs.update(
                        idx as int,
                        self@.rocket,
                    ));
                    assert(pieces_of(out@) =~= pieces_of(old(out)@) + Seq::empty());
                    None
                },
                Edited::New => {
                    game.rocket_designs.push(self.rocket.clone());
                    self.edited = Edited::Edit((game.rocket_designs.len() - 1) as u8);
                    assert(game@.rocket_designs =~= old(game)@.rocket_designs.push(self@.rocket));
                    assert(pieces_of(out@) =~= pieces_of(old(out)@) + Seq::empty());
                    None
                },
            },
            Sel::Name => {
                self.name.activate(false, out);
                self.rocket.name = self.name.text();
                self.sel = Sel::Save;
                self.show(game, out);
                assert(pieces_of(out@) =~= pieces_of(old(out)@) + (old(self)@.name.activation(
                    false,
                ) + self@.frame(game@)));
                Some(Transition::InputMode(InputMode::Control))
            },
        }
    }
}

impl FullView for View {
    open(crate) spec fn model(&self) -> ViewModel {
        ViewModel::Builder(self@)
    }

    fn full_redraw(&mut self, game: &Game, out: &mut Vec<Piece>) {
        self.show(game, out);
    }

    fn update(&mut self, game: &mut Game, input: Input, out: &mut Vec<Piece>) -> (t: Option<Transition>) {
        if self.name.take_input(&input) {
            self.show(game, out);
        }
        let ghost first = self@;
        let ghost before = old(self)@.echo(game@, input);
        assert(pieces_of(out@) =~= pieces_of(old(out)@) + before);
        match input {
            Input::Back => Some(crate::ui::leave_editing()),
            Input::Up | Input::Down | Input::Right => {
                self.step(game, input);
                self.show(game, out);
                assert(pieces_of(out@) =~= pieces_of(old(out)@) + (before + self@.frame(game@)));
                None
            },
            Input::Left => {
                match self.sel {
                    Sel::RocketComponent(_) => {
                        self.step(game, input);
                        self.show(game, out);
                        assert(pieces_of(out@) =~= pieces_of(old(out)@) + (before + self@.frame(
                            game@,
                        )));
                        None
                    },
                    Sel::NewComponent(_) => None,
                    Sel::Save => {
                        self.sel = Sel::Name;
                        self.name.activate(true, out);
                        self.show(game, out);
                        assert(pieces_of(out@) =~= pieces_of(old(out)@) + (before
                            + first.name.activation(true) + self@.frame(game@)));
                        Some(Transition::InputMode(InputMode::Type))
                    },
                    Sel::Name => None,
                }
            },
            Input::Select => self.confirm(game, out),
            Input::Type(c) => {
                if c == '\n' {
                    self.confirm(game, out)
                } else {
                    None
                }
            },
            _ => None,
        }
    }

    fn restart(&mut self, game: &mut Game, last: AnyView, out: &mut Vec<Piece>) -> (t: Option<Transition>) {
        self.show(game, out);
        None
    }

    fn start(&mut self, game: &mut Game, luck: &Luck, out: &mut Vec<Piece>) -> (t: Option<Transition>) {
        self.name.fill(self.rocket.name.as_str());
        self.show(game, out);
        assert(pieces_of(out@) =~= pieces_of(old(out)@) + (Seq::empty() + self@.frame(game@)));
        None
    }
}

} // verus!
