//! A one-line text field of fixed width.

use vstd::prelude::*;
use crate::screen::Piece;
use crate::screen::PieceModel;
use crate::screen::bg_reset;
use crate::screen::bg_reset_text;
use crate::screen::bg_white;
use crate::screen::bg_white_text;
use crate::screen::blanks;
use crate::screen::blanks_text;
use crate::screen::blinking_block;
use crate::screen::blinking_block_text;
use crate::screen::chars_of;
use crate::screen::emit;
use crate::screen::fg_black;
use crate::screen::fg_black_text;
use crate::screen::fg_reset;
use crate::screen::fg_reset_text;
use crate::screen::goto;
use crate::screen::goto_text;
use crate::screen::hide_cursor;
use crate::screen::hide_text;
use crate::screen::pieces_of;
use crate::screen::restore_cursor;
use crate::screen::restore_text;
use crate::screen::show_cursor;
use crate::screen::show_text;
use crate::screen::text_of;
use crate::ui::Input;

verus! {

/// A text field: what has been typed, where the cursor stands in it, how
/// many characters fit, where on the screen it is, and whether it listens.
#[derive(Debug)]
pub struct TypeBox {
    pub(crate) content: Vec<char>,
    pub(crate) cursor: u8,
    pub(crate) len: u8,
    pub(crate) loc_x: u16,
    pub(crate) loc_y: u16,
    pub(crate) active: bool,
}

/// A text field, as plain values.
pub struct TypeBoxModel {
    pub content: Seq<char>,
    pub cursor: u8,
    pub len: u8,
    pub loc_x: u16,
    pub loc_y: u16,
    pub active: bool,
}

/// Whether the field is to be drawn again.
pub type ShouldRedraw = bool;

/// The rightmost column a field can start in: its widest content and the
/// cursor behind it still have columns.
pub const MAX_COLUMN: u16 = 65280;

impl TypeBoxModel {
    /// Whether the cursor is within or just behind the content, and the
    /// content fits the field.
    pub open spec fn wf(self) -> bool {
        self.cursor <= self.content.len() <= self.len
    }

    /// Whether the field reacts to a command: it listens, and the command
    /// edits or moves. A line break is no text.
    pub open spec fn handles(self, input: Input) -> bool {
        self.active && match input {
            Input::Type(c) => c != '\n',
            Input::Left | Input::Right | Input::BkSpace | Input::Del => true,
            _ => false,
        }
    }

    /// The field after a command.
    ///
    /// A character is put in at the cursor, which moves behind it, while
    /// the cursor stands before the field's end; a character too many is
    /// dropped. Left and Right move the cursor by one, not before the
    /// start, not behind the content and not onto the field's last column
    /// from the left. Backspace removes the character before the cursor and
    /// moves the cursor back. Delete removes the character at the cursor.
    pub open spec fn after(self, input: Input) -> TypeBoxModel {
        if !self.handles(input) {
            self
        } else {
            match input {
                Input::Type(c) => if self.cursor < self.len && self.content.len() < self.len {
                    TypeBoxModel {
                        content: self.content.insert(self.cursor as int, c),
                        cursor: (self.cursor + 1) as u8,
                        ..self
                    }
                } else {
                    self
                },
                Input::Left => if self.cursor != 0 {
                    TypeBoxModel { cursor: (self.cursor - 1) as u8, ..self }
                } else {
                    self
                },
                Input::Right => if self.cursor + 1 < self.len && self.cursor < self.content.len() {
                    TypeBoxModel { cursor: (self.cursor + 1) as u8, ..self }
                } else {
                    self
                },
                Input::BkSpace => if self.cursor != 0 {
                    TypeBoxModel {
                        content: self.content.remove(self.cursor - 1),
                        cursor: (self.cursor - 1) as u8,
                        ..self
                    }
                } else {
                    self
                },
                Input::Del => if self.cursor < self.content.len() {
                    TypeBoxModel { content: self.content.remove(self.cursor as int), ..self }
                } else {
                    self
                },
                _ => self,
            }
        }
    }

    /// What is written when the field is told to listen or not: on ceasing
    /// to listen the cursor is hidden and put back where it was saved, on
    /// beginning to listen it becomes a blinking block.
    pub open spec fn activation(self, activate: bool) -> Seq<PieceModel> {
        if self.active && !activate {
            seq![PieceModel::Raw(hide_text() + restore_text())]
        } else if !self.active && activate {
            seq![PieceModel::Raw(blinking_block_text())]
        } else {
            Seq::empty()
        }
    }

    /// What is written before the screen is drawn: a listening field hides
    /// the cursor.
    pub open spec fn prelude(self) -> Seq<PieceModel> {
        if self.active {
            seq![PieceModel::Raw(hide_text())]
        } else {
            Seq::empty()
        }
    }

    /// The field as it is drawn: at its place, the content and then blanks
    /// up to the field's width; black on white while it listens.
    pub open spec fn drawn(self) -> Seq<PieceModel> {
        let body = PieceModel::Raw(
            goto_text(self.loc_x, self.loc_y) + self.content + blanks_text(
                (self.len - self.content.len()) as nat,
            ),
        );
        if self.active {
            seq![
                PieceModel::Raw(fg_black_text() + bg_white_text()),
                body,
                PieceModel::Raw(fg_reset_text() + bg_reset_text()),
            ]
        } else {
            seq![body]
        }
    }

    /// What is written after the screen is drawn: a listening field shows
    /// the cursor where its own cursor stands.
    pub open spec fn finale(self) -> Seq<PieceModel> {
        if self.active {
            seq![
                PieceModel::Raw(
                    goto_text((self.loc_x + self.cursor) as u16, self.loc_y) + show_text(),
                ),
            ]
        } else {
            Seq::empty()
        }
    }

    /// The field with as much of `text` in it as fits, the cursor no
    /// further right than the text's end.
    pub open spec fn filled(self, text: Seq<char>) -> TypeBoxModel {
        let kept = if text.len() <= self.len {
            text
        } else {
            text.take(self.len as int)
        };
        TypeBoxModel {
            content: kept,
            cursor: if self.cursor <= kept.len() {
                self.cursor
            } else {
                kept.len() as u8
            },
            ..self
        }
    }
}

impl View for TypeBox {
    type V = TypeBoxModel;

    open(crate) spec fn view(&self) -> TypeBoxModel {
        TypeBoxModel {
            content: self.content@,
            cursor: self.cursor,
            len: self.len,
            loc_x: self.loc_x,
            loc_y: self.loc_y,
            active: self.active,
        }
    }
}

impl TypeBox {
    #[verifier::type_invariant]
    pub open(crate) spec fn inv(&self) -> bool {
        self@.wf() && 1 <= self.loc_x <= MAX_COLUMN && self.loc_y >= 1
    }

    /// An empty field of no width at the top left, not listening.
    pub fn new() -> (b: TypeBox)
        ensures
            b@ == (TypeBoxModel {
                content: Seq::empty(),
                cursor: 0,
                len: 0,
                loc_x: 1,
                loc_y: 1,
                active: false,
            }),
    {
        TypeBox { content: Vec::new(), cursor: 0, len: 0, loc_x: 1, loc_y: 1, active: false }
    }

    /// The field moved to column `loc_x` of row `loc_y`, both counted from
    /// one.
    pub fn at(self, loc_x: u16, loc_y: u16) -> (b: TypeBox)
        requires
            1 <= loc_x <= MAX_COLUMN,
            loc_y >= 1,
        ensures
            b@ == (TypeBoxModel { loc_x, loc_y, ..self@ }),
    {
        proof {
            use_type_invariant(&self);
        }
        TypeBox {
            content: self.content,
            cursor: self.cursor,
            len: self.len,
            loc_x,
            loc_y,
            active: self.active,
        }
    }

    /// The field made `len` characters wide. Content that no longer fits is
    /// cut off at the end, and the cursor stays within what is left.
    pub fn with_len(self, len: u8) -> (b: TypeBox)
        ensures
            b@ == (TypeBoxModel { len, ..self@ }).filled(self@.content),
    {
        proof {
            use_type_invariant(&self);
        }
        let mut content = self.content;
        let mut cursor = self.cursor;
        if content.len() > len as usize {
            content.truncate(len as usize);
            assert(content@ =~= self@.content.take(len as int));
            if cursor > len {
                cursor = len;
            }
        }
        TypeBox {
            content,
            cursor,
            len,
            loc_x: self.loc_x,
            loc_y: self.loc_y,
            active: self.active,
        }
    }

    /// What has been typed. It fits the field, and the cursor stands within
    /// or just behind it.
    pub fn content(&self) -> (text: &Vec<char>)
        ensures
            text@ == self@.content,
            self@.wf(),
    {
        proof {
            use_type_invariant(self);
        }
        &self.content
    }

    /// Where the cursor stands, counted in characters from the start.
    pub fn cursor(&self) -> (at: u8)
        ensures
            at == self@.cursor,
    {
        self.cursor
    }

    /// Whether the field listens.
    pub fn is_active(&self) -> (active: bool)
        ensures
            active == self@.active,
    {
        self.active
    }

    /// Replaces the content by as much of `text` as fits.
    pub fn fill(&mut self, text: &str)
        ensures
            final(self)@ == old(self)@.filled(text@),
    {
        proof {
            use_type_invariant(&*self);
        }
        let mut kept = chars_of(text);
        if kept.len() > self.len as usize {
            kept.truncate(self.len as usize);
            assert(kept@ =~= text@.take(self.len as int));
        }
        if self.cursor as usize > kept.len() {
            self.cursor = kept.len() as u8;
        }
        let at = self.cursor;
        self.cursor = 0;
        core::mem::swap(&mut kept, &mut self.content);
        self.cursor = at;
    }

    /// The content as a text.
    pub fn text(&self) -> (text: String)
        ensures
            text@ == self@.content,
    {
        text_of(&self.content)
    }

    /// Tells the field to listen or not, and writes what that takes.
    pub fn activate(&mut self, activate: bool, out: &mut Vec<Piece>)
        ensures
            final(self)@ == (TypeBoxModel { active: activate, ..old(self)@ }),
            pieces_of(final(out)@) == pieces_of(old(out)@) + old(self)@.activation(activate),
    {
        proof {
            use_type_invariant(&*self);
        }
        if self.active && !activate {
            let mut s = hide_cursor();
            s.append(restore_cursor().as_str());
            emit(out, Piece::Raw(s));
        }
        if !self.active && activate {
            emit(out, Piece::Raw(blinking_block()));
        }
        self.active = activate;
        assert(pieces_of(out@) =~= pieces_of(old(out)@) + old(self)@.activation(activate));
    }

    /// Writes what comes before the screen is drawn.
    pub fn before_render(&self, out: &mut Vec<Piece>)
        ensures
            pieces_of(final(out)@) == pieces_of(old(out)@) + self@.prelude(),
    {
        if self.active {
            emit(out, Piece::Raw(hide_cursor()));
        }
        assert(pieces_of(out@) =~= pieces_of(old(out)@) + self@.prelude());
    }

    /// Writes the field.
    pub fn draw(&self, out: &mut Vec<Piece>)
        ensures
            pieces_of(final(out)@) == pieces_of(old(out)@) + self@.drawn(),
    {
        proof {
            use_type_invariant(self);
        }
        if self.active {
            let mut s = fg_black();
            s.append(bg_white().as_str());
            emit(out, Piece::Raw(s));
        }
        let mut body = goto(self.loc_x, self.loc_y);
        body.append(text_of(&self.content).as_str());
        body.append(blanks(self.len as usize - self.content.len()).as_str());
        emit(out, Piece::Raw(body));
        if self.active {
            let mut s = fg_reset();
            s.append(bg_reset().as_str());
            emit(out, Piece::Raw(s));
        }
        assert(pieces_of(out@) =~= pieces_of(old(out)@) + self@.drawn());
    }

    /// Writes what comes after the screen is drawn.
    pub fn after_render(&self, out: &mut Vec<Piece>)
        ensures
            pieces_of(final(out)@) == pieces_of(old(out)@) + self@.finale(),
    {
        proof {
            use_type_invariant(self);
        }
        if self.active {
            let mut s = goto(self.loc_x + self.cursor as u16, self.loc_y);
            s.append(show_cursor().as_str());
            emit(out, Piece::Raw(s));
        }
        assert(pieces_of(out@) =~= pieces_of(old(out)@) + self@.finale());
    }

    /// Hands a command to the field and says whether it reacted.
    pub fn take_input(&mut self, input: &Input) -> (redraw: ShouldRedraw)
        ensures
            redraw == old(self)@.handles(*input),
            final(self)@ == old(self)@.after(*input),
            old(self)@.wf(),
            final(self)@.wf(),
    {
        proof {
            use_type_invariant(&*self);
        }
        if !self.active {
            return false;
        }
        match input {
            Input::Type(c) => {
                if *c == '\n' {
                    return false;
                }
                if self.cursor < self.len && self.content.len() < self.len as usize {
                    let at = self.cursor;
                    let mut text: Vec<char> = Vec::new();
                    self.cursor = 0;
                    core::mem::swap(&mut text, &mut self.content);
                    text.insert(at as usize, *c);
                    core::mem::swap(&mut text, &mut self.content);
                    self.cursor = at + 1;
                }
                true
            },
            Input::Left => {
                if self.cursor != 0 {
                    self.cursor -= 1;
                }
                true
            },
            Input::Right => {
                if (self.cursor as u16) + 1 < self.len as u16 && (self.cursor as usize)
                    < self.content.len() {
                    self.cursor += 1;
                }
                true
            },
            Input::BkSpace => {
                if self.cursor != 0 {
                    let at = self.cursor - 1;
                    let mut text: Vec<char> = Vec::new();
                    self.cursor = 0;
                    core::mem::swap(&mut text, &mut self.content);
                    text.remove(at as usize);
                    core::mem::swap(&mut text, &mut self.content);
                    self.cursor = at;
                }
                true
            },
            Input::Del => {
                if (self.cursor as usize) < self.content.len() {
                    let at = self.cursor;
                    let mut text: Vec<char> = Vec::new();
                    self.cursor = 0;
                    core::mem::swap(&mut text, &mut self.content);
                    text.remove(at as usize);
                    core::mem::swap(&mut text, &mut self.content);
                    self.cursor = at;
                }
                true
            },
            _ => false,
        }
    }
}

/// Whatever command a field is given, its cursor stays within or just
/// behind the content, and the content never outgrows the field.
pub proof fn commands_keep_the_field_well_formed(field: TypeBoxModel, input: Input)
    requires
        field.wf(),
    ensures
        field.after(input).wf(),
{
}

/// A field that does not listen is left as it is by every command.
pub proof fn silent_field_ignores_commands(field: TypeBoxModel, input: Input)
    requires
        !field.active,
    ensures
        !field.handles(input),
        field.after(input) == field,
{
}

/// A full field drops what is typed, and at the start of a field Backspace
/// does nothing.
pub proof fn field_drops_what_does_not_fit(field: TypeBoxModel, c: char)
    requires
        field.wf(),
        field.active,
    ensures
        field.content.len() == field.len ==> field.after(Input::Type(c)) == field,
        field.cursor == 0 ==> field.after(Input::BkSpace) == field,
{
}

} // verus!
