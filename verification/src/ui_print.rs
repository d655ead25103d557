//! Text on its way to the terminal: characters wider than one column are
//! padded with blanks, so that what follows them stands where it should.

use vstd::prelude::*;
use crate::screen::text_of;

verus! {

/// A character and the blanks behind it: one fewer than the columns it is
/// wide, none where it is no wider than one.
pub open spec fn padded_char(c: char, width: usize) -> Seq<char> {
    if width > 1 {
        seq![c] + Seq::new((width - 1) as nat, |i: int| ' ')
    } else {
        seq![c]
    }
}

/// The text with each character padded to its width.
pub open spec fn padded(text: Seq<char>, widths: Seq<usize>) -> Seq<char>
    decreases text.len(),
{
    if text.len() == 0 {
        Seq::empty()
    } else {
        padded(text.drop_last(), widths.drop_last()) + padded_char(text.last(), widths.last())
    }
}

/// Pads each character of `s` to the width given for it.
pub fn proccess(s: &str, widths: &Vec<usize>) -> (out: String)
    requires
        widths@.len() == s@.len(),
    ensures
        out@ == padded(s@, widths@),
{
    let mut chars: Vec<char> = Vec::new();
    let mut n: usize = 0;
    for c in it: s.chars()
        invariant
            it.seq() == s@,
            n == it.index(),
            widths@.len() == s@.len(),
            chars@ == padded(s@.take(it.index() as int), widths@.take(it.index() as int)),
    {
        let ghost at = it.index() as int;
        let ghost before = chars@;
        assert(n < widths.len());
        let width = widths[n];
        n += 1;
        chars.push(c);
        if width > 1 {
            let mut k: usize = 0;
            while k < width - 1
                invariant
                    width > 1,
                    k <= width - 1,
                    chars@ == before + seq![c] + Seq::new(k as nat, |i: int| ' '),
                decreases width - 1 - k,
            {
                chars.push(' ');
                assert(chars@ =~= before + seq![c] + Seq::new((k + 1) as nat, |i: int| ' '));
                k += 1;
            }
        }
        assert(chars@ =~= before + padded_char(c, width));
        assert(s@.take(at + 1).drop_last() =~= s@.take(at));
        assert(widths@.take(at + 1).drop_last() =~= widths@.take(at));
    }
    assert(s@.take(s@.len() as int) =~= s@);
    assert(widths@.take(s@.len() as int) =~= widths@);
    text_of(&chars)
}

} // verus!
