//! The two palettes of colour swatches.

use vstd::prelude::*;
use vstd::string::*;
use crate::esc_seq::{push_sgr, reset_seq, sgr};
use crate::text::{concat, push_repeated, repeated, texts};

verus! {

/// A palette of nine background colours.
#[derive(Clone, Copy, Debug, PartialEq, Eq, Structural)]
pub enum BlockType {
    /// The bright backgrounds.
    Light,
    /// The plain backgrounds.
    Normal,
}

impl BlockType {
    /// The rendition parameter of the palette's first colour.
    pub open spec fn base(self) -> nat {
        match self {
            BlockType::Light => 100,
            BlockType::Normal => 40,
        }
    }

    /// The rendition parameter of the palette's first colour.
    pub fn base_index(&self) -> (n: u128)
        ensures
            n == self.base(),
    {
        match self {
            BlockType::Light => 100,
            BlockType::Normal => 40,
        }
    }
}

/// Swatch `i` of a palette: its background colour, `padding` blanks, the reset.
pub open spec fn cell(variant: BlockType, padding: nat, i: nat) -> Seq<char> {
    sgr(variant.base() + i) + repeated(seq![' '], padding) + reset_seq()
}

/// The nine swatches of a palette.
pub open spec fn cells(variant: BlockType, padding: nat) -> Seq<Seq<char>> {
    Seq::new(9, |i: int| cell(variant, padding, i as nat))
}

/// The line that shows a palette: its nine swatches in a row.
pub open spec fn block_line(variant: BlockType, padding: nat) -> Seq<char> {
    concat(cells(variant, padding))
}

/// The nine swatches of a palette, each `padding` blanks wide.
pub fn generate(variant: BlockType, padding: u8) -> (row: Vec<String>)
    ensures
        row@.len() == 9,
        texts(row@) == cells(variant, padding as nat),
{
    let base: u128 = variant.base_index();
    let mut row: Vec<String> = Vec::new();
    let mut i: u128 = 0;
    proof {
        reveal_strlit(" ");
        assert(" "@ =~= seq![' ']);
    }
    while i < 9
        invariant
            i <= 9,
            base == variant.base(),
            " "@ == seq![' '],
            row@.len() == i,
            forall|j: int| 0 <= j < i ==> (#[trigger] row@[j])@ == cell(variant, padding as nat, j as nat),
        decreases 9 - i,
    {
        let mut one = String::new();
        push_sgr(&mut one, base + i);
        push_repeated(&mut one, " ", padding as usize);
        push_sgr(&mut one, 0);
        proof {
            crate::esc_seq::lemma_reset_is_sgr_zero();
            assert(one@ =~= cell(variant, padding as nat, i as nat));
        }
        row.push(one);
        i += 1;
    }
    proof {
        assert(texts(row@) =~= cells(variant, padding as nat));
    }
    row
}

/// The members of `parts` written in a row.
pub fn concat_all(parts: &Vec<String>) -> (out: String)
    ensures
        out@ == concat(texts(parts@)),
{
    let mut out = String::new();
    let mut i: usize = 0;
    let ghost all = texts(parts@);
    proof {
        assert(all.take(0) =~= Seq::<Seq<char>>::empty());
        assert(out@ =~= concat(all.take(0)));
    }
    while i < parts.len()
        invariant
            i <= parts@.len(),
            all == texts(parts@),
            out@ == concat(all.take(i as int)),
        decreases parts@.len() - i,
    {
        out.append(parts[i].as_str());
        proof {
            assert(all.take(i + 1).drop_last() =~= all.take(i as int));
            assert(all.take(i + 1).last() == parts@[i as int]@);
        }
        i += 1;
    }
    proof {
        assert(all.take(i as int) =~= all);
    }
    out
}

/// The line that shows a palette: its nine swatches in a row.
pub fn assemble_blocks(variant: BlockType, padding: u8) -> (line: String)
    ensures
        line@ == block_line(variant, padding as nat),
{
    let row = generate(variant, padding);
    concat_all(&row)
}

} // verus!
