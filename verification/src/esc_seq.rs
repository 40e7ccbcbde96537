//! Colour tokens and the escape sequences they stand for.

use vstd::prelude::*;
use vstd::string::*;
use crate::decimal::{decimal, push_decimal};

verus! {

/// The escape character that opens every control sequence.
pub open spec fn esc() -> char {
    '\u{1b}'
}

/// The "select graphic rendition" sequence with parameter `n`.
pub open spec fn sgr(n: nat) -> Seq<char> {
    seq![esc(), '['] + decimal(n) + seq!['m']
}

/// The sequence that ends every coloured segment.
pub open spec fn reset_seq() -> Seq<char> {
    seq![esc(), '[', '0', 'm']
}

/// A colour, by name or as a raw escape sequence, or the end of all colour.
#[derive(Clone, Debug)]
pub enum EscSeq {
    Black,
    Red,
    Green,
    Yellow,
    Blue,
    Magenta,
    Cyan,
    White,
    LightBlack,
    LightRed,
    LightGreen,
    LightYellow,
    LightBlue,
    LightMagenta,
    LightCyan,
    LightWhite,
    /// An escape sequence written out by the user, taken as it stands.
    Raw(String),
    /// The reset: ends whatever colour is open.
    End,
}

impl EscSeq {
    /// The parameter of a named colour's sequence; zero for `End` and `Raw`.
    pub open spec fn code(self) -> nat {
        match self {
            EscSeq::Black => 30,
            EscSeq::Red => 31,
            EscSeq::Green => 32,
            EscSeq::Yellow => 33,
            EscSeq::Blue => 34,
            EscSeq::Magenta => 35,
            EscSeq::Cyan => 36,
            EscSeq::White => 37,
            EscSeq::LightBlack => 90,
            EscSeq::LightRed => 91,
            EscSeq::LightGreen => 92,
            EscSeq::LightYellow => 93,
            EscSeq::LightBlue => 94,
            EscSeq::LightMagenta => 95,
            EscSeq::LightCyan => 96,
            EscSeq::LightWhite => 97,
            EscSeq::Raw(_) => 0,
            EscSeq::End => 0,
        }
    }

    /// The escape sequence that the token writes to the terminal.
    pub open spec fn escape(self) -> Seq<char> {
        match self {
            EscSeq::Raw(s) => s@,
            _ => sgr(self.code()),
        }
    }

    /// The parameter of a named colour's sequence; zero for `End` and `Raw`.
    pub fn sgr_code(&self) -> (n: u128)
        ensures
            n == self.code(),
    {
        match self {
            EscSeq::Black => 30,
            EscSeq::Red => 31,
            EscSeq::Green => 32,
            EscSeq::Yellow => 33,
            EscSeq::Blue => 34,
            EscSeq::Magenta => 35,
            EscSeq::Cyan => 36,
            EscSeq::White => 37,
            EscSeq::LightBlack => 90,
            EscSeq::LightRed => 91,
            EscSeq::LightGreen => 92,
            EscSeq::LightYellow => 93,
            EscSeq::LightBlue => 94,
            EscSeq::LightMagenta => 95,
            EscSeq::LightCyan => 96,
            EscSeq::LightWhite => 97,
            EscSeq::Raw(_) => 0,
            EscSeq::End => 0,
        }
    }

    /// The escape sequence that the token writes to the terminal.
    pub fn to_escape(&self) -> (s: String)
        ensures
            s@ == self.escape(),
    {
        match self {
            EscSeq::Raw(raw) => raw.clone(),
            _ => sgr_text(self.sgr_code()),
        }
    }
}

/// The reset is the rendition sequence with parameter zero.
pub proof fn lemma_reset_is_sgr_zero()
    ensures
        reset_seq() == sgr(0),
        EscSeq::End.escape() == reset_seq(),
{
    assert(decimal(0) =~= seq!['0']);
    assert(reset_seq() =~= sgr(0));
}

/// Appends the rendition sequence with parameter `n` to `out`.
pub fn push_sgr(out: &mut String, n: u128)
    ensures
        final(out)@ == old(out)@ + sgr(n as nat),
{
    proof {
        reveal_strlit("\x1b[");
        reveal_strlit("m");
    }
    out.append("\x1b[");
    push_decimal(out, n);
    out.append("m");
    proof {
        assert("\x1b["@ =~= seq![esc(), '[']);
        assert("m"@ =~= seq!['m']);
        assert(final(out)@ =~= old(out)@ + sgr(n as nat));
    }
}

/// The rendition sequence with parameter `n`.
pub fn sgr_text(n: u128) -> (s: String)
    ensures
        s@ == sgr(n as nat),
{
    let mut s = String::new();
    push_sgr(&mut s, n);
    proof {
        assert(s@ =~= sgr(n as nat));
    }
    s
}

/// `text` in the colour of `token`: the token's sequence, the text, the reset.
pub open spec fn colorized(token: EscSeq, text: Seq<char>) -> Seq<char> {
    token.escape() + text + reset_seq()
}

/// Appends `text` in the colour of `token` to `out`.
pub fn push_colorized(out: &mut String, token: &EscSeq, text: &str)
    ensures
        final(out)@ == old(out)@ + colorized(*token, text@),
{
    match token {
        EscSeq::Raw(raw) => {
            out.append(raw.as_str());
        },
        _ => {
            push_sgr(out, token.sgr_code());
        },
    }
    out.append(text);
    push_sgr(out, 0);
    proof {
        lemma_reset_is_sgr_zero();
        assert(final(out)@ =~= old(out)@ + colorized(*token, text@));
    }
}

/// `text` in the colour of `token`: the token's sequence, then the text,
/// then the reset. Every call opens one colour and closes it.
pub fn colorize(token: &EscSeq, text: &str) -> (out: String)
    ensures
        out@ == colorized(*token, text@),
        out@.len() >= 4,
        reset_at(out@, out@.len() - 4),
        !nested(*token, text@) ==> forall|i: int| reset_at(out@, i) <==> i == out@.len() - 4,
{
    let mut out = String::new();
    push_colorized(&mut out, token, text);
    proof {
        assert(out@ =~= colorized(*token, text@));
        lemma_colorize_ends_with_reset(*token, text@);
        if !nested(*token, text@) {
            lemma_colorize_closes(*token, text@);
        }
    }
    out
}

/// Whether the reset sequence stands in `s` at position `i`.
pub open spec fn reset_at(s: Seq<char>, i: int) -> bool {
    0 <= i && i + 4 <= s.len() && s.subrange(i, i + 4) == reset_seq()
}

/// Whether `s` holds a reset sequence anywhere.
pub open spec fn has_reset(s: Seq<char>) -> bool {
    exists|i: int| reset_at(s, i)
}

/// Whether colouring `text` with `token` would close the colour before the
/// end: the token's sequence followed by the text already holds a reset, as
/// it does where the text was coloured before.
pub open spec fn nested(token: EscSeq, text: Seq<char>) -> bool {
    has_reset(token.escape() + text)
}

/// A coloured text ends with the reset, whatever the text.
pub proof fn lemma_colorize_ends_with_reset(token: EscSeq, text: Seq<char>)
    ensures
        colorized(token, text).len() >= 4,
        reset_at(colorized(token, text), colorized(token, text).len() - 4),
{
    let out = colorized(token, text);
    assert(out.subrange(out.len() - 4, out.len() as int) =~= reset_seq());
}

/// A coloured text holds exactly one reset, at its end, unless the
/// colouring is nested.
pub proof fn lemma_colorize_closes(token: EscSeq, text: Seq<char>)
    requires
        !nested(token, text),
    ensures
        colorized(token, text).len() >= 4,
        forall|i: int|
            reset_at(colorized(token, text), i) <==> i == colorized(token, text).len() - 4,
{
    let body = token.escape() + text;
    let out = colorized(token, text);
    let last = out.len() - 4;
    assert(out =~= body + reset_seq());
    assert(out.subrange(last, last + 4) =~= reset_seq());
    assert forall|i: int| reset_at(out, i) implies i == last by {
        let found = out.subrange(i, i + 4);
        if i + 4 <= body.len() {
            assert(body.subrange(i, i + 4) =~= found);
            assert(reset_at(body, i));
        } else if i < last {
            let k = last - i;
            assert(found[k] == out[last]);
            assert(out[last] == reset_seq()[0]);
            assert(found[k] == reset_seq()[k]);
        }
    }
}

/// Whether `s` holds a reset sequence anywhere.
pub fn contains_reset(s: &str) -> (b: bool)
    ensures
        b == has_reset(s@),
{
    let n: usize = s.unicode_len();
    if n < 4 {
        return false;
    }
    let mut i: usize = 0;
    while i <= n - 4
        invariant
            n == s@.len(),
            n >= 4,
            forall|j: int| 0 <= j < i ==> !reset_at(s@, j),
        decreases n - i,
    {
        if s.get_char(i) == '\u{1b}' && s.get_char(i + 1) == '[' && s.get_char(i + 2) == '0'
            && s.get_char(i + 3) == 'm' {
            proof {
                assert(s@.subrange(i as int, i + 4) =~= reset_seq());
                assert(reset_at(s@, i as int));
            }
            return true;
        }
        proof {
            assert(s@.subrange(i as int, i + 4)[0] == s@[i as int]);
            assert(s@.subrange(i as int, i + 4)[1] == s@[i + 1]);
            assert(s@.subrange(i as int, i + 4)[2] == s@[i + 2]);
            assert(s@.subrange(i as int, i + 4)[3] == s@[i + 3]);
        }
        i += 1;
    }
    false
}

/// Whether colouring `text` with `token` would be nested: whether the
/// token's sequence followed by the text already holds a reset.
pub fn is_nested(token: &EscSeq, text: &str) -> (b: bool)
    ensures
        b == nested(*token, text@),
{
    let mut body = token.to_escape();
    body.append(text);
    contains_reset(body.as_str())
}

} // verus!
