//! Greedy word wrap.

use vstd::prelude::*;
use vstd::string::*;
use crate::failure::Failure;
use crate::text::texts;
use crate::wrap_laws::{lemma_wrap_bounded, lemma_wrap_keeps_words};

verus! {

/// Whether `c` separates words: the characters Unicode lists as white space.
pub open spec fn is_space(c: char) -> bool {
    let n = c as u32;
    (0x09 <= n && n <= 0x0d) || n == 0x20 || n == 0x85 || n == 0xa0 || n == 0x1680 || (0x2000 <= n
        && n <= 0x200a) || n == 0x2028 || n == 0x2029 || n == 0x202f || n == 0x205f || n == 0x3000
}

/// Whether no character of `s` separates words.
pub open spec fn space_free(s: Seq<char>) -> bool {
    forall|i: int| 0 <= i < s.len() ==> !is_space(#[trigger] s[i])
}

/// The length of the run of characters at the start of `s` that are no spaces.
pub open spec fn first_word_len(s: Seq<char>) -> nat
    decreases s.len(),
{
    if s.len() == 0 || is_space(s[0]) {
        0
    } else {
        1 + first_word_len(s.drop_first())
    }
}

/// The words of `s`: its maximal runs of characters that are no spaces, in order.
pub open spec fn words(s: Seq<char>) -> Seq<Seq<char>>
    decreases s.len(),
    via words_decreases
{
    if s.len() == 0 {
        Seq::empty()
    } else if is_space(s[0]) {
        words(s.drop_first())
    } else {
        let n = first_word_len(s);
        seq![s.take(n as int)] + words(s.skip(n as int))
    }
}

#[via_fn]
proof fn words_decreases(s: Seq<char>) {
    if s.len() != 0 && !is_space(s[0]) {
        lemma_first_word_len_bounds(s);
    }
}

/// The leading run is within `s`, and not empty where `s` starts with a word.
pub proof fn lemma_first_word_len_bounds(s: Seq<char>)
    ensures
        first_word_len(s) <= s.len(),
        s.len() > 0 && !is_space(s[0]) ==> first_word_len(s) >= 1,
        forall|i: int| 0 <= i < first_word_len(s) ==> !is_space(#[trigger] s[i]),
        first_word_len(s) < s.len() ==> is_space(s[first_word_len(s) as int]),
    decreases s.len(),
{
    if s.len() != 0 && !is_space(s[0]) {
        let t = s.drop_first();
        lemma_first_word_len_bounds(t);
        assert forall|i: int| 0 <= i < first_word_len(s) implies !is_space(#[trigger] s[i]) by {
            if i > 0 {
                assert(s[i] == t[i - 1]);
            }
        }
        if first_word_len(s) < s.len() {
            assert(s[first_word_len(s) as int] == t[first_word_len(t) as int]);
        }
    }
}

/// The words `ws` put in a row, one blank between neighbours.
pub open spec fn join(ws: Seq<Seq<char>>) -> Seq<char>
    decreases ws.len(),
{
    if ws.len() == 0 {
        Seq::empty()
    } else if ws.len() == 1 {
        ws[0]
    } else {
        join(ws.drop_last()) + seq![' '] + ws.last()
    }
}

/// How many words the first line takes, given that the first `k` are on it:
/// one more as long as the line with it is no longer than `width`.
pub open spec fn grow(ws: Seq<Seq<char>>, width: nat, k: nat) -> nat
    decreases ws.len() - k,
{
    if k < ws.len() && join(ws.take(k as int + 1)).len() <= width {
        grow(ws, width, k + 1)
    } else {
        k
    }
}

/// How many words of `ws` the first line takes: the first one whatever its
/// length, then every next one that still fits.
pub open spec fn first_count(ws: Seq<Seq<char>>, width: nat) -> nat {
    grow(ws, width, 1)
}

/// `grow` stays between its start and the number of words.
pub proof fn lemma_grow_bounds(ws: Seq<Seq<char>>, width: nat, k: nat)
    requires
        k <= ws.len(),
    ensures
        k <= grow(ws, width, k) <= ws.len(),
    decreases ws.len() - k,
{
    if k < ws.len() && join(ws.take(k as int + 1)).len() <= width {
        lemma_grow_bounds(ws, width, k + 1);
    }
}

/// The lines that the words `ws` fill at `width`, each a run of words joined by single blanks.
pub open spec fn pack(ws: Seq<Seq<char>>, width: nat) -> Seq<Seq<char>>
    decreases ws.len(),
    via pack_decreases
{
    if ws.len() == 0 {
        Seq::empty()
    } else {
        let k = first_count(ws, width);
        seq![join(ws.take(k as int))] + pack(ws.skip(k as int), width)
    }
}

#[via_fn]
proof fn pack_decreases(ws: Seq<Seq<char>>, width: nat) {
    if ws.len() != 0 {
        lemma_grow_bounds(ws, width, 1);
    }
}

/// The lines of `s` wrapped at `width`. A text no longer than `width` is one
/// line, as it stands. A longer one is split into words, which fill the lines
/// greedily; if it holds no word at all it gives one empty line.
pub open spec fn wrap_spec(s: Seq<char>, width: nat) -> Seq<Seq<char>> {
    if s.len() <= width {
        seq![s]
    } else if words(s).len() == 0 {
        seq![Seq::empty()]
    } else {
        pack(words(s), width)
    }
}

/// Whether `c` separates words.
pub fn is_blank(c: char) -> (b: bool)
    ensures
        b == is_space(c),
{
    let n: u32 = c as u32;
    (0x09 <= n && n <= 0x0d) || n == 0x20 || n == 0x85 || n == 0xa0 || n == 0x1680 || (0x2000 <= n
        && n <= 0x200a) || n == 0x2028 || n == 0x2029 || n == 0x202f || n == 0x205f || n == 0x3000
}

/// The characters of `text`, one by one.
pub fn to_chars(text: &str) -> (cs: Vec<char>)
    ensures
        cs@ == text@,
{
    let n: usize = text.unicode_len();
    let mut cs: Vec<char> = Vec::new();
    let mut i: usize = 0;
    while i < n
        invariant
            i <= n,
            n == text@.len(),
            cs@ == text@.take(i as int),
        decreases n - i,
    {
        cs.push(text.get_char(i));
        i += 1;
        proof {
            assert(cs@ =~= text@.take(i as int));
        }
    }
    proof {
        assert(cs@ =~= text@);
    }
    cs
}

/// Splits `text` into its words.
pub fn split_words(text: &str) -> (ws: Vec<String>)
    ensures
        texts(ws@) == words(text@),
{
    let cs = to_chars(text);
    let n: usize = cs.len();
    let mut ws: Vec<String> = Vec::new();
    let mut i: usize = 0;
    proof {
        assert(text@.skip(0) =~= text@);
        assert(texts(ws@) + words(text@) =~= words(text@));
    }
    while i < n
        invariant
            i <= n,
            n == cs@.len(),
            cs@ == text@,
            words(text@) == texts(ws@) + words(text@.skip(i as int)),
        decreases n - i,
    {
        let ghost rest = text@.skip(i as int);
        if is_blank(cs[i]) {
            proof {
                assert(rest.drop_first() =~= text@.skip(i + 1));
            }
            i += 1;
        } else {
            let mut j: usize = i + 1;
            proof {
                assert(rest.drop_first() =~= text@.skip(j as int));
            }
            while j < n && !is_blank(cs[j as usize])
                invariant
                    i < j <= n,
                    n == cs@.len(),
                    cs@ == text@,
                    rest == text@.skip(i as int),
                    first_word_len(rest) == (j - i) + first_word_len(text@.skip(j as int)),
                decreases n - j,
            {
                proof {
                    assert(text@.skip(j as int).drop_first() =~= text@.skip(j + 1));
                }
                j += 1;
            }
            let word = text.substring_char(i, j);
            let owned = String::from_str(word);
            proof {
                assert(first_word_len(text@.skip(j as int)) == 0);
                assert(rest.take(j - i) =~= text@.subrange(i as int, j as int));
                assert(rest.skip(j - i) =~= text@.skip(j as int));
                assert(texts(ws@.push(owned)) =~= texts(ws@).push(owned@));
                assert(texts(ws@).push(owned@) + words(text@.skip(j as int)) =~= texts(ws@) + (
                seq![owned@] + words(text@.skip(j as int))));
            }
            ws.push(owned);
            i = j;
        }
    }
    proof {
        assert(texts(ws@) + words(text@.skip(i as int)) =~= texts(ws@));
    }
    ws
}

/// Fills lines with the words `ws`, in order: each line takes its first word
/// whatever its length, then every next word that still fits within `width`.
pub fn fill_lines(ws: &Vec<String>, width: usize) -> (lines: Vec<String>)
    ensures
        texts(lines@) == pack(texts(ws@), width as nat),
{
    let n: usize = ws.len();
    let ghost all = texts(ws@);
    let mut lines: Vec<String> = Vec::new();
    let mut i: usize = 0;
    proof {
        reveal_strlit(" ");
        assert(all.skip(0) =~= all);
        assert(texts(lines@) + pack(all, width as nat) =~= pack(all, width as nat));
    }
    while i < n
        invariant
            i <= n,
            n == ws@.len(),
            all == texts(ws@),
            " "@ == seq![' '],
            pack(all, width as nat) == texts(lines@) + pack(all.skip(i as int), width as nat),
        decreases n - i,
    {
        let ghost cur = all.skip(i as int);
        let mut line: String = ws[i].clone();
        let mut used: usize = ws[i].as_str().unicode_len();
        let mut k: usize = 1;
        proof {
            assert(cur.take(1) =~= seq![ws@[i as int]@]);
        }
        while i + k < n
            invariant
                i < n,
                1 <= k <= n - i,
                n == ws@.len(),
                all == texts(ws@),
                cur == all.skip(i as int),
                " "@ == seq![' '],
                line@ == join(cur.take(k as int)),
                used == line@.len(),
                grow(cur, width as nat, k as nat) == first_count(cur, width as nat),
            ensures
                first_count(cur, width as nat) == k,
            decreases n - i - k,
        {
            let next = ws[i + k].as_str();
            let len: usize = next.unicode_len();
            proof {
                let longer = cur.take(k as int + 1);
                assert(longer.drop_last() =~= cur.take(k as int));
                assert(longer.last() == next@);
                assert(join(longer) == line@ + seq![' '] + next@);
            }
            if len < width && used <= width - 1 - len {
                line.append(" ");
                line.append(next);
                used = used + 1 + len;
                k += 1;
            } else {
                break ;
            }
        }
        proof {
            assert(cur.skip(k as int) =~= all.skip(i + k));
            assert(texts(lines@.push(line)) =~= texts(lines@).push(line@));
            assert(texts(lines@).push(line@) + pack(all.skip(i + k), width as nat) =~= texts(lines@)
                + (seq![line@] + pack(all.skip(i + k), width as nat)));
        }
        lines.push(line);
        i = i + k;
    }
    proof {
        assert(texts(lines@) + pack(all.skip(i as int), width as nat) =~= texts(lines@));
    }
    lines
}

/// Wraps `text` at `width` characters without ever splitting a word.
///
/// A width of zero is refused. A text no longer than `width` comes back as one
/// line, unchanged; so an empty text gives one empty line. A longer text is
/// split at its white space and the words fill the lines greedily, a word
/// longer than `width` standing alone on its line. So no line is longer
/// than `width` unless it is one single word, and the lines hold the words
/// of the text, all of them and in their order.
pub fn wrap(text: &str, width: usize) -> (r: Result<Vec<String>, Failure>)
    ensures
        match r {
            Ok(lines) => width > 0 && texts(lines@) == wrap_spec(text@, width as nat),
            Err(e) => width == 0 && e == Failure::InvalidConfig,
        },
        r is Ok ==> forall|i: int|
            0 <= i < r->Ok_0@.len() ==> (#[trigger] r->Ok_0@[i])@.len() <= width || space_free(
                r->Ok_0@[i]@,
            ),
        r is Ok ==> words(join(texts(r->Ok_0@))) == words(text@),
{
    if width == 0 {
        return Err(Failure::InvalidConfig);
    }
    let n: usize = text.unicode_len();
    let lines: Vec<String> = if n <= width {
        vec![String::from_str(text)]
    } else {
        let ws = split_words(text);
        if ws.len() == 0 {
            vec![String::new()]
        } else {
            fill_lines(&ws, width)
        }
    };
    proof {
        assert(texts(lines@) =~= wrap_spec(text@, width as nat));
        lemma_wrap_bounded(text@, width as nat);
        lemma_wrap_keeps_words(text@, width as nat);
        assert forall|i: int| 0 <= i < lines@.len() implies (#[trigger] lines@[i])@.len() <= width
            || space_free(lines@[i]@) by {
            assert(lines@[i]@ == texts(lines@)[i]);
        }
    }
    Ok(lines)
}

} // verus!
