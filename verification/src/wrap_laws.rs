//! What holds of every wrapped text.

use vstd::prelude::*;
use crate::wrap::{
    first_count, first_word_len, grow, is_space, join, lemma_first_word_len_bounds,
    lemma_grow_bounds, pack, space_free, words, wrap_spec,
};

verus! {

/// Whether every member of `ws` is a word: not empty, and free of spaces.
pub open spec fn all_words(ws: Seq<Seq<char>>) -> bool {
    forall|i: int| 0 <= i < ws.len() ==> (#[trigger] ws[i]).len() > 0 && space_free(ws[i])
}

/// What `words` returns are words.
pub proof fn lemma_words_are_words(s: Seq<char>)
    ensures
        all_words(words(s)),
    decreases s.len(),
{
    if s.len() == 0 {
    } else if is_space(s[0]) {
        lemma_words_are_words(s.drop_first());
    } else {
        let n = first_word_len(s);
        lemma_first_word_len_bounds(s);
        lemma_words_are_words(s.skip(n as int));
        let head = s.take(n as int);
        let tail = words(s.skip(n as int));
        assert forall|i: int| 0 <= i < words(s).len() implies (#[trigger] words(s)[i]).len() > 0
            && space_free(words(s)[i]) by {
            if i == 0 {
                assert(words(s)[0] == head);
            } else {
                assert(words(s)[i] == tail[i - 1]);
            }
        }
    }
}

/// Joining two rows of words is joining each and putting a blank between.
pub proof fn lemma_join_concat(a: Seq<Seq<char>>, b: Seq<Seq<char>>)
    requires
        a.len() >= 1,
        b.len() >= 1,
    ensures
        join(a + b) == join(a) + seq![' '] + join(b),
    decreases b.len(),
{
    let ab = a + b;
    assert(ab.last() == b.last());
    if b.len() == 1 {
        assert(ab.drop_last() =~= a);
    } else {
        assert(ab.drop_last() =~= a + b.drop_last());
        lemma_join_concat(a, b.drop_last());
        assert(join(ab) =~= join(a) + seq![' '] + join(b));
    }
}

/// A row of words is no shorter than any of its beginnings.
pub proof fn lemma_join_take_len(ws: Seq<Seq<char>>, k: int)
    requires
        0 <= k <= ws.len(),
    ensures
        join(ws.take(k)).len() <= join(ws).len(),
    decreases ws.len(),
{
    if k == ws.len() {
        assert(ws.take(k) =~= ws);
    } else if ws.len() == 1 {
    } else {
        assert(ws.drop_last().take(k) =~= ws.take(k));
        lemma_join_take_len(ws.drop_last(), k);
    }
}

/// A run of characters that are no spaces, followed by a space or by nothing,
/// is the leading word of the whole.
pub proof fn lemma_first_word_len_prefix(a: Seq<char>, b: Seq<char>)
    requires
        space_free(a),
        b.len() == 0 || is_space(b[0]),
    ensures
        first_word_len(a + b) == a.len(),
    decreases a.len(),
{
    let s = a + b;
    if a.len() == 0 {
        assert(s =~= b);
    } else {
        assert(s[0] == a[0]);
        assert(s.drop_first() =~= a.drop_first() + b);
        assert forall|i: int| 0 <= i < a.drop_first().len() implies !is_space(
            #[trigger] a.drop_first()[i],
        ) by {
            assert(a.drop_first()[i] == a[i + 1]);
        }
        lemma_first_word_len_prefix(a.drop_first(), b);
    }
}

/// Splitting a row of words gives the words back.
pub proof fn lemma_words_join(ws: Seq<Seq<char>>)
    requires
        all_words(ws),
    ensures
        words(join(ws)) == ws,
    decreases ws.len(),
{
    if ws.len() == 0 {
        assert(words(join(ws)) =~= ws);
    } else {
        let first = ws[0];
        let rest = ws.drop_first();
        assert forall|i: int| 0 <= i < rest.len() implies (#[trigger] rest[i]).len() > 0
            && space_free(rest[i]) by {
            assert(rest[i] == ws[i + 1]);
        }
        lemma_words_join(rest);
        let tail: Seq<char> = if rest.len() == 0 {
            Seq::empty()
        } else {
            seq![' '] + join(rest)
        };
        let s = join(ws);
        if rest.len() == 0 {
            assert(s =~= first + tail);
        } else {
            assert(seq![first] + rest =~= ws);
            lemma_join_concat(seq![first], rest);
            assert(s =~= first + tail);
            assert(tail.drop_first() =~= join(rest));
        }
        lemma_first_word_len_prefix(first, tail);
        let n = first_word_len(s);
        assert(s.take(n as int) =~= first);
        assert(s.skip(n as int) =~= tail);
        assert(s[0] == first[0]);
        assert(words(tail) == rest);
        assert(words(s) =~= ws);
    }
}

/// Where `grow` went beyond its start, the words it took fit within the width.
pub proof fn lemma_grow_fits(ws: Seq<Seq<char>>, width: nat, k: nat)
    requires
        k <= ws.len(),
    ensures
        grow(ws, width, k) > k ==> join(ws.take(grow(ws, width, k) as int)).len() <= width,
        grow(ws, width, k) < ws.len() ==> join(ws.take(grow(ws, width, k) as int + 1)).len()
            > width,
    decreases ws.len() - k,
{
    if k < ws.len() && join(ws.take(k as int + 1)).len() <= width {
        lemma_grow_bounds(ws, width, k + 1);
        lemma_grow_fits(ws, width, k + 1);
    }
}

/// Words that fit on one line together are all taken by the first line.
pub proof fn lemma_grow_takes_all(ws: Seq<Seq<char>>, width: nat, k: nat)
    requires
        k <= ws.len(),
        join(ws).len() <= width,
    ensures
        grow(ws, width, k) == ws.len(),
    decreases ws.len() - k,
{
    if k < ws.len() {
        lemma_join_take_len(ws, k as int + 1);
        lemma_grow_takes_all(ws, width, k + 1);
    }
}

/// Words that fit on one line together are packed into that one line.
pub proof fn lemma_pack_single(ws: Seq<Seq<char>>, width: nat)
    requires
        ws.len() >= 1,
        join(ws).len() <= width,
    ensures
        pack(ws, width) == seq![join(ws)],
{
    lemma_grow_takes_all(ws, width, 1);
    let k = first_count(ws, width);
    assert(ws.take(k as int) =~= ws);
    assert(ws.skip(k as int).len() == 0);
    assert(pack(ws.skip(k as int), width) =~= Seq::<Seq<char>>::empty());
    assert(pack(ws, width) =~= seq![join(ws)]);
}

/// Packing keeps every word in its place: the lines, joined by single blanks,
/// are the words joined by single blanks.
pub proof fn lemma_join_pack(ws: Seq<Seq<char>>, width: nat)
    requires
        ws.len() >= 1,
    ensures
        pack(ws, width).len() >= 1,
        join(pack(ws, width)) == join(ws),
    decreases ws.len(),
{
    lemma_grow_bounds(ws, width, 1);
    let k = first_count(ws, width) as int;
    let head = ws.take(k);
    let tail = ws.skip(k);
    assert(head + tail =~= ws);
    if tail.len() == 0 {
        assert(head =~= ws);
        assert(pack(tail, width) =~= Seq::<Seq<char>>::empty());
        assert(pack(ws, width) =~= seq![join(ws)]);
    } else {
        lemma_join_pack(tail, width);
        lemma_join_concat(seq![join(head)], pack(tail, width));
        lemma_join_concat(head, tail);
    }
}

/// No line of a packing is longer than the width, but one that is a single word.
pub proof fn lemma_pack_bounded(ws: Seq<Seq<char>>, width: nat)
    requires
        all_words(ws),
    ensures
        forall|i: int|
            0 <= i < pack(ws, width).len() ==> (#[trigger] pack(ws, width)[i]).len() <= width
                || space_free(pack(ws, width)[i]),
    decreases ws.len(),
{
    if ws.len() > 0 {
        lemma_grow_bounds(ws, width, 1);
        lemma_grow_fits(ws, width, 1);
        let k = first_count(ws, width) as int;
        let tail = ws.skip(k);
        assert forall|i: int| 0 <= i < tail.len() implies (#[trigger] tail[i]).len() > 0
            && space_free(tail[i]) by {
            assert(tail[i] == ws[i + k]);
        }
        lemma_pack_bounded(tail, width);
        let lines = pack(ws, width);
        assert forall|i: int| 0 <= i < lines.len() implies (#[trigger] lines[i]).len() <= width
            || space_free(lines[i]) by {
            if i == 0 {
                assert(lines[0] == join(ws.take(k)));
                if k == 1 {
                    assert(ws.take(1) =~= seq![ws[0]]);
                }
            } else {
                assert(lines[i] == pack(tail, width)[i - 1]);
            }
        }
    }
}

/// No line of a wrapped text is longer than the width, except a line that is
/// one single word.
pub proof fn lemma_wrap_bounded(s: Seq<char>, width: nat)
    ensures
        forall|i: int|
            0 <= i < wrap_spec(s, width).len() ==> (#[trigger] wrap_spec(s, width)[i]).len()
                <= width || space_free(wrap_spec(s, width)[i]),
{
    if s.len() > width && words(s).len() > 0 {
        lemma_words_are_words(s);
        lemma_pack_bounded(words(s), width);
    }
}

/// Wrapping neither drops, adds nor reorders a word: the lines, joined by
/// single blanks, hold the words of the text.
pub proof fn lemma_wrap_keeps_words(s: Seq<char>, width: nat)
    ensures
        words(join(wrap_spec(s, width))) == words(s),
{
    if s.len() <= width {
    } else if words(s).len() == 0 {
        assert(join(seq![Seq::<char>::empty()]) =~= Seq::<char>::empty());
    } else {
        lemma_words_are_words(s);
        lemma_join_pack(words(s), width);
        lemma_words_join(words(s));
    }
}

/// Wrapping is idempotent: the lines of a wrapped text, joined by single
/// blanks and wrapped again at the same width, are the same lines.
pub proof fn lemma_wrap_idempotent(s: Seq<char>, width: nat)
    ensures
        wrap_spec(join(wrap_spec(s, width)), width) == wrap_spec(s, width),
{
    if s.len() <= width {
    } else if words(s).len() == 0 {
        assert(join(seq![Seq::<char>::empty()]) =~= Seq::<char>::empty());
    } else {
        let ws = words(s);
        lemma_words_are_words(s);
        lemma_join_pack(ws, width);
        lemma_words_join(ws);
        if join(ws).len() <= width {
            lemma_pack_single(ws, width);
        }
    }
}

} // verus!
