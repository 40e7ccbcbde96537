//! The shell's name and version, from what the system reports.

use vstd::prelude::*;
use vstd::string::*;
use vstd::utf8::{decode_utf8, valid_utf8};
use crate::failure::Failure;
use crate::wrap::to_chars;

verus! {

/// What `str::to_uppercase` returns for `s`.
pub uninterp spec fn uppercase(s: Seq<char>) -> Seq<char>;

/// Calls `str::to_uppercase`: the text with every letter as its capital, as
/// Unicode defines it. The contract only gives the result its name.
#[verifier::external_body]
fn to_upper(s: &str) -> (r: String)
    ensures
        r@ == uppercase(s@),
{
    s.to_uppercase()
}

/// Calls `String::from_utf8`: the text that the bytes encode, or nothing
/// where they are no UTF-8.
#[verifier::external_body]
fn decode(bytes: Vec<u8>) -> (r: Option<String>)
    ensures
        match r {
            Some(s) => valid_utf8(bytes@) && s@ == decode_utf8(bytes@),
            None => !valid_utf8(bytes@),
        },
{
    String::from_utf8(bytes).ok()
}

/// What follows the last slash of `path`; all of it where it has none.
pub open spec fn last_segment(path: Seq<char>) -> Seq<char>
    decreases path.len(),
{
    if path.len() == 0 || path.last() == '/' {
        Seq::empty()
    } else {
        last_segment(path.drop_last()).push(path.last())
    }
}

/// What precedes the first line feed of `s`; all of it where it has none.
pub open spec fn first_line(s: Seq<char>) -> Seq<char>
    decreases s.len(),
{
    if s.len() == 0 || s[0] == '\n' {
        Seq::empty()
    } else {
        seq![s[0]] + first_line(s.drop_first())
    }
}

/// The name of the shell at `path`: the last part of the path, in capitals.
pub fn shell_name(path: &str) -> (name: String)
    ensures
        name@ == uppercase(last_segment(path@)),
{
    let cs = to_chars(path);
    let n: usize = cs.len();
    let mut j: usize = n;
    proof {
        assert(path@.take(n as int) =~= path@);
        assert(path@.subrange(n as int, n as int) =~= Seq::<char>::empty());
        assert(last_segment(path@) =~= last_segment(path@) + Seq::<char>::empty());
    }
    while j > 0 && cs[j - 1] != '/'
        invariant
            j <= n,
            n == cs@.len(),
            cs@ == path@,
            last_segment(path@) == last_segment(path@.take(j as int)) + path@.subrange(
                j as int,
                n as int,
            ),
        decreases j,
    {
        proof {
            let head = path@.take(j as int);
            assert(head.drop_last() =~= path@.take(j - 1));
            assert(head.last() == path@[j - 1]);
            assert(last_segment(head.drop_last()).push(head.last()) + path@.subrange(
                j as int,
                n as int,
            ) =~= last_segment(head.drop_last()) + path@.subrange(j - 1, n as int));
        }
        j -= 1;
    }
    proof {
        let head = path@.take(j as int);
        if j > 0 {
            assert(head.last() == path@[j - 1]);
        }
        assert(last_segment(head) =~= Seq::<char>::empty());
        assert(last_segment(path@) =~= path@.subrange(j as int, n as int));
    }
    to_upper(path.substring_char(j, n))
}

/// The version that a shell reports about itself: the first line of what it
/// wrote. Bytes that are no UTF-8 give no version.
pub fn extract_version_from_output(stdout: Vec<u8>) -> (r: Result<String, Failure>)
    ensures
        match r {
            Ok(line) => valid_utf8(stdout@) && line@ == first_line(decode_utf8(stdout@)),
            Err(e) => !valid_utf8(stdout@) && e == Failure::DetailUnavailable,
        },
{
    let ghost bytes = stdout@;
    let text = match decode(stdout) {
        Some(text) => text,
        None => {
            return Err(Failure::DetailUnavailable);
        },
    };
    let cs = to_chars(text.as_str());
    let n: usize = cs.len();
    let mut j: usize = 0;
    proof {
        assert(text@.skip(0) =~= text@);
        assert(first_line(text@) =~= text@.take(0) + first_line(text@.skip(0)));
    }
    while j < n && cs[j] != '\n'
        invariant
            j <= n,
            n == cs@.len(),
            cs@ == text@,
            first_line(text@) == text@.take(j as int) + first_line(text@.skip(j as int)),
        decreases n - j,
    {
        proof {
            let tail = text@.skip(j as int);
            assert(tail.drop_first() =~= text@.skip(j + 1));
            assert(text@.take(j as int) + (seq![tail[0]] + first_line(tail.drop_first()))
                =~= text@.take(j + 1) + first_line(tail.drop_first()));
        }
        j += 1;
    }
    proof {
        let tail = text@.skip(j as int);
        assert(first_line(tail) =~= Seq::<char>::empty());
        assert(first_line(text@) =~= text@.subrange(0, j as int));
    }
    Ok(String::from_str(text.as_str().substring_char(0, j)))
}

} // verus!
