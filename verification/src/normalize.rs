//! Output normalization: program output and reference output are split
//! into lines, each line loses its trailing whitespace, and trailing
//! blank lines are dropped; two outputs are judged equal when the
//! normalized line sequences are equal.

use vstd::prelude::*;

use crate::text::{
    is_blank, is_blank_line, string_views, text_lines_rec, trim_end_chars, trim_end_spec,
    views_of, chars_of, to_strings,
};

verus! {

/// One step short of [`raw_trimmed_lines`]: the lines of `s` once the scan
/// stands at `i` with the pending line `cur` and the finished lines `acc`.
/// Each finished line is end-trimmed; a final line is kept only when it
/// has at least one character before trimming.
pub open spec fn norm_rec(s: Seq<char>, i: int, cur: Seq<char>, acc: Seq<Seq<char>>) -> Seq<
    Seq<char>,
>
    decreases s.len() - i,
{
    if i < 0 || i >= s.len() {
        if cur.len() > 0 {
            acc.push(trim_end_spec(cur))
        } else {
            acc
        }
    } else if s[i] == '\n' {
        norm_rec(s, i + 1, Seq::empty(), acc.push(trim_end_spec(cur)))
    } else {
        norm_rec(s, i + 1, cur.push(s[i]), acc)
    }
}

/// The lines of `s`, split at newlines, each end-trimmed.
pub open spec fn raw_trimmed_lines(s: Seq<char>) -> Seq<Seq<char>> {
    norm_rec(s, 0, Seq::empty(), Seq::empty())
}

/// `ls` without its trailing blank lines.
pub open spec fn drop_trailing_blanks(ls: Seq<Seq<char>>) -> Seq<Seq<char>>
    decreases ls.len(),
{
    if ls.len() == 0 {
        ls
    } else if is_blank(ls.last()) {
        drop_trailing_blanks(ls.drop_last())
    } else {
        ls
    }
}

/// The normalized lines of `s`: split at newlines, end-trimmed, trailing
/// blank lines dropped.
pub open spec fn normalized_lines(s: Seq<char>) -> Seq<Seq<char>> {
    drop_trailing_blanks(raw_trimmed_lines(s))
}

/// Splits `to_split` into its normalized lines, as [`normalized_lines`]
/// describes.
pub fn split_trim_end(to_split: &String) -> (r: Vec<String>)
    ensures
        string_views(r@) == normalized_lines(to_split@),
{
    let v = chars_of(to_split.as_str());
    let ghost s = to_split@;
    let mut acc: Vec<Vec<char>> = Vec::new();
    let mut cur: Vec<char> = Vec::new();
    let mut i: usize = 0;
    proof {
        assert(views_of(acc@) =~= Seq::<Seq<char>>::empty());
    }
    while i < v.len()
        invariant
            i <= v@.len(),
            v@ == s,
            norm_rec(s, i as int, cur@, views_of(acc@)) == raw_trimmed_lines(s),
        decreases v@.len() - i,
    {
        let ghost i0 = i as int;
        let ghost cur0 = cur@;
        let ghost acc0 = views_of(acc@);
        let c = v[i];
        if c == '\n' {
            let trimmed = trim_end_chars(&cur);
            let ghost t0 = trimmed@;
            acc.push(trimmed);
            cur = Vec::new();
            proof {
                assert(views_of(acc@) =~= acc0.push(t0));
                assert(cur@ =~= Seq::<char>::empty());
                assert(norm_rec(s, i0, cur0, acc0) == norm_rec(s, i0 + 1, cur@, views_of(acc@)));
            }
        } else {
            cur.push(c);
            proof {
                assert(cur@ == cur0.push(s[i0]));
                assert(norm_rec(s, i0, cur0, acc0) == norm_rec(s, i0 + 1, cur@, views_of(acc@)));
            }
        }
        i = i + 1;
    }
    if cur.len() > 0 {
        let trimmed = trim_end_chars(&cur);
        let ghost acc0 = views_of(acc@);
        let ghost t0 = trimmed@;
        acc.push(trimmed);
        proof {
            assert(views_of(acc@) =~= acc0.push(t0));
        }
    }
    proof {
        assert(views_of(acc@) == raw_trimmed_lines(s));
    }
    let mut done = false;
    while acc.len() > 0 && !done
        invariant
            drop_trailing_blanks(views_of(acc@)) == normalized_lines(s),
            done ==> acc@.len() > 0 && !is_blank(views_of(acc@).last()),
        decreases acc@.len() + (if done { 0int } else { 1int }),
    {
        let last_blank = is_blank_line(&acc[acc.len() - 1]);
        if last_blank {
            let ghost a0 = views_of(acc@);
            proof {
                assert(a0.last() == acc@[acc@.len() - 1]@);
                assert(is_blank(a0.last()));
                assert(drop_trailing_blanks(a0) == drop_trailing_blanks(a0.drop_last()));
            }
            acc.pop();
            proof {
                assert(views_of(acc@) =~= a0.drop_last());
            }
        } else {
            done = true;
        }
    }
    proof {
        if acc@.len() == 0 {
            assert(views_of(acc@) =~= Seq::<Seq<char>>::empty());
            assert(drop_trailing_blanks(views_of(acc@)) == views_of(acc@));
        } else {
            assert(!is_blank(views_of(acc@).last()));
            assert(drop_trailing_blanks(views_of(acc@)) == views_of(acc@));
        }
    }
    to_strings(acc)
}

} // verus!
