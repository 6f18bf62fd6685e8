//! Character-level text utilities: whitespace tests, end trimming,
//! and conversion between `&str` and `Vec<char>`.

use vstd::prelude::*;

verus! {

/// ASCII whitespace, the character class this library trims and splits on.
pub open spec fn is_ws(c: char) -> bool {
    c == ' ' || c == '\t' || c == '\n' || c == '\r' || c == '\u{b}' || c == '\u{c}'
}

/// Executable mirror of [`is_ws`].
pub fn is_ws_char(c: char) -> (r: bool)
    ensures
        r == is_ws(c),
{
    c == ' ' || c == '\t' || c == '\n' || c == '\r' || c == '\u{b}' || c == '\u{c}'
}

/// A line with every trailing whitespace character removed.
pub open spec fn trim_end_spec(s: Seq<char>) -> Seq<char>
    decreases s.len(),
{
    if s.len() == 0 {
        s
    } else if is_ws(s.last()) {
        trim_end_spec(s.drop_last())
    } else {
        s
    }
}

/// The characters of `s`, as a vector.
pub fn chars_of(s: &str) -> (v: Vec<char>)
    ensures
        v@ == s@,
{
    let n = s.unicode_len();
    let mut v: Vec<char> = Vec::new();
    let mut i: usize = 0;
    while i < n
        invariant
            i <= n,
            n == s@.len(),
            v@ == s@.take(i as int),
        decreases n - i,
    {
        v.push(s.get_char(i));
        proof {
            assert(v@ =~= s@.take(i + 1));
        }
        i = i + 1;
    }
    proof {
        assert(v@ =~= s@);
    }
    v
}

/// The views of a sequence of character vectors.
pub open spec fn views_of(vs: Seq<Vec<char>>) -> Seq<Seq<char>> {
    vs.map_values(|v: Vec<char>| v@)
}

/// The views of a sequence of strings.
pub open spec fn string_views(ss: Seq<String>) -> Seq<Seq<char>> {
    ss.map_values(|s: String| s@)
}

/// Copies the first `n` characters of `v`.
pub fn vec_take(v: &Vec<char>, n: usize) -> (r: Vec<char>)
    requires
        n <= v@.len(),
    ensures
        r@ == v@.take(n as int),
{
    let mut r: Vec<char> = Vec::new();
    let mut i: usize = 0;
    while i < n
        invariant
            i <= n <= v@.len(),
            r@ == v@.take(i as int),
        decreases n - i,
    {
        r.push(v[i]);
        proof {
            assert(r@ =~= v@.take(i + 1));
        }
        i = i + 1;
    }
    r
}

/// Appends all characters of `src` to `dst`.
pub fn push_all(dst: &mut Vec<char>, src: &Vec<char>)
    ensures
        final(dst)@ == old(dst)@ + src@,
{
    let mut i: usize = 0;
    while i < src.len()
        invariant
            i <= src@.len(),
            dst@ == old(dst)@ + src@.take(i as int),
        decreases src@.len() - i,
    {
        dst.push(src[i]);
        proof {
            assert(dst@ =~= old(dst)@ + src@.take(i + 1));
        }
        i = i + 1;
    }
    proof {
        assert(dst@ =~= old(dst)@ + src@);
    }
}

/// Removes the trailing whitespace of `v`.
pub fn trim_end_chars(v: &Vec<char>) -> (r: Vec<char>)
    ensures
        r@ == trim_end_spec(v@),
{
    let mut i: usize = v.len();
    let mut done = false;
    proof {
        assert(v@.take(v@.len() as int) =~= v@);
    }
    while i > 0 && !done
        invariant
            i <= v@.len(),
            trim_end_spec(v@) == trim_end_spec(v@.take(i as int)),
            done ==> i > 0 && !is_ws(v@[i - 1]),
        decreases i + (if done { 0int } else { 1int }),
    {
        if is_ws_char(v[i - 1]) {
            proof {
                let t = v@.take(i as int);
                assert(t.last() == v@[i - 1]);
                assert(trim_end_spec(t) == trim_end_spec(t.drop_last()));
                assert(t.drop_last() =~= v@.take(i - 1));
            }
            i = i - 1;
        } else {
            done = true;
        }
    }
    proof {
        if i == 0 {
            assert(v@.take(0) =~= Seq::<char>::empty());
            assert(trim_end_spec(v@) =~= v@.take(0));
        } else {
            assert(trim_end_spec(v@.take(i as int)) == v@.take(i as int));
        }
    }
    vec_take(v, i)
}

/// A line whose every character is whitespace (so it trims to nothing).
pub open spec fn is_blank(l: Seq<char>) -> bool {
    forall|j: int| 0 <= j < l.len() ==> is_ws(#[trigger] l[j])
}

/// Executable mirror of [`is_blank`].
pub fn is_blank_line(v: &Vec<char>) -> (r: bool)
    ensures
        r == is_blank(v@),
{
    let mut i: usize = 0;
    while i < v.len()
        invariant
            i <= v@.len(),
            forall|j: int| 0 <= j < i ==> is_ws(#[trigger] v@[j]),
        decreases v@.len() - i,
    {
        if !is_ws_char(v[i]) {
            return false;
        }
        i = i + 1;
    }
    true
}

/// Whether `s@` equals the view of `lit`.
pub fn str_is(s: &String, lit: &str) -> (r: bool)
    ensures
        r == (s@ == lit@),
{
    let other = String::from_str(lit);
    s.eq(&other)
}

/// Whether the views of two strings are equal.
pub fn string_eq(a: &String, b: &String) -> (r: bool)
    ensures
        r == (a@ == b@),
{
    a.eq(b)
}

/// Concatenates a literal prefix and a tail.
pub fn concat_str(prefix: &str, tail: &str) -> (r: String)
    ensures
        r@ == prefix@ + tail@,
{
    let mut m = String::from_str(prefix);
    m.append(tail);
    m
}

/// Collects a vector of characters back into a `String`.
///
/// Relies on `String: FromIterator<char>` (via `Iterator::collect`):
/// the resulting string consists of exactly the characters of `v`, in order.
#[verifier::external_body]
pub fn string_of(v: &Vec<char>) -> (s: String)
    ensures
        s@ == v@,
{
    v.iter().collect()
}

/// A line with every leading whitespace character removed.
pub open spec fn trim_start_spec(s: Seq<char>) -> Seq<char>
    decreases s.len(),
{
    if s.len() == 0 {
        s
    } else if is_ws(s[0]) {
        trim_start_spec(s.skip(1))
    } else {
        s
    }
}

/// A line trimmed of whitespace at both ends.
pub open spec fn trim_spec(s: Seq<char>) -> Seq<char> {
    trim_end_spec(trim_start_spec(s))
}

/// Removes the leading whitespace of `v`.
pub fn trim_start_chars(v: &Vec<char>) -> (r: Vec<char>)
    ensures
        r@ == trim_start_spec(v@),
{
    let mut i: usize = 0;
    let mut done = false;
    proof {
        assert(v@.skip(0) =~= v@);
    }
    while i < v.len() && !done
        invariant
            i <= v@.len(),
            trim_start_spec(v@) == trim_start_spec(v@.skip(i as int)),
            done ==> i < v@.len() && !is_ws(v@[i as int]),
        decreases v@.len() - i + (if done { 0int } else { 1int }),
    {
        if is_ws_char(v[i]) {
            proof {
                let t = v@.skip(i as int);
                assert(t.len() > 0 && t[0] == v@[i as int]);
                assert(trim_start_spec(t) == trim_start_spec(t.skip(1)));
                assert(t.skip(1) =~= v@.skip(i + 1));
            }
            i = i + 1;
        } else {
            done = true;
        }
    }
    let n = v.len();
    let mut r: Vec<char> = Vec::new();
    let mut j: usize = i;
    while j < n
        invariant
            i <= j <= n,
            n == v@.len(),
            r@ == v@.skip(i as int).take(j - i),
        decreases n - j,
    {
        r.push(v[j]);
        proof {
            assert(r@ =~= v@.skip(i as int).take(j + 1 - i));
        }
        j = j + 1;
    }
    proof {
        assert(r@ =~= v@.skip(i as int));
        if i == v@.len() {
            assert(v@.skip(i as int) =~= Seq::<char>::empty());
            assert(trim_start_spec(v@.skip(i as int)) =~= v@.skip(i as int));
        }
    }
    r
}

/// Removes the whitespace at both ends of `v`.
pub fn trim_chars(v: &Vec<char>) -> (r: Vec<char>)
    ensures
        r@ == trim_spec(v@),
{
    let t = trim_start_chars(v);
    trim_end_chars(&t)
}

/// One step short of [`ws_tokens`]: the tokens of `s` once the scan stands
/// at `i` with the pending partial token `cur` and the finished tokens `acc`.
pub open spec fn ws_tokens_rec(s: Seq<char>, i: int, cur: Seq<char>, acc: Seq<Seq<char>>) -> Seq<
    Seq<char>,
>
    decreases s.len() - i,
{
    if i < 0 || i >= s.len() {
        if cur.len() > 0 {
            acc.push(cur)
        } else {
            acc
        }
    } else if is_ws(s[i]) {
        if cur.len() > 0 {
            ws_tokens_rec(s, i + 1, Seq::empty(), acc.push(cur))
        } else {
            ws_tokens_rec(s, i + 1, Seq::empty(), acc)
        }
    } else {
        ws_tokens_rec(s, i + 1, cur.push(s[i]), acc)
    }
}

/// The maximal whitespace-free runs of `s`, in order.
pub open spec fn ws_tokens(s: Seq<char>) -> Seq<Seq<char>> {
    ws_tokens_rec(s, 0, Seq::empty(), Seq::empty())
}

/// Splits `v` into its whitespace-separated tokens.
pub fn split_ws(v: &Vec<char>) -> (r: Vec<Vec<char>>)
    ensures
        views_of(r@) == ws_tokens(v@),
{
    let mut acc: Vec<Vec<char>> = Vec::new();
    let mut cur: Vec<char> = Vec::new();
    let mut i: usize = 0;
    proof {
        assert(views_of(acc@) =~= Seq::<Seq<char>>::empty());
    }
    while i < v.len()
        invariant
            i <= v@.len(),
            ws_tokens_rec(v@, i as int, cur@, views_of(acc@)) == ws_tokens(v@),
        decreases v@.len() - i,
    {
        let ghost i0 = i as int;
        let ghost cur0 = cur@;
        let ghost acc0 = views_of(acc@);
        let c = v[i];
        if is_ws_char(c) {
            if cur.len() > 0 {
                acc.push(cur);
                cur = Vec::new();
                proof {
                    assert(views_of(acc@) =~= acc0.push(cur0));
                    assert(cur@ =~= Seq::<char>::empty());
                    assert(ws_tokens_rec(v@, i0, cur0, acc0) == ws_tokens_rec(
                        v@, i0 + 1, cur@, views_of(acc@)));
                }
            } else {
                proof {
                    assert(cur0 =~= Seq::<char>::empty());
                    assert(ws_tokens_rec(v@, i0, cur0, acc0) == ws_tokens_rec(
                        v@, i0 + 1, cur@, views_of(acc@)));
                }
            }
        } else {
            cur.push(c);
            proof {
                assert(cur@ == cur0.push(v@[i0]));
                assert(ws_tokens_rec(v@, i0, cur0, acc0) == ws_tokens_rec(
                    v@, i0 + 1, cur@, views_of(acc@)));
            }
        }
        i = i + 1;
    }
    if cur.len() > 0 {
        let ghost acc0 = views_of(acc@);
        let ghost cur0 = cur@;
        acc.push(cur);
        proof {
            assert(views_of(acc@) =~= acc0.push(cur0));
        }
    }
    acc
}

/// A segment with a single trailing carriage return removed.
pub open spec fn strip_cr(s: Seq<char>) -> Seq<char> {
    if s.len() > 0 && s.last() == '\r' {
        s.drop_last()
    } else {
        s
    }
}

/// One step short of [`text_lines`]: scanning state as in [`ws_tokens_rec`].
pub open spec fn text_lines_rec(s: Seq<char>, i: int, cur: Seq<char>, acc: Seq<Seq<char>>) -> Seq<
    Seq<char>,
>
    decreases s.len() - i,
{
    if i < 0 || i >= s.len() {
        if cur.len() > 0 {
            acc.push(strip_cr(cur))
        } else {
            acc
        }
    } else if s[i] == '\n' {
        text_lines_rec(s, i + 1, Seq::empty(), acc.push(strip_cr(cur)))
    } else {
        text_lines_rec(s, i + 1, cur.push(s[i]), acc)
    }
}

/// The lines of `s`: split at each newline, a single trailing carriage
/// return stripped from each line, and no final empty line when `s` ends
/// with a newline.
pub open spec fn text_lines(s: Seq<char>) -> Seq<Seq<char>> {
    text_lines_rec(s, 0, Seq::empty(), Seq::empty())
}

/// The second line of `s`, when it has one.
pub open spec fn second_line(s: Seq<char>) -> Option<Seq<char>> {
    if text_lines(s).len() >= 2 {
        Some(text_lines(s)[1])
    } else {
        None
    }
}

/// Splits `v` into its lines, as [`text_lines`] describes.
pub fn split_lines(v: &Vec<char>) -> (r: Vec<Vec<char>>)
    ensures
        views_of(r@) == text_lines(v@),
{
    let mut acc: Vec<Vec<char>> = Vec::new();
    let mut cur: Vec<char> = Vec::new();
    let mut i: usize = 0;
    proof {
        assert(views_of(acc@) =~= Seq::<Seq<char>>::empty());
    }
    while i < v.len()
        invariant
            i <= v@.len(),
            text_lines_rec(v@, i as int, cur@, views_of(acc@)) == text_lines(v@),
        decreases v@.len() - i,
    {
        let ghost i0 = i as int;
        let ghost cur0 = cur@;
        let ghost acc0 = views_of(acc@);
        let c = v[i];
        if c == '\n' {
            let stripped = strip_cr_chars(&cur);
            let ghost s0 = stripped@;
            acc.push(stripped);
            cur = Vec::new();
            proof {
                assert(views_of(acc@) =~= acc0.push(s0));
                assert(cur@ =~= Seq::<char>::empty());
                assert(text_lines_rec(v@, i0, cur0, acc0) == text_lines_rec(
                    v@, i0 + 1, cur@, views_of(acc@)));
            }
        } else {
            cur.push(c);
            proof {
                assert(cur@ == cur0.push(v@[i0]));
                assert(text_lines_rec(v@, i0, cur0, acc0) == text_lines_rec(
                    v@, i0 + 1, cur@, views_of(acc@)));
            }
        }
        i = i + 1;
    }
    if cur.len() > 0 {
        let stripped = strip_cr_chars(&cur);
        let ghost acc0 = views_of(acc@);
        let ghost s0 = stripped@;
        acc.push(stripped);
        proof {
            assert(views_of(acc@) =~= acc0.push(s0));
        }
    }
    acc
}

/// Executable mirror of [`strip_cr`].
pub fn strip_cr_chars(v: &Vec<char>) -> (r: Vec<char>)
    ensures
        r@ == strip_cr(v@),
{
    if v.len() > 0 && v[v.len() - 1] == '\r' {
        proof {
            assert(v@.take(v@.len() - 1) =~= v@.drop_last());
        }
        vec_take(v, v.len() - 1)
    } else {
        vec_take(v, v.len())
    }
}

/// One step short of [`space_fields`]: scanning state as in
/// [`ws_tokens_rec`], but empty fields are kept.
pub open spec fn space_fields_rec(s: Seq<char>, i: int, cur: Seq<char>, acc: Seq<Seq<char>>) -> Seq<
    Seq<char>,
>
    decreases s.len() - i,
{
    if i < 0 || i >= s.len() {
        acc.push(cur)
    } else if s[i] == ' ' {
        space_fields_rec(s, i + 1, Seq::empty(), acc.push(cur))
    } else {
        space_fields_rec(s, i + 1, cur.push(s[i]), acc)
    }
}

/// The fields of `s` between single space characters; consecutive spaces
/// yield empty fields, as `str::split(" ")` does.
pub open spec fn space_fields(s: Seq<char>) -> Seq<Seq<char>> {
    space_fields_rec(s, 0, Seq::empty(), Seq::empty())
}

/// Splits `v` at every space, keeping empty fields.
pub fn split_spaces(v: &Vec<char>) -> (r: Vec<Vec<char>>)
    ensures
        views_of(r@) == space_fields(v@),
{
    let mut acc: Vec<Vec<char>> = Vec::new();
    let mut cur: Vec<char> = Vec::new();
    let mut i: usize = 0;
    proof {
        assert(views_of(acc@) =~= Seq::<Seq<char>>::empty());
    }
    while i < v.len()
        invariant
            i <= v@.len(),
            space_fields_rec(v@, i as int, cur@, views_of(acc@)) == space_fields(v@),
        decreases v@.len() - i,
    {
        let ghost i0 = i as int;
        let ghost cur0 = cur@;
        let ghost acc0 = views_of(acc@);
        let c = v[i];
        if c == ' ' {
            acc.push(cur);
            cur = Vec::new();
            proof {
                assert(views_of(acc@) =~= acc0.push(cur0));
                assert(cur@ =~= Seq::<char>::empty());
                assert(space_fields_rec(v@, i0, cur0, acc0) == space_fields_rec(
                    v@, i0 + 1, cur@, views_of(acc@)));
            }
        } else {
            cur.push(c);
            proof {
                assert(cur@ == cur0.push(v@[i0]));
                assert(space_fields_rec(v@, i0, cur0, acc0) == space_fields_rec(
                    v@, i0 + 1, cur@, views_of(acc@)));
            }
        }
        i = i + 1;
    }
    let ghost acc0 = views_of(acc@);
    let ghost cur0 = cur@;
    acc.push(cur);
    proof {
        assert(views_of(acc@) =~= acc0.push(cur0));
    }
    acc
}

/// One step short of [`replaced`]: the result once the scan stands at `i`
/// with `acc` already emitted.
pub open spec fn replaced_rec(
    s: Seq<char>,
    pat: Seq<char>,
    sub: Seq<char>,
    i: int,
    acc: Seq<char>,
) -> Seq<char>
    decreases s.len() - i,
{
    if i < 0 || i >= s.len() {
        acc
    } else if pat.len() > 0 && i + pat.len() <= s.len() && s.subrange(i, i + pat.len() as int)
        == pat {
        replaced_rec(s, pat, sub, i + pat.len() as int, acc + sub)
    } else {
        replaced_rec(s, pat, sub, i + 1, acc.push(s[i]))
    }
}

/// `s` with every occurrence of `pat` replaced by `sub`, scanning left to
/// right without overlap, as `str::replace` does for a non-empty pattern.
pub open spec fn replaced(s: Seq<char>, pat: Seq<char>, sub: Seq<char>) -> Seq<char> {
    replaced_rec(s, pat, sub, 0, Seq::empty())
}

/// Whether `pat` occurs in `v` at position `i`.
fn matches_at(v: &Vec<char>, pat: &Vec<char>, i: usize) -> (r: bool)
    requires
        i <= v@.len(),
    ensures
        r == (i + pat@.len() <= v@.len() && v@.subrange(i as int, i + pat@.len() as int) == pat@),
{
    let vn = v.len();
    assert(vn == v@.len());
    if pat.len() > vn - i {
        return false;
    }
    let n = pat.len();
    let mut j: usize = 0;
    while j < n
        invariant
            j <= n,
            n == pat@.len(),
            vn == v@.len(),
            i + n <= vn,
            forall|k: int| 0 <= k < j ==> v@[i + k] == #[trigger] pat@[k],
        decreases n - j,
    {
        let idx: usize = i + j;
        if v[idx] != pat[j] {
            proof {
                assert(v@.subrange(i as int, i + pat@.len() as int)[j as int] == v@[i + j]);
                assert(v@.subrange(i as int, i + pat@.len() as int) != pat@);
            }
            return false;
        }
        j = j + 1;
    }
    proof {
        assert(v@.subrange(i as int, i + pat@.len() as int) =~= pat@);
    }
    true
}

/// Replaces every occurrence of `pat` in `v` by `sub`, as [`replaced`]
/// describes.
pub fn replace_chars(v: &Vec<char>, pat: &Vec<char>, sub: &Vec<char>) -> (r: Vec<char>)
    ensures
        r@ == replaced(v@, pat@, sub@),
{
    let mut acc: Vec<char> = Vec::new();
    let mut i: usize = 0;
    while i < v.len()
        invariant
            i <= v@.len(),
            replaced_rec(v@, pat@, sub@, i as int, acc@) == replaced(v@, pat@, sub@),
        decreases v@.len() - i,
    {
        let ghost i0 = i as int;
        let ghost acc0 = acc@;
        if pat.len() > 0 && matches_at(v, pat, i) {
            push_all(&mut acc, sub);
            i = i + pat.len();
            proof {
                assert(replaced_rec(v@, pat@, sub@, i0, acc0) == replaced_rec(
                    v@, pat@, sub@, i as int, acc@));
            }
        } else {
            acc.push(v[i]);
            i = i + 1;
            proof {
                assert(acc@ == acc0.push(v@[i0]));
                assert(replaced_rec(v@, pat@, sub@, i0, acc0) == replaced_rec(
                    v@, pat@, sub@, i as int, acc@));
            }
        }
    }
    acc
}

/// Converts each character vector into a `String`.
pub fn to_strings(vs: Vec<Vec<char>>) -> (r: Vec<String>)
    ensures
        string_views(r@) == views_of(vs@),
{
    let mut r: Vec<String> = Vec::new();
    let mut i: usize = 0;
    while i < vs.len()
        invariant
            i <= vs@.len(),
            string_views(r@) == views_of(vs@).take(i as int),
        decreases vs@.len() - i,
    {
        let s = string_of(&vs[i]);
        let ghost r0 = string_views(r@);
        r.push(s);
        proof {
            assert(string_views(r@) =~= r0.push(vs@[i as int]@));
            assert(string_views(r@) =~= views_of(vs@).take(i + 1));
        }
        i = i + 1;
    }
    proof {
        assert(string_views(r@) =~= views_of(vs@));
    }
    r
}

} // verus!
