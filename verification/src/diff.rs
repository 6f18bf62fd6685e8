//! The positional line diff: two normalized line sequences are compared
//! index by index (no insertion/deletion detection — a deliberately
//! simple, deterministic design), the differing rows are collected with
//! one-based line numbers, rendering stops after 99 differing rows with
//! a truncation marker, and the rows are laid out as a table sized to
//! the terminal width.

use vstd::prelude::*;

use crate::normalize::{normalized_lines, split_trim_end};
use crate::numbers::{dec_str, u64_to_chars};
use crate::text::{string_eq, string_of, string_views};

verus! {

/// One row of the diff table: a line label and the two lines that differ.
pub struct DiffRow {
    pub line: String,
    pub expected: String,
    pub actual: String,
}

/// The views of a sequence of diff rows.
pub open spec fn row_views(rows: Seq<DiffRow>) -> Seq<(Seq<char>, Seq<char>, Seq<char>)> {
    rows.map_values(|r: DiffRow| (r.line@, r.expected@, r.actual@))
}

/// The label of the truncation marker row.
pub open spec fn dots() -> Seq<char> {
    seq!['.', '.', '.']
}

/// One step short of [`diff_rows_spec`]: the rows once the scan stands at
/// index `i` with `cnt` differing rows already collected in `acc`. A
/// sequence shorter than the other is padded with empty lines; when the
/// 99th differing row is collected, a marker row is appended and the
/// scan stops.
pub open spec fn diff_rec(
    e: Seq<Seq<char>>,
    a: Seq<Seq<char>>,
    i: int,
    cnt: int,
    acc: Seq<(Seq<char>, Seq<char>, Seq<char>)>,
) -> Seq<(Seq<char>, Seq<char>, Seq<char>)>
    decreases (if e.len() > a.len() {
        e.len() as int
    } else {
        a.len() as int
    }) - i,
{
    let n: int = if e.len() > a.len() {
        e.len() as int
    } else {
        a.len() as int
    };
    if i < 0 || i >= n {
        acc
    } else {
        let fe = if i < e.len() {
            e[i]
        } else {
            Seq::<char>::empty()
        };
        let fa = if i < a.len() {
            a[i]
        } else {
            Seq::<char>::empty()
        };
        if fe != fa {
            let acc2 = acc.push((dec_str((i + 1) as nat), fe, fa));
            if cnt + 1 >= 99 {
                acc2.push((dots(), dots(), dots()))
            } else {
                diff_rec(e, a, i + 1, cnt + 1, acc2)
            }
        } else {
            diff_rec(e, a, i + 1, cnt, acc)
        }
    }
}

/// The rows of the positional diff between `e` and `a`.
pub open spec fn diff_rows_spec(e: Seq<Seq<char>>, a: Seq<Seq<char>>) -> Seq<
    (Seq<char>, Seq<char>, Seq<char>),
> {
    diff_rec(e, a, 0, 0, Seq::empty())
}

/// Collects the differing rows of two line sequences, as
/// [`diff_rows_spec`] describes.
pub fn diff_rows(expected: &Vec<String>, actual: &Vec<String>) -> (r: Vec<DiffRow>)
    ensures
        row_views(r@) == diff_rows_spec(string_views(expected@), string_views(actual@)),
{
    let ghost ev = string_views(expected@);
    let ghost av = string_views(actual@);
    let n = if expected.len() > actual.len() {
        expected.len()
    } else {
        actual.len()
    };
    let mut rows: Vec<DiffRow> = Vec::new();
    let mut cnt: usize = 0;
    let mut i: usize = 0;
    let mut stop = false;
    proof {
        assert(row_views(rows@) =~= Seq::<(Seq<char>, Seq<char>, Seq<char>)>::empty());
    }
    while i < n && !stop
        invariant
            i <= n,
            n == (if ev.len() > av.len() {
                ev.len()
            } else {
                av.len()
            }),
            ev == string_views(expected@),
            av == string_views(actual@),
            !stop ==> cnt < 99,
            !stop ==> diff_rec(ev, av, i as int, cnt as int, row_views(rows@)) == diff_rows_spec(
                ev,
                av,
            ),
            stop ==> row_views(rows@) == diff_rows_spec(ev, av),
        decreases n - i + (if stop {
            0int
        } else {
            1int
        }),
    {
        let ghost i0 = i as int;
        let ghost cnt0 = cnt as int;
        let ghost rows0 = row_views(rows@);
        let ghost fe_s = if i0 < ev.len() {
            ev[i0]
        } else {
            Seq::<char>::empty()
        };
        let ghost fa_s = if i0 < av.len() {
            av[i0]
        } else {
            Seq::<char>::empty()
        };
        let fe: String = if i < expected.len() {
            expected[i].clone()
        } else {
            String::new()
        };
        let fa: String = if i < actual.len() {
            actual[i].clone()
        } else {
            String::new()
        };
        proof {
            assert(fe@ == fe_s);
            assert(fa@ == fa_s);
        }
        if !string_eq(&fe, &fa) {
            let num = u64_to_chars((i as u64) + 1);
            let line = string_of(&num);
            rows.push(DiffRow { line, expected: fe, actual: fa });
            cnt = cnt + 1;
            proof {
                assert(row_views(rows@) =~= rows0.push((dec_str((i0 + 1) as nat), fe_s, fa_s)));
            }
            if cnt >= 99 {
                let marker = String::from_str("...");
                proof {
                    reveal_strlit("...");
                    assert(marker@ =~= dots());
                }
                let ghost rows1 = row_views(rows@);
                rows.push(
                    DiffRow {
                        line: marker.clone(),
                        expected: marker.clone(),
                        actual: marker,
                    },
                );
                stop = true;
                proof {
                    assert(row_views(rows@) =~= rows1.push((dots(), dots(), dots())));
                    assert(diff_rec(ev, av, i0, cnt0, rows0) == row_views(rows@));
                }
            } else {
                proof {
                    assert(diff_rec(ev, av, i0, cnt0, rows0) == diff_rec(
                        ev,
                        av,
                        i0 + 1,
                        cnt as int,
                        row_views(rows@),
                    ));
                }
            }
        } else {
            proof {
                assert(diff_rec(ev, av, i0, cnt0, rows0) == diff_rec(
                    ev,
                    av,
                    i0 + 1,
                    cnt as int,
                    row_views(rows@),
                ));
            }
        }
        i = i + 1;
    }
    proof {
        if !stop {
            assert(diff_rec(ev, av, i as int, cnt as int, row_views(rows@)) == row_views(rows@));
        }
    }
    rows
}

/// The rendered diff table, as a pure function of the rows and the
/// table width. What the table looks like is comfy_table's business;
/// that it is a function of the rows and the width alone is what the
/// contracts rely on.
pub uninterp spec fn table_text_of(rows: Seq<(Seq<char>, Seq<char>, Seq<char>)>, width: u16) -> Seq<
    char,
>;

/// Relies on comfy_table's `Table` (new, set_content_arrangement,
/// set_width, set_header, add_row, and its `Display` rendering): the
/// rendered table is a deterministic function of the rows and the
/// width, here named [`table_text_of`]; carriage returns are removed
/// from the rendering.
#[verifier::external_body]
fn render_table(rows: &Vec<DiffRow>, width: u16) -> (r: String)
    ensures
        r@ == table_text_of(row_views(rows@), width),
{
    let mut table = comfy_table::Table::new();
    table.set_content_arrangement(comfy_table::ContentArrangement::Dynamic).set_width(width);
    table.set_header(vec!["Line", "Output file", "Your program's output"]);
    for row in rows.iter() {
        table.add_row(vec![row.line.clone(), row.expected.clone(), row.actual.clone()]);
    }
    table.to_string().replace('\r', "")
}

/// Relies on terminal_size::terminal_size: the width of the attached
/// terminal, when there is one. The result depends on the environment,
/// so nothing is promised of it.
#[verifier::external_body]
pub fn terminal_width() -> (r: Option<u16>) {
    terminal_size::terminal_size().map(|(terminal_size::Width(w), _h)| w)
}

/// The rendered diff of two texts at a given width: both texts
/// normalized, their positional diff taken, and the rows laid out.
pub open spec fn rendered_diff(correct: Seq<char>, incorrect: Seq<char>, width: u16) -> Seq<char> {
    table_text_of(diff_rows_spec(normalized_lines(correct), normalized_lines(incorrect)), width)
}

/// Renders the diff between the reference answer and the program's
/// answer, as [`rendered_diff`] describes.
pub fn generate_diff(correct_answer: &String, incorrect_answer: &String, width: u16) -> (r: String)
    ensures
        r@ == rendered_diff(correct_answer@, incorrect_answer@, width),
{
    let e = split_trim_end(correct_answer);
    let a = split_trim_end(incorrect_answer);
    let rows = diff_rows(&e, &a);
    render_table(&rows, width)
}

/// Rendering a diff is pure: two renders of the same texts at the same
/// width are byte-identical.
pub proof fn lemma_diff_deterministic(
    correct: Seq<char>,
    incorrect: Seq<char>,
    width: u16,
    r1: Seq<char>,
    r2: Seq<char>,
)
    requires
        r1 == rendered_diff(correct, incorrect, width),
        r2 == rendered_diff(correct, incorrect, width),
    ensures
        r1 == r2,
{
}

} // verus!
