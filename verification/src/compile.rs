//! Compiler invocation logic: substituting the command template,
//! splitting it into argv, naming the executable, and classifying how
//! the compiler run ended.

use vstd::prelude::*;

use crate::text::{chars_of, replace_chars, replaced, space_fields, split_spaces, string_views,
    to_strings, vec_take};

verus! {

/// How the compiler run ended, as the spawning side observed it.
#[derive(Debug, Clone, PartialEq, Eq)]
pub enum CompileEvent {
    NotFound,
    SpawnFailed { message: String },
    TimedOut,
    Exited { code: i32 },
}

/// The index just past the last occurrence of `c` in `s`; 0 when `c`
/// does not occur.
pub open spec fn index_past_last(s: Seq<char>, c: char) -> int
    decreases s.len(),
{
    if s.len() == 0 {
        0
    } else if s.last() == c {
        s.len() as int
    } else {
        index_past_last(s.drop_last(), c)
    }
}

/// The final path component of `s`: everything after the last `/`.
pub open spec fn base_name_spec(s: Seq<char>) -> Seq<char> {
    s.skip(index_past_last(s, '/'))
}

/// The stem of a file name: everything before its last `.`, unless the
/// only `.` starts the name or there is none.
pub open spec fn stem_of(b: Seq<char>) -> Seq<char> {
    if index_past_last(b, '.') <= 1 {
        b
    } else {
        b.take(index_past_last(b, '.') - 1)
    }
}

/// The stem of the final component of the path `s`.
pub open spec fn file_stem_spec(s: Seq<char>) -> Seq<char> {
    stem_of(base_name_spec(s))
}

/// The index just past the last occurrence of `c` in `v`, as
/// [`index_past_last`] describes.
fn index_past_last_exec(v: &Vec<char>, c: char) -> (r: usize)
    ensures
        r as int == index_past_last(v@, c),
        r <= v@.len(),
{
    let mut i: usize = v.len();
    proof {
        assert(v@.take(v@.len() as int) =~= v@);
    }
    while i > 0
        invariant
            i <= v@.len(),
            index_past_last(v@, c) == index_past_last(v@.take(i as int), c),
        decreases i,
    {
        proof {
            let t = v@.take(i as int);
            assert(t.last() == v@[i - 1]);
        }
        if v[i - 1] == c {
            return i;
        }
        proof {
            let t = v@.take(i as int);
            assert(index_past_last(t, c) == index_past_last(t.drop_last(), c));
            assert(t.drop_last() =~= v@.take(i - 1));
        }
        i = i - 1;
    }
    proof {
        assert(v@.take(0) =~= Seq::<char>::empty());
    }
    0
}

/// The stem of the final component of `path`, as [`file_stem_spec`]
/// describes.
pub fn file_stem(path: &String) -> (r: String)
    ensures
        r@ == file_stem_spec(path@),
{
    let v = chars_of(path.as_str());
    let start = index_past_last_exec(&v, '/');
    let n = v.len();
    let mut base: Vec<char> = Vec::new();
    let mut i: usize = start;
    while i < n
        invariant
            start <= i <= n,
            n == v@.len(),
            base@ == v@.skip(start as int).take(i - start),
        decreases n - i,
    {
        base.push(v[i]);
        proof {
            assert(base@ =~= v@.skip(start as int).take(i + 1 - start));
        }
        i = i + 1;
    }
    proof {
        assert(base@ =~= v@.skip(start as int));
    }
    let dot = index_past_last_exec(&base, '.');
    if dot <= 1 {
        crate::text::string_of(&base)
    } else {
        let stem = vec_take(&base, dot - 1);
        crate::text::string_of(&stem)
    }
}

/// The executable path for a compiled source: the scratch directory,
/// a slash, the stem, and the `.o` suffix.
pub fn executable_path_for(scratch_dir: &String, stem: &String) -> (r: String)
    ensures
        r@ == scratch_dir@ + "/"@ + stem@ + ".o"@,
{
    let mut m = scratch_dir.clone();
    m.append("/");
    m.append(stem.as_str());
    m.append(".o");
    m
}

/// The compile command with `<IN>` replaced by the source path and
/// `<OUT>` by the executable path, split into argv at single spaces
/// (no quoting: consecutive spaces yield empty arguments).
pub open spec fn compile_argv(template: Seq<char>, source: Seq<char>, executable: Seq<char>) -> Seq<
    Seq<char>,
> {
    space_fields(replaced(replaced(template, "<IN>"@, source), "<OUT>"@, executable))
}

/// Builds [`compile_argv`]: the first element is the program to run,
/// the rest are its arguments.
pub fn build_compile_command(
    compile_command: &String,
    source_path: &String,
    executable_path: &String,
) -> (r: Vec<String>)
    ensures
        string_views(r@) == compile_argv(compile_command@, source_path@, executable_path@),
{
    let cmd = chars_of(compile_command.as_str());
    let pat_in = chars_of("<IN>");
    let pat_out = chars_of("<OUT>");
    let src = chars_of(source_path.as_str());
    let exe = chars_of(executable_path.as_str());
    let step1 = replace_chars(&cmd, &pat_in, &src);
    let step2 = replace_chars(&step1, &pat_out, &exe);
    let fields = split_spaces(&step2);
    to_strings(fields)
}

/// Classifies how the compiler run ended: a missing compiler binary,
/// a spawn failure, a timeout (the child was killed), a non-zero exit
/// (the captured stderr is the failure message), or success, which
/// yields the executable path and the elapsed compile time in
/// milliseconds.
pub fn compile_outcome(
    event: &CompileEvent,
    compiler_stderr: &String,
    executable_path: &String,
    elapsed_millis: u64,
) -> (r: Result<(String, u64), String>)
    ensures
        match *event {
            CompileEvent::NotFound => r matches Err(m) && m@ == "The compiler was not found!"@,
            CompileEvent::SpawnFailed { message } => r matches Err(m) && m@ == message@,
            CompileEvent::TimedOut => r matches Err(m) && m@ == "Compilation timed out"@,
            CompileEvent::Exited { code } => if code != 0 {
                r matches Err(m) && m@ == compiler_stderr@
            } else {
                r matches Ok(p) && p.0@ == executable_path@ && p.1 == elapsed_millis
            },
        },
{
    match event {
        CompileEvent::NotFound => Err(String::from_str("The compiler was not found!")),
        CompileEvent::SpawnFailed { message } => Err(message.clone()),
        CompileEvent::TimedOut => Err(String::from_str("Compilation timed out")),
        CompileEvent::Exited { code } => {
            if *code != 0 {
                Err(compiler_stderr.clone())
            } else {
                Ok((executable_path.clone(), elapsed_millis))
            }
        },
    }
}

} // verus!
