use toster::{build_compile_command, compile_outcome, executable_path_for, file_stem, CompileEvent};

#[test]
fn template_substitution_and_split() {
    let argv = build_compile_command(
        &String::from("g++ -O2 <IN> -o <OUT>"),
        &String::from("main.cpp"),
        &String::from("/tmp/main.o"),
    );
    assert_eq!(
        argv,
        vec![
            String::from("g++"),
            String::from("-O2"),
            String::from("main.cpp"),
            String::from("-o"),
            String::from("/tmp/main.o"),
        ]
    );
}

#[test]
fn consecutive_spaces_yield_empty_arguments() {
    let argv = build_compile_command(
        &String::from("cc  <IN>"),
        &String::from("a.c"),
        &String::from("a.o"),
    );
    assert_eq!(argv, vec![String::from("cc"), String::from(""), String::from("a.c")]);
}

#[test]
fn file_stem_strips_directory_and_extension() {
    assert_eq!(file_stem(&String::from("/home/u/main.cpp")), "main");
    assert_eq!(file_stem(&String::from("main.tar.gz")), "main.tar");
    assert_eq!(file_stem(&String::from(".bashrc")), ".bashrc");
    assert_eq!(file_stem(&String::from("plain")), "plain");
}

#[test]
fn executable_path_is_stem_under_scratch_dir() {
    let p = executable_path_for(&String::from("/tmp/scratch"), &String::from("main"));
    assert_eq!(p, "/tmp/scratch/main.o");
}

#[test]
fn compiler_not_found_message() {
    let r = compile_outcome(&CompileEvent::NotFound, &String::new(), &String::from("a.o"), 10);
    assert_eq!(r, Err(String::from("The compiler was not found!")));
}

#[test]
fn compile_timeout_message() {
    let r = compile_outcome(&CompileEvent::TimedOut, &String::new(), &String::from("a.o"), 10);
    assert_eq!(r, Err(String::from("Compilation timed out")));
}

#[test]
fn nonzero_compiler_exit_returns_captured_stderr() {
    let stderr = String::from("main.cpp:1:1: error: expected unqualified-id");
    let r = compile_outcome(
        &CompileEvent::Exited { code: 1 },
        &stderr,
        &String::from("a.o"),
        10,
    );
    assert_eq!(r, Err(stderr));
}

#[test]
fn spawn_failure_returns_its_message() {
    let r = compile_outcome(
        &CompileEvent::SpawnFailed { message: String::from("permission denied") },
        &String::new(),
        &String::from("a.o"),
        10,
    );
    assert_eq!(r, Err(String::from("permission denied")));
}

#[test]
fn clean_compile_yields_executable_and_time() {
    let r = compile_outcome(
        &CompileEvent::Exited { code: 0 },
        &String::new(),
        &String::from("/tmp/a.o"),
        1234,
    );
    assert_eq!(r, Ok((String::from("/tmp/a.o"), 1234)));
}
