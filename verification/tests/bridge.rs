use atlas_bridge::check_syntax;
use atlas_bridge::compile_and_run;
use atlas_bridge::format_code;
use atlas_bridge::get_version;
use atlas_bridge::init;

fn hello_program() -> String {
    "import \"std/io\"\nfunc main() {\n    println(\"Hello World!\");\n}\n".to_string()
}

fn broken_program() -> String {
    "func main() -> int64 {\n    return 0;\n".to_string()
}

#[test]
fn version_is_nonempty_semver() {
    let v = get_version();
    assert!(!v.is_empty());
    let parts: Vec<&str> = v.split('.').collect();
    assert_eq!(parts.len(), 3);
    for part in parts {
        assert!(!part.is_empty());
        assert!(part.chars().all(|c| c.is_ascii_digit()));
    }
}

#[test]
fn version_is_stable_across_calls() {
    assert_eq!(get_version(), get_version());
}

#[test]
fn check_syntax_accepts_valid_program() {
    assert_eq!(check_syntax(hello_program()), Ok(true));
}

#[test]
fn check_syntax_rejects_unbalanced_delimiters() {
    let outcome = check_syntax(broken_program());
    match outcome {
        Ok(_) => panic!("an unbalanced program must not pass the syntax check"),
        Err(message) => assert!(!message.is_empty()),
    }
}

#[test]
fn check_syntax_rejects_untokenizable_text() {
    let outcome = check_syntax("@".to_string());
    match outcome {
        Ok(_) => panic!("text outside the token set must not pass the syntax check"),
        Err(message) => assert!(!message.is_empty()),
    }
    let oversized = "func main() -> int64 {\n    return 99999999999999999999;\n}\n".to_string();
    let outcome = check_syntax(oversized);
    match outcome {
        Ok(_) => panic!("an oversized integer literal must not pass the syntax check"),
        Err(message) => assert!(!message.is_empty()),
    }
}

#[test]
fn compile_and_run_rejects_untokenizable_text() {
    assert!(compile_and_run("@".to_string()).is_err());
    let unterminated = "func main() {\n    println(\"oops);\n}\n".to_string();
    assert!(compile_and_run(unterminated).is_err());
}

#[test]
fn compile_and_run_reports_fixed_success() {
    let outcome = compile_and_run(hello_program()).expect("a valid program should run");
    assert!(outcome.success());
    assert_eq!(outcome.stdout(), "Execution completed successfully.");
    assert_eq!(outcome.stderr(), "");
    assert_eq!(outcome.exit_code(), 0);
}

#[test]
fn compile_and_run_rejects_invalid_program() {
    let outcome = compile_and_run(broken_program());
    assert!(outcome.is_err());
}

#[test]
fn format_code_is_identity() {
    assert_eq!(format_code(String::new()), Ok(String::new()));
    let program = "func main() -> int64 { return 0; }".to_string();
    assert_eq!(format_code(program.clone()), Ok(program));
    let junk = "not even close to a program".to_string();
    assert_eq!(format_code(junk.clone()), Ok(junk));
}

#[test]
fn init_twice_changes_nothing_observable() {
    init();
    init();
    assert_eq!(check_syntax(hello_program()), Ok(true));
    assert_eq!(get_version(), get_version());
}

#[test]
fn operations_are_deterministic_across_calls() {
    assert_eq!(check_syntax(hello_program()), check_syntax(hello_program()));
    assert_eq!(check_syntax(broken_program()), check_syntax(broken_program()));
    let first = compile_and_run(hello_program()).expect("a valid program should run");
    let second = compile_and_run(hello_program()).expect("a valid program should run");
    assert_eq!(first.success(), second.success());
    assert_eq!(first.stdout(), second.stdout());
    assert_eq!(first.stderr(), second.stderr());
    assert_eq!(first.exit_code(), second.exit_code());
    assert_eq!(format_code(hello_program()), format_code(hello_program()));
}

#[test]
fn accessors_return_independent_copies() {
    let outcome = compile_and_run(hello_program()).expect("a valid program should run");
    let first_copy = outcome.stdout();
    let second_copy = outcome.stdout();
    assert_eq!(first_copy, second_copy);
    assert_eq!(outcome.stderr(), String::new());
}
