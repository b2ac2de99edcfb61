use classroom_backend::outcome::unsupported;
use classroom_backend::plan::{make_plan, Command};
use classroom_backend::session::start_lowered;
use classroom_backend::{
    finish, resolve_language, start, start_with_id, Action, Event, FailureKind, Language, Outcome,
    Session, Start,
};
use std::collections::HashSet;

const ID: &str = "0f8fad5b-d9cb-469f-a165-70867728950e";

fn accepted(s: Start) -> Session {
    match s {
        Start::Accepted(s) => s,
        Start::Rejected(r) => panic!("rejected: {:?}", r.error),
    }
}

fn exited(success: bool, stdout: &str, stderr: &str) -> Event {
    Event::Exited { success, stdout: stdout.to_string(), stderr: stderr.to_string() }
}

fn run_of(a: &Action) -> &Command {
    match a {
        Action::Run(c) => c,
        other => panic!("expected a run, got {:?}", describe(other)),
    }
}

fn describe(a: &Action) -> String {
    match a {
        Action::Write { path, .. } => format!("write {}", path),
        Action::Run(c) => format!("run {}", c.program),
        Action::Remove(p) => format!("remove {}", p),
        Action::Finish(_) => "finish".to_string(),
    }
}

fn outcome_of(a: Action) -> Outcome {
    match a {
        Action::Finish(o) => o,
        other => panic!("expected the end, got {}", describe(&other)),
    }
}

/// Answers each action the way a file system would, keeping track of the
/// files that exist; `runs` answers the processes in order.
fn drive(mut s: Session, mut runs: Vec<Event>, files: &mut HashSet<String>) -> Outcome {
    runs.reverse();
    let mut action = s.action();
    for _ in 0..32 {
        let ev = match &action {
            Action::Finish(_) => break,
            Action::Write { path, .. } => {
                files.insert(path.clone());
                Event::Written
            }
            Action::Run(c) => {
                let ev = runs.pop().expect("an answer for every process");
                if let (Event::Exited { success: true, .. }, Some(out)) = (&ev, c.args.iter().position(|a| a == "-o")) {
                    files.insert(c.args[out + 1].clone());
                }
                if c.program == "javac" {
                    if let Event::Exited { success: true, .. } = &ev {
                        files.insert(c.args[0].replace(".java", ".class"));
                    }
                }
                ev
            }
            Action::Remove(p) => {
                files.remove(p);
                Event::Removed
            }
        };
        action = s.step(ev);
    }
    assert!(s.is_done());
    outcome_of(action)
}

#[test]
fn unsupported_language_is_rejected() {
    match start("cobol", "DISPLAY 'HI'.") {
        Start::Rejected(r) => {
            assert!(!r.success);
            assert_eq!(r.output, "");
            assert_eq!(r.error.as_deref(), Some("Unsupported language: cobol"));
            assert_eq!(r.execution_time_ms, 0);
        }
        Start::Accepted(_) => panic!("cobol is not supported"),
    }
}

#[test]
fn unsupported_language_reports_the_identifier_as_given() {
    let r = unsupported("Brainf*ck");
    assert_eq!(r.error.as_deref(), Some("Unsupported language: Brainf*ck"));
    match start_with_id("", "x", ID) {
        Start::Rejected(r) => assert_eq!(r.error.as_deref(), Some("Unsupported language: ")),
        Start::Accepted(_) => panic!("the empty identifier is not supported"),
    }
}

#[test]
fn language_identifiers_ignore_case() {
    assert_eq!(resolve_language("PYTHON"), Some(Language::Python));
    assert_eq!(resolve_language("Python3"), Some(Language::Python));
    assert_eq!(resolve_language("JavaScript"), Some(Language::JavaScript));
    assert_eq!(resolve_language("JS"), Some(Language::JavaScript));
    assert_eq!(resolve_language("Node"), Some(Language::JavaScript));
    assert_eq!(resolve_language("RUST"), Some(Language::Rust));
    assert_eq!(resolve_language("C++"), Some(Language::Cpp));
    assert_eq!(resolve_language("CPP"), Some(Language::Cpp));
    assert_eq!(resolve_language("Java"), Some(Language::Java));
    assert_eq!(resolve_language("python 3"), None);
    assert_eq!(resolve_language("c"), None);
    assert_eq!(resolve_language("typescript"), None);
}

#[test]
fn python_prints_sum() {
    let s = accepted(start("python", "print(1+1)"));
    assert_eq!(s.language(), Language::Python);
    let a = s.action();
    let c = run_of(&a);
    assert_eq!(c.program, "python3");
    assert_eq!(c.args, vec!["-c".to_string(), "print(1+1)".to_string()]);
    assert!(c.dir.is_none());
    let mut files = HashSet::new();
    let o = drive(s, vec![exited(true, "2\n", "")], &mut files);
    let r = finish(o, 37);
    assert!(r.success);
    assert!(r.output.contains('2'));
    assert_eq!(r.error, None);
    assert_eq!(r.execution_time_ms, 37);
    assert!(files.is_empty());
}

#[test]
fn javascript_logs_sum() {
    let s = accepted(start("javascript", "console.log(2+2)"));
    let a = s.action();
    let c = run_of(&a);
    assert_eq!(c.program, "node");
    assert_eq!(c.args, vec!["-e".to_string(), "console.log(2+2)".to_string()]);
    let o = drive(s, vec![exited(true, "4\n", "")], &mut HashSet::new());
    let r = finish(o, 5);
    assert!(r.success);
    assert!(r.output.contains('4'));
}

#[test]
fn cpp_compile_failure_leaves_no_files() {
    let s = accepted(start_with_id("cpp", "int main( {", ID));
    let source = format!("/tmp/cpp_{}.cpp", ID);
    let binary = format!("/tmp/cpp_{}", ID);
    match s.action() {
        Action::Write { path, contents } => {
            assert_eq!(path, source);
            assert_eq!(contents, "int main( {");
        }
        other => panic!("expected a write, got {}", describe(&other)),
    }
    let mut files = HashSet::new();
    let mut s = s;
    let a = s.step(Event::Written);
    files.insert(source.clone());
    let c = run_of(&a);
    assert_eq!(c.program, "g++");
    assert_eq!(c.args, vec![source.clone(), "-o".to_string(), binary.clone()]);
    let a = s.step(exited(false, "", "error: expected ')'"));
    match &a {
        Action::Remove(p) => assert_eq!(*p, source),
        other => panic!("expected a removal, got {}", describe(other)),
    }
    files.remove(&source);
    let o = outcome_of(s.step(Event::Removed));
    match &o {
        Outcome::Failure(kind, text) => {
            assert_eq!(*kind, FailureKind::CompileFailure);
            assert_eq!(text, "error: expected ')'");
        }
        Outcome::Success(_) => panic!("compilation failed"),
    }
    let r = finish(o, 120);
    assert!(!r.success);
    assert_eq!(r.output, "");
    assert!(!r.error.unwrap().is_empty());
    assert!(files.is_empty());
}

#[test]
fn java_class_is_renamed_and_cleaned_up() {
    let src = "class Main { public static void main(String[] a){ System.out.println(\"ok\"); } }";
    let s = accepted(start_with_id("java", src, ID));
    let class = format!("Main_{}", ID.replace('-', "_"));
    match s.action() {
        Action::Write { path, contents } => {
            assert_eq!(path, format!("/tmp/{}.java", class));
            assert_eq!(contents, src.replace("class Main", &format!("class {}", class)));
            assert!(contents.starts_with(&format!("class {} {{", class)));
        }
        other => panic!("expected a write, got {}", describe(&other)),
    }
    let plan = make_plan(Language::Java, src, ID);
    let build = plan.build.expect("java is compiled");
    assert_eq!(build.compile.program, "javac");
    assert_eq!(build.compile.args, vec![format!("/tmp/{}.java", class)]);
    assert_eq!(build.compile.dir.as_deref(), Some("/tmp"));
    assert_eq!(build.artifact, format!("/tmp/{}.class", class));
    assert_eq!(plan.run.program, "java");
    assert_eq!(plan.run.args, vec![class.clone()]);
    assert_eq!(plan.run.dir.as_deref(), Some("/tmp"));
    let mut files = HashSet::new();
    let o = drive(s, vec![exited(true, "", ""), exited(true, "ok\n", "")], &mut files);
    let r = finish(o, 900);
    assert!(r.success);
    assert!(r.output.contains("ok"));
    assert!(files.is_empty(), "left behind: {:?}", files);
}

#[test]
fn concurrent_sessions_use_their_own_artifacts() {
    let a = accepted(start("rust", "fn main() { println!(\"a\"); }"));
    let b = accepted(start("rust", "fn main() { println!(\"b\"); }"));
    assert_ne!(a.id(), b.id());
    let (pa, pb) = match (a.action(), b.action()) {
        (Action::Write { path: pa, contents: ca }, Action::Write { path: pb, contents: cb }) => {
            assert!(ca.contains("\"a\""));
            assert!(cb.contains("\"b\""));
            (pa, pb)
        }
        _ => panic!("compiled languages begin with a write"),
    };
    assert_ne!(pa, pb);
    let mut files = HashSet::new();
    let oa = drive(a, vec![exited(true, "", ""), exited(true, "a\n", "")], &mut files);
    let ob = drive(b, vec![exited(true, "", ""), exited(true, "b\n", "")], &mut files);
    assert_eq!(finish(oa, 1).output, "a\n");
    assert_eq!(finish(ob, 1).output, "b\n");
    assert!(files.is_empty());
}

#[test]
fn fresh_identifiers_are_hyphenated_uuids() {
    let s = accepted(start("Rust", "fn main() {}"));
    let id = s.id();
    assert_eq!(id.len(), 36);
    for (i, c) in id.chars().enumerate() {
        if [8, 13, 18, 23].contains(&i) {
            assert_eq!(c, '-');
        } else {
            assert!(c.is_ascii_digit() || ('a'..='f').contains(&c));
        }
    }
}

#[test]
fn rust_plan_names_artifacts_after_the_identifier() {
    let plan = make_plan(Language::Rust, "fn main() {}", ID);
    let build = plan.build.expect("rust is compiled");
    assert_eq!(build.source, format!("/tmp/rust_{}.rs", ID));
    assert_eq!(build.artifact, format!("/tmp/rust_{}", ID));
    assert_eq!(build.compile.program, "rustc");
    assert_eq!(build.compile.args, vec![build.source.clone(), "-o".to_string(), build.artifact.clone()]);
    assert_eq!(plan.run.program, build.artifact);
    assert!(plan.run.args.is_empty());
}

#[test]
fn runtime_failure_reports_stderr_and_cleans_up() {
    let s = accepted(start_with_id("rust", "fn main() { panic!() }", ID));
    let mut files = HashSet::new();
    let o = drive(s, vec![exited(true, "", ""), exited(false, "partial", "thread 'main' panicked")], &mut files);
    match &o {
        Outcome::Failure(kind, text) => {
            assert_eq!(*kind, FailureKind::RuntimeFailure);
            assert_eq!(text, "thread 'main' panicked");
        }
        Outcome::Success(_) => panic!("the program failed"),
    }
    let r = finish(o, 3);
    assert!(!r.success);
    assert_eq!(r.output, "");
    assert_eq!(r.error.as_deref(), Some("thread 'main' panicked"));
    assert!(files.is_empty());
}

#[test]
fn interpreter_launch_failure_is_a_result() {
    let mut s = accepted(start("Python", "print(1)"));
    let o = outcome_of(s.step(Event::LaunchFailed("No such file or directory".to_string())));
    match &o {
        Outcome::Failure(kind, text) => {
            assert_eq!(*kind, FailureKind::LaunchFailure);
            assert_eq!(text, "Failed to execute Python: No such file or directory");
        }
        Outcome::Success(_) => panic!("nothing ran"),
    }
    let r = finish(o, 2);
    assert_eq!(r.execution_time_ms, 2);
    assert!(!r.success);
}

#[test]
fn write_failure_finishes_at_once() {
    let mut s = accepted(start_with_id("rust", "fn main() {}", ID));
    let o = outcome_of(s.step(Event::WriteFailed("disk full".to_string())));
    match o {
        Outcome::Failure(kind, text) => {
            assert_eq!(kind, FailureKind::LaunchFailure);
            assert_eq!(text, "Failed to write Rust file: disk full");
        }
        Outcome::Success(_) => panic!("nothing was written"),
    }
}

#[test]
fn compiler_launch_failure_removes_the_source() {
    let mut s = accepted(start_with_id("c++", "int main() {}", ID));
    s.step(Event::Written);
    let a = s.step(Event::LaunchFailed("g++ not found".to_string()));
    match &a {
        Action::Remove(p) => assert_eq!(*p, format!("/tmp/cpp_{}.cpp", ID)),
        other => panic!("expected a removal, got {}", describe(other)),
    }
    match outcome_of(s.step(Event::Removed)) {
        Outcome::Failure(kind, text) => {
            assert_eq!(kind, FailureKind::LaunchFailure);
            assert_eq!(text, "Failed to compile C++: g++ not found");
        }
        Outcome::Success(_) => panic!("nothing was compiled"),
    }
}

#[test]
fn program_launch_failure_removes_both_files() {
    let s = accepted(start_with_id("rust", "fn main() {}", ID));
    let mut s = s;
    s.step(Event::Written);
    s.step(exited(true, "", ""));
    let a = s.step(Event::LaunchFailed("permission denied".to_string()));
    match &a {
        Action::Remove(p) => assert_eq!(*p, format!("/tmp/rust_{}.rs", ID)),
        other => panic!("expected a removal, got {}", describe(other)),
    }
    match s.step(Event::Removed) {
        Action::Remove(p) => assert_eq!(p, format!("/tmp/rust_{}", ID)),
        other => panic!("expected a removal, got {}", describe(&other)),
    }
    match outcome_of(s.step(Event::Removed)) {
        Outcome::Failure(kind, text) => {
            assert_eq!(kind, FailureKind::LaunchFailure);
            assert_eq!(text, "Failed to execute Rust: permission denied");
        }
        Outcome::Success(_) => panic!("nothing ran"),
    }
}

#[test]
fn events_that_answer_nothing_are_ignored() {
    let mut s = accepted(start_with_id("node", "1", ID));
    let a = s.step(Event::Removed);
    assert_eq!(run_of(&a).program, "node");
    let a = s.step(Event::Written);
    assert_eq!(run_of(&a).program, "node");
    let o = outcome_of(s.step(exited(true, "", "")));
    let o2 = outcome_of(s.step(exited(false, "", "late")));
    assert!(matches!(o, Outcome::Success(ref t) if t.is_empty()));
    assert!(matches!(o2, Outcome::Success(ref t) if t.is_empty()));
}

#[test]
fn lowered_start_uses_the_given_form() {
    match start_lowered("java", "JAVA", "class Main {}", ID) {
        Start::Accepted(s) => assert_eq!(s.language(), Language::Java),
        Start::Rejected(_) => panic!("java is supported"),
    }
    match start_lowered("JAVA", "JAVA", "class Main {}", ID) {
        Start::Rejected(r) => assert_eq!(r.error.as_deref(), Some("Unsupported language: JAVA")),
        Start::Accepted(_) => panic!("the lowered form is taken as given"),
    }
}

#[test]
fn execution_time_is_reported_on_every_outcome() {
    let ok = finish(Outcome::Success("x".to_string()), 0);
    assert!(ok.success);
    assert_eq!(ok.execution_time_ms, 0);
    for kind in [FailureKind::LaunchFailure, FailureKind::CompileFailure, FailureKind::RuntimeFailure] {
        let r = finish(Outcome::Failure(kind, "e".to_string()), 250);
        assert_eq!(r.execution_time_ms, 250);
        assert!(!r.success);
        assert_eq!(r.output, "");
        assert_eq!(r.error.as_deref(), Some("e"));
    }
    assert_eq!(unsupported("x").execution_time_ms, 0);
}

#[test]
fn language_names_and_kinds() {
    assert_eq!(Language::Cpp.name(), "C++");
    assert_eq!(Language::JavaScript.name(), "JavaScript");
    assert!(Language::Java.is_compiled());
    assert!(Language::Rust.is_compiled());
    assert!(Language::Cpp.is_compiled());
    assert!(!Language::Python.is_compiled());
    assert!(!Language::JavaScript.is_compiled());
}
