use icie::outcome::{ExitKind, RawRun, Verdict};
use icie::task::{simple_test, Checker, Environment, Task};
use icie::test::{
    alt_path_of, out_path_of, run, unused_test_id, PreparedTest, Progress, TestRun,
};

fn task() -> Task {
    Task {
        checker: Checker::FreeWhitespace,
        environment: Environment { time_limit_millis: None },
    }
}

fn normal_run(stdout: &[u8]) -> RawRun {
    RawRun { kind: ExitKind::Normal, stdout: stdout.to_vec(), time_millis: 3 }
}

#[test]
fn batch_yields_one_result_per_test_in_order() {
    let tests = vec![
        PreparedTest {
            in_path: b"tests/1.in".to_vec(),
            expected: b"10\n".to_vec(),
            alt: None,
            solution_run: normal_run(b"10\n"),
        },
        PreparedTest {
            in_path: b"tests/2.in".to_vec(),
            expected: b"20\n".to_vec(),
            alt: None,
            solution_run: normal_run(b"21\n"),
        },
    ];
    let runs: Vec<TestRun> = run(tests, &task());
    assert_eq!(runs.len(), 2);
    assert_eq!(runs[0].in_path, b"tests/1.in".to_vec());
    assert_eq!(runs[0].out_path, b"tests/1.out".to_vec());
    assert!(runs[0].success());
    assert_eq!(runs[1].in_path, b"tests/2.in".to_vec());
    assert_eq!(runs[1].out_path, b"tests/2.out".to_vec());
    assert!(!runs[1].success());
    assert_eq!(runs[1].outcome.verdict, Verdict::WrongAnswer);
}

#[test]
fn progress_advances_by_fifty_percent_per_test_of_two() {
    let mut p = Progress::new(2);
    assert_eq!(p.percent(), 0);
    p.advance();
    assert_eq!(p.percent(), 50);
    p.advance();
    assert_eq!(p.percent(), 100);
}

#[test]
fn alternate_output_also_passes() {
    let t = PreparedTest {
        in_path: b"1.in".to_vec(),
        expected: b"yes".to_vec(),
        alt: Some(b"maybe".to_vec()),
        solution_run: normal_run(b"maybe"),
    };
    let runs = run(vec![t], &task());
    assert!(runs[0].success());
}

#[test]
fn verdicts_encode_timeout_and_crash() {
    let tle = RawRun { kind: ExitKind::TimedOut, stdout: Vec::new(), time_millis: 1000 };
    let crash = RawRun { kind: ExitKind::Failed, stdout: Vec::new(), time_millis: 4 };
    let o1 = simple_test(&task(), tle, b"x", None);
    let o2 = simple_test(&task(), crash, b"x", None);
    assert_eq!(o1.verdict, Verdict::TimeLimitExceeded);
    assert_eq!(o2.verdict, Verdict::RuntimeError);
}

#[test]
fn simple_test_compares_free_of_whitespace() {
    let o = simple_test(&task(), normal_run(b"1  2\n\n3\n"), b"1 2\n3", None);
    assert_eq!(o.verdict, Verdict::Success);
    let o = simple_test(&task(), normal_run(b"1 3"), b"1 2", None);
    assert_eq!(o.verdict, Verdict::WrongAnswer);
}

#[test]
fn out_paths_replace_the_extension() {
    assert_eq!(out_path_of(b"tests/example/1.in"), b"tests/example/1.out".to_vec());
    assert_eq!(alt_path_of(b"tests/example/1.in"), b"tests/example/1.alt.out".to_vec());
    assert_eq!(out_path_of(b"noext"), b"noext.out".to_vec());
    assert_eq!(out_path_of(b"dir.d/noext"), b"dir.d/noext.out".to_vec());
}

#[test]
fn unused_id_fills_the_first_gap() {
    assert_eq!(unused_test_id(&vec![1, 2, 4]), 3);
}

#[test]
fn unused_id_starts_at_one_for_an_empty_directory() {
    assert_eq!(unused_test_id(&Vec::new()), 1);
}

#[test]
fn unused_id_ignores_order_and_repeats() {
    assert_eq!(unused_test_id(&vec![2, 1, 1, 3]), 4);
    assert_eq!(unused_test_id(&vec![5, 7]), 1);
}
