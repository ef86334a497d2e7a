use aria_parser::suite::{
    failure_lines, pass_line, text_no_later, RunStatus, SortBy, SuiteReport, TestCaseResult,
    TestDuration,
};

fn d(secs: u64, millis: u32) -> TestDuration {
    TestDuration { secs, nanos: millis * 1_000_000 }
}

fn pass_names(report: &SuiteReport) -> Vec<&str> {
    report.passes.iter().map(|p| p.0.as_str()).collect()
}

#[test]
fn empty_report() {
    let report = SuiteReport::default();
    assert_eq!(report.num_fails(), 0);
    assert_eq!(report.num_passes(), 0);
    assert_eq!(report.len(), 0);
    assert_eq!(report.duration, TestDuration { secs: 0, nanos: 0 });
    assert_eq!(report.report(), RunStatus::Success);
}

#[test]
fn passes_are_recorded_in_order() {
    let mut report = SuiteReport::default();
    report.pass("b", &d(1, 0));
    report.pass("a", &d(0, 5));
    assert_eq!(report.num_passes(), 2);
    assert_eq!(report.passes, vec![("b".to_owned(), d(1, 0)), ("a".to_owned(), d(0, 5))]);
    assert_eq!(report.len(), 2);
    assert_eq!(report.report(), RunStatus::Success);
}

#[test]
fn failures_are_recorded_by_name() {
    let mut report = SuiteReport::default();
    report.fail("x", "boom".to_owned());
    report.fail("y", "bang".to_owned());
    assert_eq!(report.num_fails(), 2);
    assert_eq!(report.report(), RunStatus::Failure);
    assert_eq!(report.len(), 2);
}

#[test]
fn a_second_failure_of_a_name_replaces_the_first() {
    let mut report = SuiteReport::default();
    report.fail("x", "first".to_owned());
    report.fail("y", "other".to_owned());
    report.fail("x", "second".to_owned());
    assert_eq!(report.num_fails(), 2);
    let x: Vec<&(String, String)> = report.fails.iter().filter(|f| f.0 == "x").collect();
    assert_eq!(x.len(), 1);
    assert_eq!(x[0].1, "second");
}

#[test]
fn length_counts_passes_and_failures() {
    let mut report = SuiteReport::default();
    report.pass("p1", &d(0, 1));
    report.pass("p2", &d(0, 2));
    report.fail("f1", "no".to_owned());
    assert_eq!(report.len(), 3);
    assert_eq!(report.len(), report.num_fails() + report.num_passes());
}

#[test]
fn sort_by_name_orders_names() {
    let mut report = SuiteReport::default();
    report.pass("lists", &d(0, 30));
    report.pass("arith", &d(2, 0));
    report.pass("maps", &d(0, 10));
    report.pass("Zeta", &d(0, 1));
    report.sort_passes(SortBy::Name);
    assert_eq!(pass_names(&report), vec!["Zeta", "arith", "lists", "maps"]);
}

#[test]
fn sort_by_duration_orders_shortest_first() {
    let mut report = SuiteReport::default();
    report.pass("slow", &d(3, 0));
    report.pass("fast", &d(0, 2));
    report.pass("medium", &d(1, 500));
    report.pass("quick", &d(0, 999));
    report.sort_passes(SortBy::Duration);
    assert_eq!(pass_names(&report), vec!["fast", "quick", "medium", "slow"]);
}

#[test]
fn sort_by_duration_is_stable() {
    let mut report = SuiteReport::default();
    report.pass("c", &d(1, 0));
    report.pass("a", &d(0, 5));
    report.pass("b", &d(1, 0));
    report.pass("d", &d(0, 5));
    report.sort_passes(SortBy::Duration);
    assert_eq!(pass_names(&report), vec!["a", "d", "c", "b"]);
}

#[test]
fn sort_by_name_keeps_order_of_equal_names() {
    let mut report = SuiteReport::default();
    report.pass("t", &d(5, 0));
    report.pass("s", &d(1, 0));
    report.pass("t", &d(2, 0));
    report.sort_passes(SortBy::Name);
    assert_eq!(
        report.passes,
        vec![("s".to_owned(), d(1, 0)), ("t".to_owned(), d(5, 0)), ("t".to_owned(), d(2, 0))]
    );
}

#[test]
fn sorting_twice_is_sorting_once() {
    let mut report = SuiteReport::default();
    for (name, ms) in [("q", 4), ("b", 9), ("x", 1), ("b", 3), ("a", 4)] {
        report.pass(name, &d(0, ms));
    }
    report.sort_passes(SortBy::Duration);
    let once = report.passes.clone();
    report.sort_passes(SortBy::Duration);
    assert_eq!(report.passes, once);
}

#[test]
fn sorting_leaves_failures_and_duration() {
    let mut report = SuiteReport::default();
    report.duration = d(7, 250);
    report.fail("f", "why".to_owned());
    report.pass("b", &d(0, 1));
    report.pass("a", &d(0, 2));
    report.sort_passes(SortBy::Name);
    assert_eq!(report.fails, vec![("f".to_owned(), "why".to_owned())]);
    assert_eq!(report.duration, d(7, 250));
}

#[test]
fn sorting_an_empty_report() {
    let mut report = SuiteReport::default();
    report.sort_passes(SortBy::Name);
    assert!(report.passes.is_empty());
}

#[test]
fn default_sort_is_by_name() {
    assert_eq!(SortBy::default(), SortBy::Name);
}

#[test]
fn text_order_is_byte_order() {
    assert!(text_no_later("a", "b"));
    assert!(!text_no_later("b", "a"));
    assert!(text_no_later("ab", "abc"));
    assert!(!text_no_later("abc", "ab"));
    assert!(text_no_later("", ""));
    assert!(text_no_later("same", "same"));
    assert!(text_no_later("Z", "a"));
    assert!(text_no_later("z", "é"));
}

#[test]
fn duration_order() {
    assert!(d(1, 0).at_most(&d(1, 0)));
    assert!(d(0, 999).at_most(&d(1, 0)));
    assert!(!d(2, 0).at_most(&d(1, 999)));
    assert!(TestDuration { secs: 1, nanos: 5 }.at_most(&TestDuration { secs: 1, nanos: 6 }));
}

#[test]
fn report_from_outcomes() {
    let outcomes = vec![
        ("one".to_owned(), TestCaseResult::Pass(d(0, 12))),
        ("two".to_owned(), TestCaseResult::Fail("compilation error: x".to_owned())),
        ("three".to_owned(), TestCaseResult::Pass(d(1, 0))),
        ("two".to_owned(), TestCaseResult::Fail("again".to_owned())),
    ];
    let report = SuiteReport::from_outcomes(&outcomes, d(3, 1));
    assert_eq!(report.passes, vec![("one".to_owned(), d(0, 12)), ("three".to_owned(), d(1, 0))]);
    assert_eq!(report.fails, vec![("two".to_owned(), "again".to_owned())]);
    assert_eq!(report.duration, d(3, 1));
    assert_eq!(report.report(), RunStatus::Failure);
}

#[test]
fn report_from_no_outcomes() {
    let report = SuiteReport::from_outcomes(&Vec::new(), d(0, 0));
    assert_eq!(report.len(), 0);
    assert_eq!(report.report(), RunStatus::Success);
}

#[test]
fn a_failure_ends_a_fail_fast_run() {
    let fail = TestCaseResult::Fail("x".to_owned());
    let pass = TestCaseResult::Pass(d(0, 1));
    assert!(fail.ends_run(true));
    assert!(!fail.ends_run(false));
    assert!(!pass.ends_run(true));
    assert!(!pass.ends_run(false));
}

#[test]
fn read_failure_names_the_error() {
    match TestCaseResult::read_failure("No such file or directory (os error 2)") {
        TestCaseResult::Fail(why) => assert_eq!(why, "I/O error: No such file or directory (os error 2)"),
        TestCaseResult::Pass(_) => panic!("expected a failure"),
    }
}

#[test]
fn compile_failure_joins_messages_by_lines() {
    let messages = vec!["first problem".to_owned(), "second problem".to_owned()];
    match TestCaseResult::compile_failure(&messages) {
        TestCaseResult::Fail(why) => assert_eq!(why, "compilation error: first problem\nsecond problem"),
        TestCaseResult::Pass(_) => panic!("expected a failure"),
    }
    match TestCaseResult::compile_failure(&Vec::new()) {
        TestCaseResult::Fail(why) => assert_eq!(why, "compilation error: "),
        TestCaseResult::Pass(_) => panic!("expected a failure"),
    }
}

#[test]
fn seconds_text_pads_milliseconds() {
    assert_eq!(d(2, 45).seconds_text(), "2.045");
    assert_eq!(d(0, 7).seconds_text(), "0.007");
    assert_eq!(d(13, 250).seconds_text(), "13.250");
    assert_eq!(TestDuration { secs: 1, nanos: 999_999 }.seconds_text(), "1.000");
}

#[test]
fn pass_line_names_the_test_and_time() {
    assert_eq!(pass_line("lists", &d(1, 5)), "lists ✅ [in 1.005 seconds]");
}

#[test]
fn failure_lines_give_name_and_reason() {
    let (first, second) = failure_lines("maps", "assertion failed");
    assert_eq!(first, "maps ❌");
    assert_eq!(second, "   reason: assertion failed");
}

#[test]
fn summary_line_counts_everything() {
    let mut report = SuiteReport::default();
    report.pass("a", &d(0, 1));
    report.pass("b", &d(0, 1));
    report.fail("c", "no".to_owned());
    report.duration = d(12, 34);
    assert_eq!(report.summary_line(), "3 test(s) total - 2 passed, 1 failed - in 12.034 seconds");
}

#[test]
fn full_report_when_failing_or_verbose() {
    let mut report = SuiteReport::default();
    report.pass("a", &d(0, 1));
    assert!(!report.needs_full_report(false));
    assert!(report.needs_full_report(true));
    report.fail("b", "no".to_owned());
    assert!(report.needs_full_report(false));
}
