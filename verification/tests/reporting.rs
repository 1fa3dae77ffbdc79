use manifest_install::output::{OutputPolicy, StreamRouting};
use manifest_install::progress::Progress;
use manifest_install::report::{
    bar_template, decimal, finished_line, found_line, status_line, BAR_CHARS,
};

#[test]
fn streams_are_suppressed_only_when_silent_and_not_verbose() {
    let routing = |silent: bool, verbose: bool| OutputPolicy { silent, verbose }.routing();
    assert_eq!(routing(true, false), StreamRouting::Suppress);
    assert_eq!(routing(true, true), StreamRouting::Inherit);
    assert_eq!(routing(false, false), StreamRouting::Inherit);
    assert_eq!(routing(false, true), StreamRouting::Inherit);
}

#[test]
fn only_a_failure_is_reported_and_only_when_not_silent() {
    let loud = OutputPolicy { silent: false, verbose: false };
    let silent = OutputPolicy { silent: true, verbose: true };
    assert!(loud.reports_failure(false));
    assert!(!loud.reports_failure(true));
    assert!(!silent.reports_failure(false));
    assert!(!silent.reports_failure(true));
}

#[test]
fn progress_starts_at_zero_with_an_empty_label() {
    let progress = Progress::new(3);
    assert_eq!(progress.total(), 3);
    assert_eq!(progress.position(), 0);
    assert_eq!(progress.label(), "");
    assert!(!progress.is_finished());
}

#[test]
fn progress_counts_by_one() {
    let mut progress = Progress::new(3);
    progress.inc();
    assert_eq!(progress.position(), 1);
    progress.inc();
    assert_eq!(progress.position(), 2);
    assert_eq!(progress.total(), 3);
}

#[test]
fn progress_does_not_count_past_the_total() {
    let mut progress = Progress::new(1);
    progress.inc();
    progress.inc();
    assert_eq!(progress.position(), 1);

    let mut empty = Progress::new(0);
    empty.inc();
    assert_eq!(empty.position(), 0);
}

#[test]
fn progress_label_and_finish_leave_the_count_alone() {
    let mut progress = Progress::new(2);
    progress.inc();
    progress.set_label("foo");
    assert_eq!(progress.label(), "foo");
    assert_eq!(progress.position(), 1);
    progress.finish();
    assert!(progress.is_finished());
    assert_eq!(progress.position(), 1);
    assert_eq!(progress.label(), "foo");
}

#[test]
fn numbers_are_written_in_decimal() {
    assert_eq!(decimal(0), "0");
    assert_eq!(decimal(7), "7");
    assert_eq!(decimal(9), "9");
    assert_eq!(decimal(10), "10");
    assert_eq!(decimal(101), "101");
    assert_eq!(decimal(12345), "12345");
    assert_eq!(decimal(usize::MAX), usize::MAX.to_string());
}

#[test]
fn status_line_is_put_together_in_order() {
    assert_eq!(status_line("  ", "Verb", " rest"), "  Verb rest");
    assert_eq!(status_line("", "", ""), "");
}

#[test]
fn found_line_counts_the_dependencies_behind_a_bold_green_verb() {
    assert_eq!(found_line(2), "     \u{1b}[1;32mPeeking\u{1b}[0m found 2 crates to install");
    assert_eq!(found_line(0), "     \u{1b}[1;32mPeeking\u{1b}[0m found 0 crates to install");
    assert_eq!(found_line(120), "     \u{1b}[1;32mPeeking\u{1b}[0m found 120 crates to install");
}

#[test]
fn bar_template_names_position_length_and_message() {
    assert_eq!(
        bar_template(),
        "  \u{1b}[1;32mInstalling\u{1b}[0m [{bar:25.white/white}] {pos:>7}/{len:7} {msg}"
    );
    assert_eq!(BAR_CHARS, "=> ");
}

#[test]
fn finished_line_is_the_bold_green_verb_alone() {
    assert_eq!(finished_line(), "  \u{1b}[1;32mFinished install\u{1b}[0m");
}
