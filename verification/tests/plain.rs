use manifest_install::report::{bar_template, finished_line, found_line};

#[test]
fn lines_are_plain_while_painting_is_switched_off() {
    yansi::Paint::disable();
    assert_eq!(found_line(3), "     Peeking found 3 crates to install");
    assert_eq!(bar_template(), "  Installing [{bar:25.white/white}] {pos:>7}/{len:7} {msg}");
    assert_eq!(finished_line(), "  Finished install");

    yansi::Paint::enable();
    assert_eq!(found_line(3), "     \u{1b}[1;32mPeeking\u{1b}[0m found 3 crates to install");
    assert_eq!(finished_line(), "  \u{1b}[1;32mFinished install\u{1b}[0m");
}
