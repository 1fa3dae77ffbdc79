//! The lines that tell the user how the run is going.

use vstd::prelude::*;
use vstd::string::*;

verus! {

/// The characters that draw the bar: done, head, to do.
pub const BAR_CHARS: &'static str = "=> ";

/// The digit that stands for `d`, where `d` is below ten.
pub open spec fn digit(d: nat) -> char {
    if d == 0 {
        '0'
    } else if d == 1 {
        '1'
    } else if d == 2 {
        '2'
    } else if d == 3 {
        '3'
    } else if d == 4 {
        '4'
    } else if d == 5 {
        '5'
    } else if d == 6 {
        '6'
    } else if d == 7 {
        '7'
    } else if d == 8 {
        '8'
    } else {
        '9'
    }
}

/// The number in decimal digits, without leading zeros.
pub open spec fn decimal_text(n: nat) -> Seq<char>
    decreases n,
{
    if n < 10 {
        seq![digit(n)]
    } else {
        decimal_text(n / 10).push(digit(n % 10))
    }
}

/// The text in bold green, as a terminal that reads ANSI escape codes shows it.
pub open spec fn accented(text: Seq<char>) -> Seq<char> {
    "\x1B[1;32m"@ + text + "\x1B[0m"@
}

/// `line` is `indent`, the verb, plain or accented, and `rest`.
pub open spec fn is_status_line(
    line: Seq<char>,
    indent: Seq<char>,
    verb: Seq<char>,
    rest: Seq<char>,
) -> bool {
    line == indent + verb + rest || line == indent + accented(verb) + rest
}

/// What follows the verb where the run says how many dependencies it found.
pub open spec fn found_rest(count: nat) -> Seq<char> {
    " found "@ + decimal_text(count) + " crates to install"@
}

/// What follows the verb in the template of the progress bar.
pub open spec fn bar_rest() -> Seq<char> {
    " [{bar:25.white/white}] {pos:>7}/{len:7} {msg}"@
}

/// Renders `text` through `yansi::Paint::green(text).bold()`. The crate
/// writes the text between the escape codes for bold green and for reset
/// while its painting is switched on, which it is unless the process has
/// switched it off, and the text alone otherwise.
#[verifier::external_body]
fn accent(text: &str) -> (styled: String)
    ensures
        styled@ == text@ || styled@ == accented(text@),
{
    format!("{}", yansi::Paint::green(text).bold())
}

/// The one digit of a number below ten.
fn digit_text(d: usize) -> (text: &'static str)
    requires
        d < 10,
    ensures
        text@ == seq![digit(d as nat)],
{
    proof {
        reveal_strlit("0");
        reveal_strlit("1");
        reveal_strlit("2");
        reveal_strlit("3");
        reveal_strlit("4");
        reveal_strlit("5");
        reveal_strlit("6");
        reveal_strlit("7");
        reveal_strlit("8");
        reveal_strlit("9");
    }
    let text = match d {
        0 => "0",
        1 => "1",
        2 => "2",
        3 => "3",
        4 => "4",
        5 => "5",
        6 => "6",
        7 => "7",
        8 => "8",
        _ => "9",
    };
    assert(text@ =~= seq![digit(d as nat)]);
    text
}

/// Writes the number in decimal digits.
pub fn decimal(n: usize) -> (text: String)
    ensures
        text@ == decimal_text(n as nat),
    decreases n,
{
    if n < 10 {
        digit_text(n).to_owned()
    } else {
        let mut text = decimal(n / 10);
        text.append(digit_text(n % 10));
        text
    }
}

/// Puts a status line together: the indentation, the verb as it is to be
/// shown, and the rest.
pub fn status_line(indent: &str, verb: &str, rest: &str) -> (line: String)
    ensures
        line@ == indent@ + verb@ + rest@,
{
    let mut line = indent.to_owned();
    line.append(verb);
    line.append(rest);
    line
}

/// The line that says how many dependencies the manifest declares.
pub fn found_line(count: usize) -> (line: String)
    ensures
        is_status_line(line@, "     "@, "Peeking"@, found_rest(count as nat)),
{
    let mut rest = " found ".to_owned();
    rest.append(decimal(count).as_str());
    rest.append(" crates to install");
    let verb = accent("Peeking");
    status_line("     ", verb.as_str(), rest.as_str())
}

/// The template from which the progress bar is drawn.
pub fn bar_template() -> (line: String)
    ensures
        is_status_line(line@, "  "@, "Installing"@, bar_rest()),
{
    let verb = accent("Installing");
    status_line("  ", verb.as_str(), " [{bar:25.white/white}] {pos:>7}/{len:7} {msg}")
}

/// The line that says that every dependency is installed.
pub fn finished_line() -> (line: String)
    ensures
        is_status_line(line@, "  "@, "Finished install"@, Seq::empty()),
{
    let verb = accent("Finished install");
    proof {
        reveal_strlit("");
        assert(""@ =~= Seq::<char>::empty());
    }
    status_line("  ", verb.as_str(), "")
}

} // verus!
