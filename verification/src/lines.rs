//! The lines of text a run reports, as values.

use vstd::prelude::*;
use vstd::string::StringExecFns;
use crate::outcome::Classification;

verus! {

/// The line for an outcome that matched the target.
pub open spec fn match_line() -> Seq<char> {
    "This is number 3"@
}

/// The line for every other outcome.
pub open spec fn other_line() -> Seq<char> {
    "This is not 3"@
}

/// What a worker's line starts with, before its index.
pub open spec fn worker_prefix() -> Seq<char> {
    "This is thread number: "@
}

/// The line that reports a class.
pub open spec fn line_of(class: Classification) -> Seq<char> {
    match class {
        Classification::IsTarget => match_line(),
        Classification::NotTarget => other_line(),
    }
}

/// The character of one decimal digit.
pub open spec fn digit_char(digit: nat) -> char
    recommends
        digit < 10,
{
    if digit == 0 {
        '0'
    } else if digit == 1 {
        '1'
    } else if digit == 2 {
        '2'
    } else if digit == 3 {
        '3'
    } else if digit == 4 {
        '4'
    } else if digit == 5 {
        '5'
    } else if digit == 6 {
        '6'
    } else if digit == 7 {
        '7'
    } else if digit == 8 {
        '8'
    } else {
        '9'
    }
}

/// A number in decimal: most significant digit first, no leading zero, and
/// the single digit `0` for zero.
pub open spec fn decimal(n: nat) -> Seq<char>
    decreases n,
{
    if n < 10 {
        seq![digit_char(n)]
    } else {
        decimal(n / 10).push(digit_char(n % 10))
    }
}

/// The line a worker reports when it starts.
pub open spec fn worker_line(index: u32) -> Seq<char> {
    worker_prefix() + decimal(index as nat)
}

/// The text of one decimal digit.
fn digit_text(digit: u32) -> (text: &'static str)
    requires
        digit < 10,
    ensures
        text@ == seq![digit_char(digit as nat)],
{
    proof {
        reveal_strlit("0");
        reveal_strlit("1");
        reveal_strlit("2");
        reveal_strlit("3");
        reveal_strlit("4");
        reveal_strlit("5");
        reveal_strlit("6");
        reveal_strlit("7");
        reveal_strlit("8");
        reveal_strlit("9");
    }
    let text: &'static str = match digit {
        0 => "0",
        1 => "1",
        2 => "2",
        3 => "3",
        4 => "4",
        5 => "5",
        6 => "6",
        7 => "7",
        8 => "8",
        _ => "9",
    };
    assert(text@ =~= seq![digit_char(digit as nat)]);
    text
}

/// Appends a number in decimal to a line.
fn push_decimal(line: &mut String, n: u32)
    ensures
        final(line)@ == old(line)@ + decimal(n as nat),
    decreases n,
{
    if n >= 10 {
        push_decimal(line, n / 10);
    }
    line.append(digit_text(n % 10));
    assert(line@ =~= old(line)@ + decimal(n as nat));
}

/// The line that reports a class.
pub fn classification_line(class: Classification) -> (line: &'static str)
    ensures
        line@ == line_of(class),
{
    match class {
        Classification::IsTarget => "This is number 3",
        Classification::NotTarget => "This is not 3",
    }
}

/// The line a worker reports when it starts: a fixed prefix, then its index
/// in decimal.
pub fn thread_line(index: u32) -> (line: String)
    ensures
        line@ == worker_line(index),
{
    let mut line = String::from_str("This is thread number: ");
    push_decimal(&mut line, index);
    line
}

/// The lines of a whole report, in its order.
pub fn report_lines(report: &Vec<Classification>) -> (lines: Vec<&'static str>)
    ensures
        lines.len() == report.len(),
        forall|i: int| 0 <= i < report.len() ==> (#[trigger] lines[i])@ == line_of(report[i]),
{
    let mut lines: Vec<&'static str> = Vec::new();
    let mut i: usize = 0;
    while i < report.len()
        invariant
            i <= report.len(),
            lines.len() == i,
            forall|j: int| 0 <= j < i ==> (#[trigger] lines[j])@ == line_of(report[j]),
        decreases report.len() - i,
    {
        lines.push(classification_line(report[i]));
        i += 1;
    }
    lines
}

} // verus!
