//! The lines shown to the user.

use crate::tokens::{TokenUsage, Usage};
use vstd::prelude::*;

verus! {

/// The character of a decimal digit.
pub open spec fn digit_char(digit: nat) -> char {
    if digit == 0 {
        '0'
    } else if digit == 1 {
        '1'
    } else if digit == 2 {
        '2'
    } else if digit == 3 {
        '3'
    } else if digit == 4 {
        '4'
    } else if digit == 5 {
        '5'
    } else if digit == 6 {
        '6'
    } else if digit == 7 {
        '7'
    } else if digit == 8 {
        '8'
    } else {
        '9'
    }
}

/// A number written in decimal, without leading zeros.
pub open spec fn decimal(n: nat) -> Seq<char>
    decreases n,
{
    if n < 10 {
        seq![digit_char(n)]
    } else {
        decimal(n / 10).push(digit_char(n % 10))
    }
}

/// Returns a decimal digit as text.
fn digit_text(digit: u8) -> (text: &'static str)
    requires
        digit < 10,
    ensures
        text@ == seq![digit_char(digit as nat)],
{
    proof {
        reveal_strlit("0");
        reveal_strlit("1");
        reveal_strlit("2");
        reveal_strlit("3");
        reveal_strlit("4");
        reveal_strlit("5");
        reveal_strlit("6");
        reveal_strlit("7");
        reveal_strlit("8");
        reveal_strlit("9");
    }
    let text = if digit == 0 {
        "0"
    } else if digit == 1 {
        "1"
    } else if digit == 2 {
        "2"
    } else if digit == 3 {
        "3"
    } else if digit == 4 {
        "4"
    } else if digit == 5 {
        "5"
    } else if digit == 6 {
        "6"
    } else if digit == 7 {
        "7"
    } else if digit == 8 {
        "8"
    } else {
        "9"
    };
    assert(text@ =~= seq![digit_char(digit as nat)]);
    text
}

/// Writes a number in decimal.
pub fn decimal_text(n: u128) -> (text: String)
    ensures
        text@ == decimal(n as nat),
    decreases n,
{
    if n < 10 {
        String::from_str(digit_text(n as u8))
    } else {
        let mut text = decimal_text(n / 10);
        text.append(digit_text((n % 10) as u8));
        text
    }
}

/// The three lines that report the token counts: text, prompt, total.
pub open spec fn usage_report(usage: Usage) -> Seq<Seq<char>> {
    seq![
        "Number of tokens in the text file: "@ + decimal(usage.text_tokens),
        "Number of tokens in parent prompt: "@ + decimal(usage.prompt_tokens),
        "Total number of tokens: "@ + decimal(usage.sum()),
    ]
}

/// The line that reports a total over the ceiling.
pub open spec fn over_budget_line(usage: Usage, ceiling: nat) -> Seq<char> {
    "The total number of tokens ("@ + decimal(usage.sum())
        + ") exceeds the maximum allowed tokens for the model ("@ + decimal(ceiling)
        + "). Please reduce the input size."@
}

/// The character content of each line.
pub open spec fn lines_of(lines: Seq<String>) -> Seq<Seq<char>> {
    Seq::new(lines.len(), |i: int| lines[i]@)
}

/// Joins a label and a number into one line.
pub fn labelled(label: &str, n: u128) -> (line: String)
    ensures
        line@ == label@ + decimal(n as nat),
{
    let mut line = String::from_str(label);
    line.append(decimal_text(n).as_str());
    line
}

/// Reports the token counts.
pub fn usage_lines(usage: &TokenUsage) -> (lines: Vec<String>)
    ensures
        lines_of(lines@) == usage_report(usage@),
{
    let mut lines: Vec<String> = Vec::new();
    lines.push(labelled("Number of tokens in the text file: ", usage.text_tokens as u128));
    lines.push(labelled("Number of tokens in parent prompt: ", usage.prompt_tokens as u128));
    lines.push(labelled("Total number of tokens: ", usage.total()));
    proof {
        assert(lines_of(lines@) =~= usage_report(usage@));
    }
    lines
}

/// Reports a total over the ceiling.
pub fn over_budget_message(usage: &TokenUsage, ceiling: u64) -> (line: String)
    ensures
        line@ == over_budget_line(usage@, ceiling as nat),
{
    let mut line = labelled("The total number of tokens (", usage.total());
    line.append(") exceeds the maximum allowed tokens for the model (");
    line.append(decimal_text(ceiling as u128).as_str());
    line.append("). Please reduce the input size.");
    line
}

} // verus!
