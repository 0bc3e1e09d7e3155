//! The output line for a resolved invocation and the text it read.
use vstd::prelude::*;
use crate::config::{Config, Flag};
use crate::counters::{
    byte_size, line_count, word_count, get_num_char, get_num_lines, get_num_words,
    get_size_in_bytes,
};

verus! {

/// The character of the decimal digit `d`.
pub open spec fn digit_char(d: nat) -> char {
    (d + 48) as char
}

/// The decimal digits of `n`, most significant first, with no leading zero.
pub open spec fn decimal(n: nat) -> Seq<char>
    decreases n,
{
    if n < 10 {
        seq![digit_char(n)]
    } else {
        decimal(n / 10).push(digit_char(n % 10))
    }
}

/// The output line for the counts of `text` in `mode`, with `label` after
/// them. The default mode gives lines, words and bytes, with two spaces
/// after the line count.
pub open spec fn report_line(mode: Flag, label: Seq<char>, text: Seq<char>) -> Seq<char> {
    let space = seq![' '];
    match mode {
        Flag::Size => decimal(byte_size(text)) + space + label,
        Flag::Line => decimal(line_count(text)) + space + label,
        Flag::Word => decimal(word_count(text)) + space + label,
        Flag::Char => decimal(text.len()) + space + label,
        Flag::Default => decimal(line_count(text)) + seq![' ', ' '] + decimal(word_count(text))
            + space + decimal(byte_size(text)) + space + label,
    }
}

fn digit_text(d: usize) -> (r: &'static str)
    requires
        d < 10,
    ensures
        r@ == seq![digit_char(d as nat)],
{
    match d {
        0 => {
            proof { reveal_strlit("0"); }
            "0"
        },
        1 => {
            proof { reveal_strlit("1"); }
            "1"
        },
        2 => {
            proof { reveal_strlit("2"); }
            "2"
        },
        3 => {
            proof { reveal_strlit("3"); }
            "3"
        },
        4 => {
            proof { reveal_strlit("4"); }
            "4"
        },
        5 => {
            proof { reveal_strlit("5"); }
            "5"
        },
        6 => {
            proof { reveal_strlit("6"); }
            "6"
        },
        7 => {
            proof { reveal_strlit("7"); }
            "7"
        },
        8 => {
            proof { reveal_strlit("8"); }
            "8"
        },
        _ => {
            proof { reveal_strlit("9"); }
            "9"
        },
    }
}

/// Appends the decimal digits of `n` to `out`.
fn push_decimal(out: &mut String, n: usize)
    ensures
        final(out)@ == old(out)@ + decimal(n as nat),
    decreases n,
{
    if n >= 10 {
        push_decimal(out, n / 10);
    }
    out.append(digit_text(n % 10));
    proof {
        if n >= 10 {
            assert(decimal(n as nat) == decimal((n / 10) as nat).push(digit_char((n % 10) as nat)));
        }
    }
}

/// The output line, without a line break, for `config` on the text
/// `contents` that it read.
pub fn format_report(config: &Config, contents: &str) -> (r: String)
    ensures
        r@ == report_line(config@.mode, config@.path, contents@),
{
    let mut out = String::new();
    proof {
        reveal_strlit(" ");
        reveal_strlit("  ");
    }
    match config.command() {
        Flag::Size => push_decimal(&mut out, get_size_in_bytes(contents)),
        Flag::Line => push_decimal(&mut out, get_num_lines(contents)),
        Flag::Word => push_decimal(&mut out, get_num_words(contents)),
        Flag::Char => push_decimal(&mut out, get_num_char(contents)),
        Flag::Default => {
            push_decimal(&mut out, get_num_lines(contents));
            out.append("  ");
            push_decimal(&mut out, get_num_words(contents));
            out.append(" ");
            push_decimal(&mut out, get_size_in_bytes(contents));
        },
    }
    out.append(" ");
    out.append(config.file_path());
    proof {
        assert(out@ =~= report_line(config@.mode, config@.path, contents@));
    }
    out
}

} // verus!
