//! Headers: a splash text over a rule as wide as its widest line, then an
//! optional note, drawn in a box.
use vstd::prelude::*;

use crate::ui::utils::{
    box_lines, box_rows, box_fits, chars_of, line_widths, lines_of, max_of, repeat_char, seq_max,
    split_lines, views, visual_widths,
};

verus! {

/// Unicode White_Space: tab, line feed, vertical tab, form feed, carriage
/// return, space, next line, no-break space, ogham space mark, the spaces
/// U+2000 to U+200A, line and paragraph separators, the narrow no-break,
/// medium mathematical and ideographic spaces.
pub open spec fn is_white_space(c: char) -> bool {
    ||| '\t' <= c && c <= '\r'
    ||| c == ' '
    ||| c == '\u{85}'
    ||| c == '\u{A0}'
    ||| c == '\u{1680}'
    ||| '\u{2000}' <= c && c <= '\u{200A}'
    ||| c == '\u{2028}'
    ||| c == '\u{2029}'
    ||| c == '\u{202F}'
    ||| c == '\u{205F}'
    ||| c == '\u{3000}'
}

/// Whether `c` is Unicode white space (see `is_white_space`).
pub fn white_space(c: char) -> (b: bool)
    ensures
        b == is_white_space(c),
{
    ('\t' <= c && c <= '\r') || c == ' ' || c == '\u{85}' || c == '\u{A0}' || c == '\u{1680}' || (
    '\u{2000}' <= c && c <= '\u{200A}') || c == '\u{2028}' || c == '\u{2029}' || c == '\u{202F}'
        || c == '\u{205F}' || c == '\u{3000}'
}

/// `s` without its trailing white space, or only without its trailing
/// newlines when `newlines_only`.
pub open spec fn trim_end_by(s: Seq<char>, newlines_only: bool) -> Seq<char>
    decreases s.len(),
{
    if s.len() > 0 && (if newlines_only { s.last() == '\n' } else { is_white_space(s.last()) }) {
        trim_end_by(s.drop_last(), newlines_only)
    } else {
        s
    }
}

/// `s` made only of white space (so that trimming it leaves nothing).
pub open spec fn all_white(s: Seq<char>) -> bool {
    forall|i: int| 0 <= i < s.len() ==> #[trigger] is_white_space(s[i])
}

proof fn lemma_trim_end_prefix(s: Seq<char>, newlines_only: bool, k: int)
    requires
        0 <= k <= s.len(),
        forall|j: int|
            k <= j < s.len() ==> (if newlines_only {
                #[trigger] s[j] == '\n'
            } else {
                is_white_space(s[j])
            }),
        k == 0 || !(if newlines_only { s[k - 1] == '\n' } else { is_white_space(s[k - 1]) }),
    ensures
        trim_end_by(s, newlines_only) == s.take(k),
    decreases s.len(),
{
    if s.len() > k {
        assert(s.drop_last().len() == s.len() - 1);
        lemma_trim_end_prefix(s.drop_last(), newlines_only, k);
        assert(s.drop_last().take(k) =~= s.take(k));
    } else {
        assert(s.take(k) =~= s);
    }
}

fn trimmed_char(c: char, newlines_only: bool) -> (b: bool)
    ensures
        b == (if newlines_only { c == '\n' } else { is_white_space(c) }),
{
    if newlines_only {
        c == '\n'
    } else {
        white_space(c)
    }
}

/// `s` without its trailing white space (or only its trailing newlines).
pub fn trim_end(s: &str, newlines_only: bool) -> (r: String)
    ensures
        r@ == trim_end_by(s@, newlines_only),
{
    let chars = chars_of(s);
    let mut k: usize = chars.len();
    while k > 0 && trimmed_char(chars[k - 1], newlines_only)
        invariant
            k <= chars@.len(),
            chars@ == s@,
            forall|j: int|
                k <= j < s@.len() ==> (if newlines_only {
                    #[trigger] s@[j] == '\n'
                } else {
                    is_white_space(s@[j])
                }),
        decreases k,
    {
        k = k - 1;
    }
    proof {
        lemma_trim_end_prefix(s@, newlines_only, k as int);
    }
    String::from_str(s.substring_char(0, k))
}

/// Whether `s` is made only of white space.
pub fn is_blank(s: &str) -> (b: bool)
    ensures
        b == all_white(s@),
{
    let chars = chars_of(s);
    let mut i: usize = 0;
    while i < chars.len()
        invariant
            i <= chars@.len(),
            chars@ == s@,
            forall|j: int| 0 <= j < i ==> #[trigger] is_white_space(s@[j]),
        decreases chars@.len() - i,
    {
        if !white_space(chars[i]) {
            return false;
        }
        i = i + 1;
    }
    true
}

/// A header: the splash without its trailing newlines, a newline, a rule
/// of `max_width` columns, and, when `additional` is not blank, a newline
/// and `additional` ending in a newline.
pub open spec fn header_text(splash: Seq<char>, additional: Seq<char>, max_width: int) -> Seq<char> {
    trim_end_by(splash, true) + seq!['\n'] + repeat_char('─', max_width) + if all_white(additional) {
        Seq::empty()
    } else if additional.last() == '\n' {
        seq!['\n'] + additional
    } else {
        seq!['\n'] + additional + seq!['\n']
    }
}

/// The header for `splash` and `additional_text` with a rule of
/// `max_width` columns (see `header_text`).
pub fn format_header_with_width(splash: &str, additional_text: &str, max_width: usize) -> (text: String)
    ensures
        text@ == header_text(splash@, additional_text@, max_width as int),
{
    let mut text = trim_end(splash, true);
    text.append("\n");
    let mut i: usize = 0;
    let ghost head = text@;
    while i < max_width
        invariant
            i <= max_width,
            text@ == head + repeat_char('─', i as int),
        decreases max_width - i,
    {
        text.append("─");
        proof {
            reveal_strlit("─");
        }
        assert(text@ =~= head + repeat_char('─', i + 1));
        i = i + 1;
    }
    if !is_blank(additional_text) {
        text.append("\n");
        text.append(additional_text);
        let chars = chars_of(additional_text);
        assert(chars@.len() > 0) by {
            if chars@.len() == 0 {
                assert(all_white(additional_text@));
            }
        }
        if chars[chars.len() - 1] != '\n' {
            text.append("\n");
        }
    }
    proof {
        reveal_strlit("\n");
    }
    assert(text@ =~= header_text(splash@, additional_text@, max_width as int));
    text
}

/// The widest visual width among the lines of `s`.
pub open spec fn widest_line(s: Seq<char>) -> usize {
    seq_max(visual_widths(lines_of(s)))
}

/// The header for `splash` and `additional_text`: its rule is as wide as
/// the widest line of the splash, measured without escape sequences.
pub fn format_header(splash: &str, additional_text: &str) -> (text: String)
    ensures
        text@ == header_text(splash@, additional_text@, widest_line(splash@) as int),
{
    let lines = split_lines(splash);
    let widths = line_widths(&lines);
    let max_width = max_of(&widths);
    format_header_with_width(splash, additional_text, max_width)
}

/// The boxed header: the rows of a box around the header for `splash` and
/// `additional_text`, its trailing white space removed; `None` when a line
/// is too wide for the box to be measured.
pub fn ui_header(splash: &str, additional_text: &str) -> (rows: Option<Vec<String>>)
    ensures
        ({
            let t = trim_end_by(header_text(splash@, additional_text@, widest_line(splash@) as int), false);
            &&& rows is Some <==> box_fits(t)
            &&& rows matches Some(r) ==> views(r@) == box_rows(lines_of(t), visual_widths(lines_of(t)))
        }),
{
    let header = format_header(splash, additional_text);
    let trimmed = trim_end(header.as_str(), false);
    box_lines(trimmed.as_str())
}

} // verus!
