//! ANSI-aware text handling: escape stripping, display width, lines and
//! boxed text.
use vstd::prelude::*;

verus! {

/// The escape character that opens an ANSI sequence.
pub const ESC: char = '\x1b';

/// Appends `c` to `s` (std's `String::push`).
#[verifier::external_body]
fn string_push(s: &mut String, c: char)
    ensures
        final(s)@ == old(s)@.push(c),
{
    s.push(c)
}

/// The characters of `s`, one by one.
pub fn chars_of(s: &str) -> (v: Vec<char>)
    ensures
        v@ == s@,
{
    let mut v: Vec<char> = Vec::new();
    for c in it: s.chars()
        invariant
            v@ == it.seq().take(it.index() as int),
    {
        v.push(c);
    }
    v
}

/// Where the scan of an ANSI-coloured text stands: in plain text, just
/// after an escape character, or inside a control sequence.
pub enum AnsiState {
    Text,
    Escape,
    Csi,
}

/// An ASCII letter, which ends a control sequence.
pub open spec fn is_ascii_letter(c: char) -> bool {
    ('a' <= c && c <= 'z') || ('A' <= c && c <= 'Z')
}

/// One step of the scan: the state after `c`, and whether `c` is kept.
/// An escape opens a sequence and the character after it is dropped; when
/// that character is `[` everything up to and including the next ASCII
/// letter is dropped too.
pub open spec fn ansi_step(st: AnsiState, c: char) -> (AnsiState, bool) {
    match st {
        AnsiState::Text => if c == ESC {
            (AnsiState::Escape, false)
        } else {
            (AnsiState::Text, true)
        },
        AnsiState::Escape => if c == '[' {
            (AnsiState::Csi, false)
        } else {
            (AnsiState::Text, false)
        },
        AnsiState::Csi => if is_ascii_letter(c) {
            (AnsiState::Text, false)
        } else {
            (AnsiState::Csi, false)
        },
    }
}

/// The scan of `s`: the state at its end and the characters kept.
pub open spec fn ansi_scan(s: Seq<char>) -> (AnsiState, Seq<char>)
    decreases s.len(),
{
    if s.len() == 0 {
        (AnsiState::Text, Seq::empty())
    } else {
        let (st, kept) = ansi_scan(s.drop_last());
        let (next, keep) = ansi_step(st, s.last());
        (next, if keep { kept.push(s.last()) } else { kept })
    }
}

/// `s` without its ANSI escape sequences.
pub open spec fn ansi_stripped(s: Seq<char>) -> Seq<char> {
    ansi_scan(s).1
}

fn ansi_next(st: &AnsiState, c: char) -> (r: (AnsiState, bool))
    ensures
        r == ansi_step(*st, c),
{
    match st {
        AnsiState::Text => if c == ESC {
            (AnsiState::Escape, false)
        } else {
            (AnsiState::Text, true)
        },
        AnsiState::Escape => if c == '[' {
            (AnsiState::Csi, false)
        } else {
            (AnsiState::Text, false)
        },
        AnsiState::Csi => if ('a' <= c && c <= 'z') || ('A' <= c && c <= 'Z') {
            (AnsiState::Text, false)
        } else {
            (AnsiState::Csi, false)
        },
    }
}

/// `s` without its ANSI escape sequences (see `ansi_step`); text without
/// an escape character comes back unchanged.
pub fn strip_ansi(s: &str) -> (r: String)
    ensures
        r@ == ansi_stripped(s@),
{
    let chars = chars_of(s);
    let mut out = String::new();
    let mut st = AnsiState::Text;
    let mut i: usize = 0;
    while i < chars.len()
        invariant
            i <= chars@.len(),
            chars@ == s@,
            (st, out@) == ansi_scan(s@.take(i as int)),
        decreases chars@.len() - i,
    {
        let c = chars[i];
        assert(s@.take(i + 1).drop_last() =~= s@.take(i as int));
        let (next, keep) = ansi_next(&st, c);
        if keep {
            string_push(&mut out, c);
        }
        st = next;
        i = i + 1;
    }
    assert(s@.take(i as int) =~= s@);
    out
}

/// Text without an escape character is its own stripped form.
pub proof fn lemma_strip_ansi_plain(s: Seq<char>)
    requires
        !s.contains(ESC),
    ensures
        ansi_stripped(s) == s,
        ansi_scan(s).0 is Text,
    decreases s.len(),
{
    if s.len() > 0 {
        assert(!s.drop_last().contains(ESC)) by {
            if s.drop_last().contains(ESC) {
                let j = choose|j: int| 0 <= j < s.drop_last().len() && s.drop_last()[j] == ESC;
                assert(s[j] == ESC);
            }
        }
        lemma_strip_ansi_plain(s.drop_last());
        assert(s.last() != ESC) by {
            assert(s[s.len() - 1] == s.last());
        }
        assert(s.drop_last().push(s.last()) =~= s);
    }
}

/// Stripping leaves no escape character behind and never lengthens the
/// text.
pub proof fn lemma_strip_ansi_clean(s: Seq<char>)
    ensures
        !ansi_stripped(s).contains(ESC),
        ansi_stripped(s).len() <= s.len(),
    decreases s.len(),
{
    if s.len() > 0 {
        lemma_strip_ansi_clean(s.drop_last());
        let (st, kept) = ansi_scan(s.drop_last());
        let (next, keep) = ansi_step(st, s.last());
        if keep {
            assert(s.last() != ESC);
            assert forall|j: int| 0 <= j < kept.push(s.last()).len() implies kept.push(s.last())[j]
                != ESC by {
                if j < kept.len() {
                    assert(kept.push(s.last())[j] == kept[j]);
                    if kept[j] == ESC {
                        assert(kept.contains(ESC));
                    }
                }
            }
        }
    }
}

/// Scanning `a` and then `t`, when `a` ends in plain text, keeps what the
/// scan of `a` keeps followed by what the scan of `t` keeps.
pub proof fn lemma_ansi_scan_append(a: Seq<char>, t: Seq<char>)
    requires
        ansi_scan(a).0 is Text,
    ensures
        ansi_scan(a + t) == (ansi_scan(t).0, ansi_scan(a).1 + ansi_scan(t).1),
    decreases t.len(),
{
    if t.len() == 0 {
        assert(a + t =~= a);
        assert(ansi_scan(a).1 + ansi_scan(t).1 =~= ansi_scan(a).1);
    } else {
        lemma_ansi_scan_append(a, t.drop_last());
        assert((a + t).drop_last() =~= a + t.drop_last());
        assert((a + t).last() == t.last());
        let ka = ansi_scan(a).1;
        let kt = ansi_scan(t.drop_last()).1;
        assert((ka + kt).push(t.last()) =~= ka + kt.push(t.last()));
    }
}

/// Inside a control sequence every character up to the first ASCII letter
/// is dropped.
proof fn lemma_ansi_csi_body(p: Seq<char>)
    requires
        forall|i: int| 0 <= i < p.len() ==> !is_ascii_letter(#[trigger] p[i]),
    ensures
        ansi_scan(seq![ESC, '['] + p) == (AnsiState::Csi, Seq::<char>::empty()),
    decreases p.len(),
{
    if p.len() == 0 {
        assert(seq![ESC, '['] + p =~= seq![ESC, '[']);
        assert(seq![ESC, '['].drop_last() =~= seq![ESC]);
        assert(seq![ESC].drop_last() =~= Seq::<char>::empty());
        assert(ansi_scan(Seq::<char>::empty()) == (AnsiState::Text, Seq::<char>::empty()));
        assert(ansi_scan(seq![ESC]) == (AnsiState::Escape, Seq::<char>::empty()));
        assert(seq![ESC, '['].last() == '[');
    } else {
        let s = seq![ESC, '['] + p;
        lemma_ansi_csi_body(p.drop_last());
        assert(s.drop_last() =~= seq![ESC, '['] + p.drop_last());
        assert(s.last() == p[p.len() - 1]);
        assert(!is_ascii_letter(p[p.len() - 1]));
    }
}

/// A control sequence ends at its first ASCII letter: an escape, `[`,
/// characters that are not ASCII letters and then a letter are all
/// removed, and plain text after them comes through unchanged.
pub proof fn lemma_strip_ansi_csi(p: Seq<char>, letter: char, t: Seq<char>)
    requires
        forall|i: int| 0 <= i < p.len() ==> !is_ascii_letter(#[trigger] p[i]),
        is_ascii_letter(letter),
        !t.contains(ESC),
    ensures
        ansi_stripped(seq![ESC, '['] + p + seq![letter] + t) == t,
{
    let a = seq![ESC, '['] + p + seq![letter];
    lemma_ansi_csi_body(p);
    assert(a.drop_last() =~= seq![ESC, '['] + p);
    assert(a.last() == letter);
    assert(ansi_scan(a) == (AnsiState::Text, Seq::<char>::empty()));
    lemma_strip_ansi_plain(t);
    lemma_ansi_scan_append(a, t);
    assert(Seq::<char>::empty() + ansi_scan(t).1 =~= t);
}

/// An escape not followed by `[` removes itself and the one character
/// after it; plain text after them comes through unchanged.
pub proof fn lemma_strip_ansi_short_escape(c: char, t: Seq<char>)
    requires
        c != '[',
        !t.contains(ESC),
    ensures
        ansi_stripped(seq![ESC, c] + t) == t,
{
    let a = seq![ESC, c];
    assert(a.drop_last() =~= seq![ESC]);
    assert(seq![ESC].drop_last() =~= Seq::<char>::empty());
    assert(ansi_scan(Seq::<char>::empty()) == (AnsiState::Text, Seq::<char>::empty()));
    assert(ansi_scan(seq![ESC]) == (AnsiState::Escape, Seq::<char>::empty()));
    assert(a.last() == c);
    assert(ansi_scan(a) == (AnsiState::Text, Seq::<char>::empty()));
    lemma_strip_ansi_plain(t);
    lemma_ansi_scan_append(a, t);
    assert(Seq::<char>::empty() + ansi_scan(t).1 =~= t);
}

/// The displayed width, in terminal columns, of the text `s` as the
/// `unicode-width` crate measures it (UAX #11, ambiguous characters
/// narrow).
pub uninterp spec fn display_width(s: Seq<char>) -> usize;

/// The displayed width of `s` (`unicode_width::UnicodeWidthStr::width`).
/// Its value is given a name only: the crate computes it from its Unicode
/// tables, character by character, and this contract claims no more than
/// that the same text always measures the same.
#[verifier::external_body]
pub(crate) fn str_width(s: &str) -> (w: usize)
    ensures
        w == display_width(s@),
{
    unicode_width::UnicodeWidthStr::width(s)
}

/// The displayed width of `s` once its escape sequences are removed.
pub open spec fn visual_width(s: Seq<char>) -> usize {
    display_width(ansi_stripped(s))
}

/// The lines of `s`: the pieces between its newline characters (a text
/// ending in a newline ends with an empty line).
pub open spec fn lines_of(s: Seq<char>) -> Seq<Seq<char>>
    decreases s.len(),
{
    if s.len() == 0 {
        seq![Seq::empty()]
    } else {
        let prev = lines_of(s.drop_last());
        if s.last() == '\n' {
            prev.push(Seq::empty())
        } else {
            prev.update(prev.len() - 1, prev.last().push(s.last()))
        }
    }
}

proof fn lemma_lines_nonempty(s: Seq<char>)
    ensures
        lines_of(s).len() >= 1,
    decreases s.len(),
{
    if s.len() > 0 {
        lemma_lines_nonempty(s.drop_last());
    }
}

/// The views of a list of strings.
pub open spec fn views(v: Seq<String>) -> Seq<Seq<char>> {
    Seq::new(v.len(), |i: int| v[i]@)
}

/// The lines of `s` (see `lines_of`).
pub fn split_lines(s: &str) -> (lines: Vec<String>)
    ensures
        views(lines@) == lines_of(s@),
{
    let chars = chars_of(s);
    let mut lines: Vec<String> = Vec::new();
    let mut current = String::new();
    let mut i: usize = 0;
    while i < chars.len()
        invariant
            i <= chars@.len(),
            chars@ == s@,
            views(lines@).push(current@) == lines_of(s@.take(i as int)),
        decreases chars@.len() - i,
    {
        let c = chars[i];
        let ghost before = s@.take(i as int);
        assert(s@.take(i + 1).drop_last() =~= before);
        assert(s@.take(i + 1).last() == c);
        proof {
            lemma_lines_nonempty(before);
        }
        if c == '\n' {
            let ghost done = views(lines@).push(current@);
            lines.push(current);
            current = String::new();
            assert(views(lines@) =~= done);
        } else {
            let ghost prev = views(lines@).push(current@);
            string_push(&mut current, c);
            assert(views(lines@).push(current@) =~= prev.update(prev.len() - 1, prev.last().push(c)));
        }
        i = i + 1;
    }
    assert(s@.take(i as int) =~= s@);
    let ghost all = views(lines@).push(current@);
    lines.push(current);
    assert(views(lines@) =~= all);
    lines
}

/// The largest of `ws`, or 0 when there is none.
pub open spec fn seq_max(ws: Seq<usize>) -> usize
    decreases ws.len(),
{
    if ws.len() == 0 {
        0
    } else {
        let m = seq_max(ws.drop_last());
        if ws.last() > m {
            ws.last()
        } else {
            m
        }
    }
}

proof fn lemma_seq_max_bounds(ws: Seq<usize>, bound: int)
    requires
        forall|i: int| 0 <= i < ws.len() ==> ws[i] <= bound,
        bound >= 0,
    ensures
        seq_max(ws) <= bound,
        forall|i: int| 0 <= i < ws.len() ==> ws[i] <= seq_max(ws),
    decreases ws.len(),
{
    if ws.len() > 0 {
        lemma_seq_max_bounds(ws.drop_last(), bound);
        assert forall|i: int| 0 <= i < ws.len() implies ws[i] <= seq_max(ws) by {
            if i < ws.len() - 1 {
                assert(ws.drop_last()[i] == ws[i]);
            }
        }
    }
}

/// The largest of `ws` (see `seq_max`).
pub fn max_of(ws: &Vec<usize>) -> (m: usize)
    ensures
        m == seq_max(ws@),
        forall|i: int| 0 <= i < ws@.len() ==> ws@[i] <= m,
{
    let mut m: usize = 0;
    let mut i: usize = 0;
    while i < ws.len()
        invariant
            i <= ws@.len(),
            m == seq_max(ws@.take(i as int)),
        decreases ws@.len() - i,
    {
        assert(ws@.take(i + 1).drop_last() =~= ws@.take(i as int));
        if ws[i] > m {
            m = ws[i];
        }
        i = i + 1;
    }
    assert(ws@.take(i as int) =~= ws@);
    proof {
        lemma_seq_max_bounds(ws@, usize::MAX as int);
    }
    m
}

/// `n` copies of `c`.
pub open spec fn repeat_char(c: char, n: int) -> Seq<char> {
    Seq::new(n as nat, |i: int| c)
}

/// Appends `n` copies of `c` to `s`.
fn push_repeat(s: &mut String, c: char, n: usize)
    ensures
        final(s)@ == old(s)@ + repeat_char(c, n as int),
{
    let mut i: usize = 0;
    while i < n
        invariant
            i <= n,
            s@ == old(s)@ + repeat_char(c, i as int),
        decreases n - i,
    {
        let ghost before = s@;
        string_push(s, c);
        assert(s@ =~= old(s)@ + repeat_char(c, i + 1));
        i = i + 1;
    }
}

/// Appends `t` to `s`.
fn push_all(s: &mut String, t: &String)
    ensures
        final(s)@ == old(s)@ + t@,
{
    s.append(t.as_str());
}

/// Blank columns on each side of the widest line of a box.
pub const BOX_MARGIN: usize = 5;

/// The inside width of a box around lines of the given visual widths.
pub open spec fn box_inner_width(widths: Seq<usize>) -> int {
    seq_max(widths) + 2 * BOX_MARGIN
}

/// A line of a box of inside width `inner`: `line`, of visual width `w`,
/// centred between the side borders, the extra column (if any) on the right.
pub open spec fn box_row(line: Seq<char>, w: int, inner: int) -> Seq<char> {
    seq!['│'] + repeat_char(' ', (inner - w) / 2) + line + repeat_char(' ', inner - w - (inner - w) / 2)
        + seq!['│']
}

/// The rows of a box around `lines` of visual widths `widths`: the top
/// border, one row per line, the bottom border.
pub open spec fn box_rows(lines: Seq<Seq<char>>, widths: Seq<usize>) -> Seq<Seq<char>> {
    let inner = box_inner_width(widths);
    seq![box_border('┌', '┐', inner)] + Seq::new(
        lines.len(),
        |i: int| box_row(lines[i], widths[i] as int, inner),
    ) + seq![box_border('└', '┘', inner)]
}

/// Every line of a box is centred: the blanks on its left and right and
/// its own width fill the inside width exactly, and the right side gets at
/// most one blank more than the left.
pub proof fn lemma_box_row_centred(w: int, inner: int)
    requires
        0 <= w <= inner,
    ensures
        (inner - w) / 2 + w + (inner - w - (inner - w) / 2) == inner,
        0 <= (inner - w - (inner - w) / 2) - (inner - w) / 2 <= 1,
{
}

/// The top or bottom border of a box of inside width `inner`.
pub open spec fn box_border(left: char, right: char, inner: int) -> Seq<char> {
    seq![left] + repeat_char('─', inner) + seq![right]
}

proof fn lemma_box_rows_index(lines: Seq<Seq<char>>, widths: Seq<usize>)
    requires
        lines.len() == widths.len(),
    ensures
        box_rows(lines, widths).len() == lines.len() + 2,
        box_rows(lines, widths)[0] == box_border('┌', '┐', box_inner_width(widths)),
        box_rows(lines, widths)[lines.len() + 1int] == box_border('└', '┘', box_inner_width(widths)),
        forall|k: int|
            0 <= k < lines.len() ==> #[trigger] box_rows(lines, widths)[k + 1] == box_row(
                lines[k],
                widths[k] as int,
                box_inner_width(widths),
            ),
{
}

fn border(left: char, right: char, inner: usize) -> (b: String)
    ensures
        b@ == box_border(left, right, inner as int),
{
    let mut b = String::new();
    string_push(&mut b, left);
    push_repeat(&mut b, '─', inner);
    string_push(&mut b, right);
    assert(b@ =~= box_border(left, right, inner as int));
    b
}

/// The rows of a box around `lines`, whose visual widths are `widths`.
pub fn box_lines_with_widths(lines: &Vec<String>, widths: &Vec<usize>) -> (rows: Vec<String>)
    requires
        lines@.len() == widths@.len(),
        forall|i: int| 0 <= i < widths@.len() ==> widths@[i] <= usize::MAX - 2 * BOX_MARGIN,
    ensures
        views(rows@) == box_rows(views(lines@), widths@),
{
    proof {
        lemma_seq_max_bounds(widths@, usize::MAX - 2 * BOX_MARGIN);
        lemma_box_rows_index(views(lines@), widths@);
    }
    let max_len = max_of(widths) + BOX_MARGIN * 2;
    let ghost inner = box_inner_width(widths@);
    let ghost target = box_rows(views(lines@), widths@);
    let mut rows: Vec<String> = Vec::new();
    rows.push(border('┌', '┐', max_len));
    let mut i: usize = 0;
    while i < lines.len()
        invariant
            i <= lines@.len(),
            lines@.len() == widths@.len(),
            max_len == inner,
            target == box_rows(views(lines@), widths@),
            target.len() == lines@.len() + 2,
            target[lines@.len() + 1int] == box_border('└', '┘', inner),
            forall|k: int|
                0 <= k < lines@.len() ==> #[trigger] target[k + 1] == box_row(
                    lines@[k]@,
                    widths@[k] as int,
                    inner,
                ),
            forall|j: int| 0 <= j < widths@.len() ==> widths@[j] <= max_len,
            rows@.len() == i + 1,
            forall|k: int| 0 <= k <= i ==> #[trigger] rows@[k]@ == target[k],
        decreases lines@.len() - i,
    {
        let w = widths[i];
        let pad_left = (max_len - w) / 2;
        let pad_right = max_len - w - pad_left;
        let mut row = String::new();
        string_push(&mut row, '│');
        push_repeat(&mut row, ' ', pad_left);
        push_all(&mut row, &lines[i]);
        push_repeat(&mut row, ' ', pad_right);
        string_push(&mut row, '│');
        assert(row@ =~= box_row(lines@[i as int]@, w as int, inner));
        assert(target[i + 1] == box_row(lines@[i as int]@, widths@[i as int] as int, inner));
        rows.push(row);
        i = i + 1;
    }
    rows.push(border('└', '┘', max_len));
    assert(views(rows@) =~= target);
    rows
}

/// The visual widths of `lines`.
pub open spec fn visual_widths(lines: Seq<Seq<char>>) -> Seq<usize> {
    Seq::new(lines.len(), |i: int| visual_width(lines[i]))
}

/// The visual widths of `lines`, measured once their escape sequences are
/// stripped.
pub fn line_widths(lines: &Vec<String>) -> (ws: Vec<usize>)
    ensures
        ws@ == visual_widths(views(lines@)),
{
    let mut ws: Vec<usize> = Vec::new();
    let mut i: usize = 0;
    while i < lines.len()
        invariant
            i <= lines@.len(),
            ws@ == visual_widths(views(lines@)).take(i as int),
        decreases lines@.len() - i,
    {
        let stripped = strip_ansi(lines[i].as_str());
        let w = str_width(stripped.as_str());
        ws.push(w);
        assert(ws@ =~= visual_widths(views(lines@)).take(i + 1));
        i = i + 1;
    }
    assert(ws@ =~= visual_widths(views(lines@)));
    ws
}

/// Every line of `text` is narrow enough for a box around it to be
/// measured.
pub open spec fn box_fits(text: Seq<char>) -> bool {
    forall|i: int|
        0 <= i < lines_of(text).len() ==> #[trigger] visual_width(lines_of(text)[i]) <= usize::MAX
            - 2 * BOX_MARGIN
}

/// The rows of a box around the lines of `text`, each centred by its
/// visual width with five blank columns beside the widest; `None` when a
/// line is too wide for the box to be measured.
pub fn box_lines(text: &str) -> (rows: Option<Vec<String>>)
    ensures
        rows is Some <==> box_fits(text@),
        rows matches Some(r) ==> views(r@) == box_rows(lines_of(text@), visual_widths(lines_of(text@))),
{
    let lines = split_lines(text);
    let widths = line_widths(&lines);
    let mut i: usize = 0;
    while i < widths.len()
        invariant
            i <= widths@.len(),
            widths@ == visual_widths(views(lines@)),
            views(lines@) == lines_of(text@),
            forall|j: int| 0 <= j < i ==> widths@[j] <= usize::MAX - 2 * BOX_MARGIN,
        decreases widths@.len() - i,
    {
        if widths[i] > usize::MAX - BOX_MARGIN * 2 {
            assert(visual_width(lines_of(text@)[i as int]) > usize::MAX - 2 * BOX_MARGIN);
            return None;
        }
        i = i + 1;
    }
    assert(box_fits(text@)) by {
        assert forall|j: int| 0 <= j < lines_of(text@).len() implies #[trigger] visual_width(
            lines_of(text@)[j],
        ) <= usize::MAX - 2 * BOX_MARGIN by {
            assert(widths@[j] == visual_width(lines_of(text@)[j]));
        }
    }
    Some(box_lines_with_widths(&lines, &widths))
}

} // verus!
