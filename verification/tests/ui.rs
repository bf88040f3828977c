use libcros::ui::header::{format_header, format_header_with_width, is_blank, trim_end, ui_header};
use libcros::ui::menu::{
    MenuAction, MenuEvent, MenuState, menu_lines, selection_menu_start, selection_menu_step,
};
use libcros::ui::utils::{box_lines, box_lines_with_widths, split_lines, strip_ansi};
use libcros::ui::{COLOR_RESET, MenuOption};

fn rule(n: usize) -> String {
    "─".repeat(n)
}

#[test]
fn strip_ansi_removes_sequences() {
    assert_eq!(strip_ansi("\x1b[31mred\x1b[0m"), "red");
    assert_eq!(strip_ansi("plain text"), "plain text");
    assert_eq!(strip_ansi("a\x1bXb"), "ab");
    assert_eq!(strip_ansi("x\x1b[12;3"), "x");
    assert_eq!(strip_ansi("end\x1b"), "end");
    assert_eq!(strip_ansi("\x1b[1;32mgo\x1b[0m!"), "go!");
}

#[test]
fn split_keeps_empty_lines() {
    assert_eq!(split_lines("a\nb\n"), vec!["a".to_string(), "b".to_string(), String::new()]);
    assert_eq!(split_lines(""), vec![String::new()]);
}

#[test]
fn box_centres_lines() {
    let rows = box_lines("hi").unwrap();
    assert_eq!(rows.len(), 3);
    assert_eq!(rows[0], format!("┌{}┐", rule(12)));
    assert_eq!(rows[1], format!("│{}hi{}│", " ".repeat(5), " ".repeat(5)));
    assert_eq!(rows[2], format!("└{}┘", rule(12)));
    let rows = box_lines("a\nabcd").unwrap();
    assert_eq!(rows[1], format!("│{}a{}│", " ".repeat(6), " ".repeat(7)));
    assert_eq!(rows[2], format!("│{}abcd{}│", " ".repeat(5), " ".repeat(5)));
}

#[test]
fn box_measures_without_escapes() {
    let rows = box_lines("\x1b[31mab\x1b[0m").unwrap();
    assert_eq!(rows[0], format!("┌{}┐", rule(12)));
    assert_eq!(rows[1], format!("│{}\x1b[31mab\x1b[0m{}│", " ".repeat(5), " ".repeat(5)));
    let wide = box_lines("日本").unwrap();
    assert_eq!(wide[0], format!("┌{}┐", rule(14)));
}

#[test]
fn box_with_given_widths() {
    let rows = box_lines_with_widths(&vec!["x".to_string()], &vec![3]);
    assert_eq!(rows[0], format!("┌{}┐", rule(13)));
    assert_eq!(rows[1], format!("│{}x{}│", " ".repeat(5), " ".repeat(5)));
}

#[test]
fn header_text() {
    assert_eq!(format_header("LOGO\n", ""), format!("LOGO\n{}", rule(4)));
    assert_eq!(format_header("LOGO", "hello"), format!("LOGO\n{}\nhello\n", rule(4)));
    assert_eq!(format_header("LOGO", "hi\n"), format!("LOGO\n{}\nhi\n", rule(4)));
    assert_eq!(format_header("ab\nabcdef\n\n", " \t\n"), format!("ab\nabcdef\n{}", rule(6)));
    assert_eq!(format_header("\x1b[1mBIG\x1b[0m", ""), format!("\x1b[1mBIG\x1b[0m\n{}", rule(3)));
    assert_eq!(format_header_with_width("A", "", 2), format!("A\n{}", rule(2)));
}

#[test]
fn trimming_and_blanks() {
    assert_eq!(trim_end("ab \n\t", false), "ab");
    assert_eq!(trim_end("ab \n\n", true), "ab ");
    assert!(is_blank(" \u{3000}\n"));
    assert!(!is_blank(" x "));
    assert!(is_blank(""));
}

#[test]
fn boxed_header() {
    let rows = ui_header("AB", "x").unwrap();
    assert_eq!(rows.len(), 5);
    assert_eq!(rows[1], format!("│{}AB{}│", " ".repeat(5), " ".repeat(5)));
    assert_eq!(rows[2], format!("│{}{}{}│", " ".repeat(5), rule(2), " ".repeat(5)));
    assert_eq!(rows[3], format!("│{}x{}│", " ".repeat(5), " ".repeat(6)));
}

fn options() -> Vec<MenuOption> {
    vec![
        MenuOption::new("One", true, "\x1b[32m"),
        MenuOption::new("Two", false, ""),
        MenuOption::new("Three", true, ""),
    ]
}

#[test]
fn menu_option_new() {
    let o = MenuOption::new("Yes", true, "\x1b[32m");
    assert_eq!(o.text, "Yes");
    assert!(o.enabled);
    assert_eq!(o.color_code, "\x1b[32m");
}

#[test]
fn menu_lines_mark_the_cursor() {
    let lines = menu_lines(&options(), 0);
    assert_eq!(lines[0], format!("\x1b[32m> One <{}", COLOR_RESET));
    assert_eq!(lines[1], format!("  Two  {}", COLOR_RESET));
    assert_eq!(COLOR_RESET, "\x1b[0m");
}

#[test]
fn menu_moves_and_chooses() {
    let opts = options();
    let (st, act) = selection_menu_start(&opts);
    assert!(matches!(act, MenuAction::Draw { over_previous: false }));
    assert_eq!(st.selected, 0);
    let (st, act) = selection_menu_step(&opts, &st, &MenuEvent::Sequence(Some((b'[', b'A'))));
    assert_eq!(st.selected, 0);
    assert!(matches!(act, MenuAction::Draw { over_previous: true }));
    let (st, _) = selection_menu_step(&opts, &st, &MenuEvent::Sequence(Some((b'[', b'B'))));
    assert_eq!(st.selected, 1);
    let (st, act) = selection_menu_step(&opts, &st, &MenuEvent::Key(Some(b'\r')));
    assert!(matches!(act, MenuAction::Draw { over_previous: true }));
    let (st, _) = selection_menu_step(&opts, &st, &MenuEvent::Sequence(Some((b'[', b'B'))));
    let (st, _) = selection_menu_step(&opts, &st, &MenuEvent::Sequence(Some((b'[', b'B'))));
    assert_eq!(st.selected, 2);
    let (st, act) = selection_menu_step(&opts, &st, &MenuEvent::Key(Some(0x1b)));
    assert!(matches!(act, MenuAction::ReadSequence));
    let (_, act) = selection_menu_step(&opts, &st, &MenuEvent::Key(Some(b'\n')));
    assert!(matches!(act, MenuAction::Finish(Some(2))));
}

#[test]
fn menu_can_be_left() {
    let opts = options();
    let st = MenuState { selected: 1 };
    let (_, act) = selection_menu_step(&opts, &st, &MenuEvent::Key(Some(3)));
    assert!(matches!(act, MenuAction::Finish(None)));
    let (_, act) = selection_menu_step(&opts, &st, &MenuEvent::Key(None));
    assert!(matches!(act, MenuAction::Finish(None)));
    let (st2, act) = selection_menu_step(&opts, &st, &MenuEvent::Sequence(None));
    assert_eq!(st2.selected, 1);
    assert!(matches!(act, MenuAction::Draw { over_previous: true }));
    let (_, act) = selection_menu_start(&[]);
    assert!(matches!(act, MenuAction::Finish(None)));
}
