//! The arrow-key menu: its decisions, from the menu's state and what was
//! read from the keyboard to the next state and what to do next, and the
//! text of its lines.
use vstd::prelude::*;

use crate::ui::{COLOR_RESET, MenuOption};

verus! {

/// The menu's state: the option under the cursor.
pub struct MenuState {
    pub selected: usize,
}

/// What was read from the keyboard.
pub enum MenuEvent {
    /// A key byte, or `None` when reading failed.
    Key(Option<u8>),
    /// The two bytes after an escape, or `None` when reading them failed.
    Sequence(Option<(u8, u8)>),
}

/// What the menu does next.
pub enum MenuAction {
    /// Draw the options (over the previous drawing when `over_previous`)
    /// and read a key.
    Draw { over_previous: bool },
    /// Read the two bytes that follow an escape.
    ReadSequence,
    /// Stop with the chosen option, or `None` when the menu was left.
    Finish(Option<usize>),
}

/// Which options can be chosen.
pub open spec fn enabled_of(options: Seq<MenuOption>) -> Seq<bool> {
    Seq::new(options.len(), |i: int| options[i].enabled)
}

/// The menu's start: nothing to choose from ends it at once, else the
/// first option is under the cursor.
pub open spec fn menu_start(enabled: Seq<bool>) -> (MenuState, MenuAction) {
    if enabled.len() == 0 {
        (MenuState { selected: 0 }, MenuAction::Finish(None))
    } else {
        (MenuState { selected: 0 }, MenuAction::Draw { over_previous: false })
    }
}

/// The menu's next move after `event`: Enter or Return chooses the option
/// under the cursor when it is enabled; Ctrl-C or a failed read leaves the
/// menu; an escape reads the sequence after it, whose up and down arrows
/// move the cursor within the options; anything else redraws.
pub open spec fn menu_next(enabled: Seq<bool>, state: MenuState, event: MenuEvent) -> (MenuState, MenuAction) {
    let sel = state.selected;
    let redraw = MenuAction::Draw { over_previous: true };
    match event {
        MenuEvent::Key(None) => (state, MenuAction::Finish(None)),
        MenuEvent::Key(Some(b)) => if b == 10 || b == 13 {
            if enabled[sel as int] {
                (state, MenuAction::Finish(Some(sel)))
            } else {
                (state, redraw)
            }
        } else if b == 0x1b {
            (state, MenuAction::ReadSequence)
        } else if b == 3 {
            (state, MenuAction::Finish(None))
        } else {
            (state, redraw)
        },
        MenuEvent::Sequence(Some((a, b))) => if a == 0x5b && b == 0x41 && sel > 0 {
            (MenuState { selected: (sel - 1) as usize }, redraw)
        } else if a == 0x5b && b == 0x42 && sel + 1 < enabled.len() {
            (MenuState { selected: (sel + 1) as usize }, redraw)
        } else {
            (state, redraw)
        },
        MenuEvent::Sequence(None) => (state, redraw),
    }
}

/// Starts a menu over `options` (see `menu_start`).
pub fn selection_menu_start(options: &[MenuOption]) -> (r: (MenuState, MenuAction))
    ensures
        r == menu_start(enabled_of(options@)),
{
    if options.len() == 0 {
        (MenuState { selected: 0 }, MenuAction::Finish(None))
    } else {
        (MenuState { selected: 0 }, MenuAction::Draw { over_previous: false })
    }
}

/// Decides the menu's next move after `event` (see `menu_next`).
pub fn selection_menu_step(options: &[MenuOption], state: &MenuState, event: &MenuEvent) -> (r: (
    MenuState,
    MenuAction,
))
    requires
        state.selected < options@.len(),
    ensures
        r == menu_next(enabled_of(options@), *state, *event),
        r.0.selected < options@.len(),
{
    let sel = state.selected;
    let same = MenuState { selected: sel };
    match event {
        MenuEvent::Key(None) => (same, MenuAction::Finish(None)),
        MenuEvent::Key(Some(b)) => {
            let b = *b;
            if b == 10u8 || b == 13u8 {
                if options[sel].enabled {
                    (same, MenuAction::Finish(Some(sel)))
                } else {
                    (same, MenuAction::Draw { over_previous: true })
                }
            } else if b == 0x1b {
                (same, MenuAction::ReadSequence)
            } else if b == 0x03 {
                (same, MenuAction::Finish(None))
            } else {
                (same, MenuAction::Draw { over_previous: true })
            }
        },
        MenuEvent::Sequence(Some((a, b))) => {
            let (a, b) = (*a, *b);
            if a == 0x5bu8 && b == 0x41u8 && sel > 0 {
                (MenuState { selected: sel - 1 }, MenuAction::Draw { over_previous: true })
            } else if a == 0x5bu8 && b == 0x42u8 && sel < options.len() - 1 {
                (MenuState { selected: sel + 1 }, MenuAction::Draw { over_previous: true })
            } else {
                (same, MenuAction::Draw { over_previous: true })
            }
        },
        MenuEvent::Sequence(None) => (same, MenuAction::Draw { over_previous: true }),
    }
}

/// The cursor never leaves the options, and the menu only ever chooses an
/// option that exists and is enabled.
pub proof fn lemma_menu_choices(enabled: Seq<bool>, state: MenuState, event: MenuEvent)
    requires
        state.selected < enabled.len(),
    ensures
        ({
            let (next, action) = menu_next(enabled, state, event);
            &&& next.selected < enabled.len()
            &&& action matches MenuAction::Finish(Some(i)) ==> i == state.selected && enabled[i as int]
        }),
        menu_start(enabled).1 matches MenuAction::Draw { .. } ==> menu_start(enabled).0.selected
            < enabled.len(),
        menu_start(enabled).1 matches MenuAction::Finish(c) ==> c is None,
{
}

/// The arrows move the cursor by exactly one option: Up (`ESC [ A`) to the
/// option above unless the cursor is on the first, Down (`ESC [ B`) to the
/// option below unless it is on the last, and the menu is then redrawn;
/// nothing else moves the cursor.
pub proof fn lemma_menu_arrows(enabled: Seq<bool>, state: MenuState, event: MenuEvent)
    requires
        state.selected < enabled.len(),
        enabled.len() <= usize::MAX,
    ensures
        ({
            let (next, action) = menu_next(enabled, state, MenuEvent::Sequence(Some((0x5b, 0x41))));
            &&& next.selected == (if state.selected > 0 { state.selected - 1 } else { state.selected as int })
            &&& action == (MenuAction::Draw { over_previous: true })
        }),
        ({
            let (next, action) = menu_next(enabled, state, MenuEvent::Sequence(Some((0x5b, 0x42))));
            &&& next.selected == (if state.selected + 1 < enabled.len() {
                state.selected + 1
            } else {
                state.selected as int
            })
            &&& action == (MenuAction::Draw { over_previous: true })
        }),
        event != MenuEvent::Sequence(Some((0x5bu8, 0x41u8))) && event != MenuEvent::Sequence(
            Some((0x5bu8, 0x42u8)),
        ) ==> menu_next(enabled, state, event).0.selected == state.selected,
{
}

/// The line for `option`: its colour, then its text between `> ` and ` <`
/// when it is under the cursor or between blanks otherwise, then the reset.
pub open spec fn menu_line(option: MenuOption, under_cursor: bool) -> Seq<char> {
    option.color_code@ + (if under_cursor {
        seq!['>', ' '] + option.text@ + seq![' ', '<']
    } else {
        seq![' ', ' '] + option.text@ + seq![' ', ' ']
    }) + COLOR_RESET@
}

/// The lines of the menu with `selected` under the cursor.
pub fn menu_lines(options: &[MenuOption], selected: usize) -> (lines: Vec<String>)
    ensures
        lines@.len() == options@.len(),
        forall|i: int|
            0 <= i < options@.len() ==> #[trigger] lines@[i]@ == menu_line(options@[i], i == selected),
{
    let mut lines: Vec<String> = Vec::new();
    let mut i: usize = 0;
    while i < options.len()
        invariant
            i <= options@.len(),
            lines@.len() == i,
            forall|j: int|
                0 <= j < i ==> #[trigger] lines@[j]@ == menu_line(options@[j], j == selected),
        decreases options@.len() - i,
    {
        let option = &options[i];
        let mut line = String::from_str(option.color_code);
        if i == selected {
            line.append("> ");
            line.append(option.text.as_str());
            line.append(" <");
        } else {
            line.append("  ");
            line.append(option.text.as_str());
            line.append("  ");
        }
        line.append(COLOR_RESET);
        proof {
            reveal_strlit("> ");
            reveal_strlit(" <");
            reveal_strlit("  ");
        }
        assert(line@ =~= menu_line(options@[i as int], i == selected));
        lines.push(line);
        i = i + 1;
    }
    lines
}

} // verus!
