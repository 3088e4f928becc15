use pr_dashboard::input::{command_for, Command, Key, Selection, TermEvent};

fn key(c: char) -> TermEvent {
    TermEvent::Key(Key::Char(c))
}

#[test]
fn key_map() {
    assert_eq!(command_for(&key('r')), Command::Refresh);
    assert_eq!(command_for(&key('R')), Command::Refresh);
    assert_eq!(command_for(&key('q')), Command::Quit);
    assert_eq!(command_for(&key('Q')), Command::Quit);
    assert_eq!(command_for(&key('s')), Command::Rebase);
    assert_eq!(command_for(&TermEvent::Key(Key::Up)), Command::MoveUp);
    assert_eq!(command_for(&TermEvent::Key(Key::Down)), Command::MoveDown);
    assert_eq!(command_for(&TermEvent::Key(Key::Enter)), Command::Activate);
}

#[test]
fn unbound_input_is_nothing() {
    assert_eq!(command_for(&key('S')), Command::Nothing);
    assert_eq!(command_for(&key('x')), Command::Nothing);
    assert_eq!(command_for(&key(' ')), Command::Nothing);
    assert_eq!(command_for(&TermEvent::Key(Key::Other)), Command::Nothing);
    assert_eq!(command_for(&TermEvent::Ignored), Command::Nothing);
}

#[test]
fn clamping_brings_the_selection_into_the_list() {
    assert_eq!(Selection::at(7).clamp(3), Selection::at(2));
    assert_eq!(Selection::at(3).clamp(3), Selection::at(2));
    assert_eq!(Selection::at(2).clamp(3), Selection::at(2));
    assert_eq!(Selection::at(0).clamp(3), Selection::at(0));
    assert_eq!(Selection::at(0).clamp(1), Selection::at(0));
    assert_eq!(Selection::at(usize::MAX).clamp(usize::MAX), Selection::at(usize::MAX - 1));
}

#[test]
fn clamping_to_an_empty_list_selects_nothing() {
    assert_eq!(Selection::at(0).clamp(0), Selection::none());
    assert_eq!(Selection::at(5).clamp(0), Selection::none());
    assert_eq!(Selection::none().clamp(0), Selection::none());
}

#[test]
fn clamping_keeps_no_selection() {
    assert_eq!(Selection::none().clamp(4), Selection::none());
    assert_eq!(Selection::none().index, None);
    assert_eq!(Selection::at(4).index, Some(4));
}

#[test]
fn selection_after_the_list_shrinks() {
    // At index 5 of 8; the list is replaced by one of 3, then by an empty one.
    let s = Selection::at(5);
    let shrunk = s.clamp(3);
    assert_eq!(shrunk.index, Some(2));
    assert_eq!(shrunk.clamp(0).index, None);
}

#[test]
fn moving_up_stops_at_the_top() {
    assert_eq!(Selection::at(2).up(3), Selection::at(1));
    assert_eq!(Selection::at(1).up(3), Selection::at(0));
    assert_eq!(Selection::at(0).up(3), Selection::at(0));
    assert_eq!(Selection::none().up(3), Selection::at(0));
}

#[test]
fn moving_down_stops_at_the_bottom() {
    assert_eq!(Selection::at(0).down(3), Selection::at(1));
    assert_eq!(Selection::at(1).down(3), Selection::at(2));
    assert_eq!(Selection::at(2).down(3), Selection::at(2));
    assert_eq!(Selection::none().down(3), Selection::at(0));
    assert_eq!(Selection::at(0).down(1), Selection::at(0));
}

#[test]
fn moving_from_past_the_end_starts_at_the_last_row() {
    assert_eq!(Selection::at(9).up(3), Selection::at(1));
    assert_eq!(Selection::at(9).down(3), Selection::at(2));
}

#[test]
fn moving_in_an_empty_list_selects_nothing() {
    assert_eq!(Selection::none().up(0), Selection::none());
    assert_eq!(Selection::none().down(0), Selection::none());
    assert_eq!(Selection::at(3).up(0), Selection::none());
    assert_eq!(Selection::at(3).down(0), Selection::none());
}
