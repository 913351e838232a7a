use nify::control::{key_action, DrainStep, FrameDrain, Key, KeyAction, Received, MAX_MSGS_PER_FRAME};
use nify::layout::{block_bar, book_side_rows, centered_margin, status_dot};

#[test]
fn keys() {
    assert_eq!(key_action(Key::Char('q'), true), KeyAction::Quit);
    assert_eq!(key_action(Key::Char('Q'), true), KeyAction::Quit);
    assert_eq!(key_action(Key::Esc, true), KeyAction::Quit);
    assert_eq!(key_action(Key::Char('r'), true), KeyAction::Reset);
    assert_eq!(key_action(Key::Char('R'), true), KeyAction::Reset);
    assert_eq!(key_action(Key::Char('x'), true), KeyAction::Nothing);
    assert_eq!(key_action(Key::Other, true), KeyAction::Nothing);
    assert_eq!(key_action(Key::Char('q'), false), KeyAction::Nothing);
    assert_eq!(key_action(Key::Esc, false), KeyAction::Nothing);
}

#[test]
fn drain_budget() {
    let mut d = FrameDrain::new();
    let mut handled = 0;
    loop {
        match d.step(Received::Message) {
            DrainStep::Handle { last } => {
                handled += 1;
                if last {
                    break;
                }
            }
            _ => panic!("unexpected step"),
        }
    }
    assert_eq!(handled, MAX_MSGS_PER_FRAME);
    assert_eq!(d.processed(), MAX_MSGS_PER_FRAME);
}

#[test]
fn drain_stops() {
    let mut d = FrameDrain::new();
    assert_eq!(d.step(Received::Message), DrainStep::Handle { last: false });
    assert_eq!(d.step(Received::Empty), DrainStep::Stop);
    assert_eq!(d.processed(), 1);
    assert_eq!(d.step(Received::Disconnected), DrainStep::Shutdown);
    assert_eq!(d.processed(), 1);
}

#[test]
fn book_rows() {
    assert_eq!(book_side_rows(0), None);
    assert_eq!(book_side_rows(4), None);
    assert_eq!(book_side_rows(5), Some(1));
    assert_eq!(book_side_rows(10), Some(3));
    assert_eq!(book_side_rows(27), Some(12));
    assert_eq!(book_side_rows(200), Some(12));
}

#[test]
fn margins() {
    assert_eq!(centered_margin(70), 15);
    assert_eq!(centered_margin(75), 12);
    assert_eq!(centered_margin(100), 0);
    assert_eq!(centered_margin(0), 50);
}

#[test]
fn bars() {
    assert_eq!(block_bar(0, 6), "");
    assert_eq!(block_bar(3, 6), "███");
    assert_eq!(block_bar(9, 6), "██████");
}

#[test]
fn dots() {
    assert_eq!(status_dot(true), "●");
    assert_eq!(status_dot(false), "○");
}
