use prodash::render::{Action, Engine, Event, FrameCounter, Key, Line, State};
use std::time::Duration;
use tui::layout::Rect;

fn engine() -> Engine {
    Engine::new("title".into(), Duration::from_millis(100), None, None)
}

fn press(engine: &mut Engine, c: char) -> Action {
    engine.handle(Event::Input(Key::Char(c)))
}

#[test]
fn new_state_is_blank() {
    let state = State::new("Progress Dashboard".into(), Duration::from_millis(100));
    assert_eq!(state.title, "Progress Dashboard");
    assert_eq!(state.duration_per_frame, Duration::from_millis(100));
    assert_eq!(state.task_offset, 0);
    assert_eq!(state.message_offset, 0);
    assert!(!state.hide_messages);
    assert!(!state.messages_fullscreen);
    assert!(!state.hide_info);
    assert!(!state.maximize_info);
    assert_eq!(state.user_provided_window_size, None);
    assert_eq!(state.last_tree_column_width, None);
    assert_eq!(state.next_tree_column_width, None);
    assert!(state.information.is_empty());
}

#[test]
fn quit_keys_end_the_loop_in_any_state() {
    for key in [Key::Esc, Key::Char('q'), Key::Ctrl('c'), Key::Ctrl('[')] {
        let mut engine = engine();
        assert_eq!(engine.handle(Event::Input(key)), Action::Quit);

        press(&mut engine, 'D');
        press(&mut engine, '`');
        press(&mut engine, '{');
        assert_eq!(engine.handle(Event::Input(key)), Action::Quit);
        assert_eq!(engine.state.message_offset, 10);
        assert!(engine.state.hide_messages);
        assert!(engine.state.maximize_info);
    }
}

#[test]
fn keys_that_are_near_quit_keys_do_not_quit() {
    let mut engine = engine();
    for key in [
        Key::Char('Q'),
        Key::Ctrl('q'),
        Key::Ctrl('d'),
        Key::Alt('q'),
        Key::Alt('c'),
        Key::Null,
        Key::Backspace,
        Key::F(1),
    ] {
        assert_eq!(engine.handle(Event::Input(key)), Action::Skip);
    }
    assert_eq!(press(&mut engine, 'c'), Action::Skip);
    assert_eq!(press(&mut engine, '['), Action::Redraw);
}

#[test]
fn unbound_keys_skip_the_frame_and_change_nothing() {
    let mut engine = engine();
    press(&mut engine, 'J');
    press(&mut engine, 'j');
    for key in [
        Key::Char('x'),
        Key::Char(' '),
        Key::Left,
        Key::Right,
        Key::Up,
        Key::Down,
        Key::Home,
        Key::End,
        Key::PageUp,
        Key::PageDown,
        Key::BackTab,
        Key::Delete,
        Key::Insert,
        Key::Alt('j'),
    ] {
        assert_eq!(engine.handle(Event::Input(key)), Action::Skip);
    }
    assert_eq!(engine.state.message_offset, 1);
    assert_eq!(engine.state.task_offset, 1);
    assert!(!engine.state.hide_messages);
    assert!(!engine.state.messages_fullscreen);
    assert!(!engine.state.hide_info);
    assert!(!engine.state.maximize_info);
}

#[test]
fn tick_redraws_and_changes_nothing() {
    let mut engine = engine();
    press(&mut engine, 'D');
    assert_eq!(engine.handle(Event::Tick), Action::Redraw);
    assert_eq!(engine.state.message_offset, 10);
    assert_eq!(engine.state.title, "title");
}

#[test]
fn toggles_flip_their_flag_and_flip_back() {
    let mut engine = engine();
    assert_eq!(press(&mut engine, '`'), Action::Redraw);
    assert!(engine.state.hide_messages);
    assert_eq!(press(&mut engine, '`'), Action::Redraw);
    assert!(!engine.state.hide_messages);

    press(&mut engine, '~');
    assert!(engine.state.messages_fullscreen);
    press(&mut engine, '~');
    assert!(!engine.state.messages_fullscreen);

    press(&mut engine, '[');
    assert!(engine.state.hide_info);
    press(&mut engine, '[');
    assert!(!engine.state.hide_info);

    press(&mut engine, '{');
    assert!(engine.state.maximize_info);
    press(&mut engine, '{');
    assert!(!engine.state.maximize_info);
}

#[test]
fn message_offset_moves_by_one_and_by_ten() {
    let mut engine = engine();
    assert_eq!(press(&mut engine, 'J'), Action::Redraw);
    assert_eq!(engine.state.message_offset, 1);
    assert_eq!(press(&mut engine, 'D'), Action::Redraw);
    assert_eq!(engine.state.message_offset, 11);
    assert_eq!(press(&mut engine, 'K'), Action::Redraw);
    assert_eq!(engine.state.message_offset, 10);
    assert_eq!(press(&mut engine, 'U'), Action::Redraw);
    assert_eq!(engine.state.message_offset, 0);
    assert_eq!(engine.state.task_offset, 0);
}

#[test]
fn task_offset_moves_by_one_and_by_ten() {
    let mut engine = engine();
    assert_eq!(press(&mut engine, 'j'), Action::Redraw);
    assert_eq!(engine.state.task_offset, 1);
    assert_eq!(press(&mut engine, 'd'), Action::Redraw);
    assert_eq!(engine.state.task_offset, 11);
    assert_eq!(press(&mut engine, 'k'), Action::Redraw);
    assert_eq!(engine.state.task_offset, 10);
    assert_eq!(press(&mut engine, 'u'), Action::Redraw);
    assert_eq!(engine.state.task_offset, 0);
    assert_eq!(engine.state.message_offset, 0);
}

#[test]
fn offsets_stop_at_zero() {
    let mut engine = engine();
    for c in ['K', 'U', 'k', 'u'] {
        assert_eq!(press(&mut engine, c), Action::Redraw);
        assert_eq!(engine.state.message_offset, 0);
        assert_eq!(engine.state.task_offset, 0);
    }
    engine.state.message_offset = 15;
    engine.state.task_offset = 9;
    for c in ['U', 'K', 'U', 'U', 'K', 'u', 'k'] {
        press(&mut engine, c);
    }
    assert_eq!(engine.state.message_offset, 0);
    assert_eq!(engine.state.task_offset, 0);

    engine.state.message_offset = 25;
    for c in ['U', 'K', 'K'] {
        press(&mut engine, c);
    }
    assert_eq!(engine.state.message_offset, 13);
}

#[test]
fn offsets_stop_at_the_largest_value() {
    let mut engine = engine();
    engine.state.message_offset = u16::MAX - 3;
    engine.state.task_offset = u16::MAX;
    press(&mut engine, 'D');
    assert_eq!(engine.state.message_offset, u16::MAX);
    press(&mut engine, 'J');
    assert_eq!(engine.state.message_offset, u16::MAX);
    press(&mut engine, 'j');
    press(&mut engine, 'd');
    assert_eq!(engine.state.task_offset, u16::MAX);
}

#[test]
fn set_events_replace_their_field() {
    let mut engine = engine();
    assert_eq!(
        engine.handle(Event::SetTitle("other".into())),
        Action::Redraw
    );
    assert_eq!(engine.state.title, "other");

    assert_eq!(
        engine.handle(Event::SetInformation(vec![
            Line::Title("heading".into()),
            Line::Text("first".into()),
            Line::Text("second".into()),
        ])),
        Action::Redraw
    );
    assert_eq!(engine.state.information.len(), 3);
    assert!(matches!(&engine.state.information[0], Line::Title(t) if t == "heading"));
    assert!(matches!(&engine.state.information[2], Line::Text(t) if t == "second"));

    assert_eq!(
        engine.handle(Event::SetInformation(vec![Line::Text("only".into())])),
        Action::Redraw
    );
    assert_eq!(engine.state.information.len(), 1);
    assert!(matches!(&engine.state.information[0], Line::Text(t) if t == "only"));

    let size = Rect::new(1, 2, 30, 40);
    assert_eq!(engine.handle(Event::SetWindowSize(size)), Action::Redraw);
    assert_eq!(engine.state.user_provided_window_size, Some(size));
    let other = Rect::new(0, 0, 5, 6);
    engine.handle(Event::SetWindowSize(other));
    assert_eq!(engine.state.user_provided_window_size, Some(other));
}

#[test]
fn window_size_prefers_event_then_options_then_terminal() {
    let terminal = Rect::new(0, 0, 80, 24);
    let configured = Rect::new(0, 0, 100, 50);
    let by_event = Rect::new(2, 3, 10, 20);

    let mut plain = engine();
    assert_eq!(plain.window_size(terminal), terminal);
    plain.handle(Event::SetWindowSize(by_event));
    assert_eq!(plain.window_size(terminal), by_event);

    let mut engine = Engine::new(
        "title".into(),
        Duration::from_millis(100),
        Some(configured),
        None,
    );
    assert_eq!(engine.window_size(terminal), configured);
    engine.handle(Event::SetWindowSize(by_event));
    assert_eq!(engine.window_size(terminal), by_event);
}

#[test]
fn every_frame_stores_the_width_by_default() {
    let mut engine = engine();
    assert_eq!(engine.frames.interval(), 1);
    for width in [10u16, 20, 30] {
        engine.state.last_tree_column_width = Some(width);
        assert!(engine.frame_drawn());
        assert_eq!(engine.state.next_tree_column_width, Some(width));
        assert_eq!(engine.frames.drawn(), 0);
    }
}

#[test]
fn every_nth_frame_stores_the_width() {
    let mut engine = Engine::new("title".into(), Duration::from_millis(50), None, Some(3));
    assert_eq!(engine.frames.interval(), 3);
    let mut stored = Vec::new();
    for frame in 1..=7u16 {
        engine.state.last_tree_column_width = Some(frame);
        stored.push(engine.frame_drawn());
        let expected = match frame {
            1 | 2 => None,
            3..=5 => Some(3),
            _ => Some(6),
        };
        assert_eq!(engine.state.next_tree_column_width, expected);
        assert_eq!(engine.frames.drawn(), usize::from(frame % 3));
    }
    assert_eq!(stored, [false, false, true, false, false, true, false]);
}

#[test]
fn an_interval_of_zero_frames_counts_as_one() {
    let mut counter = FrameCounter::new(Some(0));
    assert_eq!(counter.interval(), 1);
    assert!(counter.count());
    assert!(counter.count());
    assert_eq!(FrameCounter::new(None).interval(), 1);
    assert_eq!(FrameCounter::new(Some(1)).interval(), 1);
    assert_eq!(FrameCounter::new(Some(40)).interval(), 40);
    assert_eq!(FrameCounter::new(Some(usize::MAX)).interval(), usize::MAX);
}

#[test]
fn frame_counter_completes_a_round_on_the_last_frame() {
    let mut counter = FrameCounter::new(Some(2));
    assert_eq!(counter.drawn(), 0);
    assert!(!counter.count());
    assert_eq!(counter.drawn(), 1);
    assert!(counter.count());
    assert_eq!(counter.drawn(), 0);
    assert!(!counter.count());
}

#[test]
fn handling_an_event_leaves_the_frame_counter_alone() {
    let mut engine = Engine::new("title".into(), Duration::from_millis(50), None, Some(5));
    engine.frame_drawn();
    engine.frame_drawn();
    engine.handle(Event::Tick);
    press(&mut engine, 'J');
    engine.handle(Event::SetTitle("t".into()));
    assert_eq!(engine.frames.drawn(), 2);
    assert_eq!(engine.frames.interval(), 5);
}
