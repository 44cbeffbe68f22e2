use sdl_tty::queue::Input;
use sdl_tty::tty::{Event, SdlTTY, QUEUE_CAP};

fn key_event(code: i32) -> Event {
    Event::KeyDown { keycode: Some(code), keymod: 0 }
}

#[test]
fn full_queue_drops_new_events_and_keeps_fifo_order() {
    let mut t = SdlTTY::new();
    // Five more key events than the queue holds.
    let events: Vec<Event> = (0..QUEUE_CAP as i32 + 5).map(key_event).collect();
    let dropped = t.poll(&events, (0, 0));
    // The overflowing pushes changed nothing, and each was reported.
    assert_eq!(dropped, 5);
    assert_eq!(t.input_buffer.len(), QUEUE_CAP);
    assert_eq!(t.input_buffer.capacity(), QUEUE_CAP);
    // The first QUEUE_CAP events come back oldest first.
    for i in 0..QUEUE_CAP as i32 {
        assert_eq!(t.input_buffer.pop(), Some(Input::Key(i, 0)));
    }
    // Then the queue is empty.
    assert_eq!(t.input_buffer.pop(), None);
    assert_eq!(t.input_buffer.len(), 0);
}

#[test]
fn pop_on_fresh_queue_is_none() {
    let mut t = SdlTTY::new();
    assert_eq!(t.input_buffer.pop(), None);
}

#[test]
fn key_modifiers_and_text_are_kept() {
    let mut t = SdlTTY::new();
    let events = vec![
        Event::KeyDown { keycode: Some(97), keymod: 3 },
        Event::TextInput { text: String::from("ab") },
        Event::KeyDown { keycode: None, keymod: 1 },
        Event::Other,
    ];
    // There is room for everything: nothing is dropped.
    assert_eq!(t.poll(&events, (0, 0)), 0);
    assert_eq!(t.input_buffer.pop(), Some(Input::Key(97, 3)));
    assert_eq!(t.input_buffer.pop(), Some(Input::Text(String::from("ab"))));
    // A key event without a key code and an unknown event queue nothing.
    assert_eq!(t.input_buffer.pop(), None);
}

#[test]
fn quit_event_closes_the_terminal_for_good() {
    let mut t = SdlTTY::new();
    assert!(t.is_open);
    t.poll(&vec![Event::Other], (0, 0));
    assert!(t.is_open);
    t.poll(&vec![key_event(1), Event::Quit, key_event(2)], (0, 0));
    assert!(!t.is_open);
    // Key events around the quit are still queued.
    assert_eq!(t.input_buffer.pop(), Some(Input::Key(1, 0)));
    assert_eq!(t.input_buffer.pop(), Some(Input::Key(2, 0)));
    // No event reopens it.
    t.poll(&vec![key_event(3)], (0, 0));
    assert!(!t.is_open);
}

#[test]
fn poll_derives_grid_size_and_resets_main() {
    let mut t = SdlTTY::new();
    // 800x600 pixels, 9x16 cells at scale 2: truncating division.
    t.poll(&Vec::new(), (800, 600));
    assert_eq!(t.size, (44, 18));
    assert_eq!(t.main.orgin, (0, 0));
    assert_eq!(t.main.size, (44, 18));
    assert_eq!(t.main.margin, 0);
    assert_eq!(t.main.cursor, (0, 0));
    // A margin handed out earlier is not kept by the next poll.
    t.main = t.get_main_port(2);
    assert_eq!(t.main.cursor, (2, 2));
    t.poll(&Vec::new(), (800, 600));
    assert_eq!(t.main.margin, 0);
    assert_eq!(t.main.cursor, (0, 0));
}
