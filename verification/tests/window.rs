use tcod_window::event::{KEY_PRESS, KEY_RELEASE, MOUSE_MOVE, MOUSE_PRESS, MOUSE_RELEASE};
use tcod_window::keycodes;
use tcod_window::{
    Console, Event, KeyCode, Mouse, MouseButton, PistonKey, RawEvent, RawState, Size, TcodKey,
    TcodWindow, WindowSettings,
};

fn settings() -> WindowSettings {
    WindowSettings::new(
        "My Application".to_owned(),
        Size {
            width: 100,
            height: 100,
        },
    )
}

fn key_event(flags: u32, code: KeyCode, printable: char) -> Option<RawEvent> {
    Some(RawEvent { flags, state: RawState::Key(TcodKey { code, printable }) })
}

fn mouse_event(flags: u32, mouse: Mouse) -> Option<RawEvent> {
    Some(RawEvent { flags, state: RawState::Mouse(mouse) })
}

fn at(x: i32, y: i32) -> Mouse {
    Mouse { x, y, ..Mouse::default() }
}

#[test]
fn test_new() {
    let _ = TcodWindow::new(
        WindowSettings::new(
           "My Application".to_owned(),
            Size {
                width: 100,
                height: 100,
            }
        )
    );
}

#[test]
fn test_from_console() {
    let settings = WindowSettings::new(
        "My Application".to_owned(),
        Size {
            width: 100,
            height: 100,
        }
    );
    let console = Console {
        width: settings.get_size().width as i32,
        height: settings.get_size().height as i32,
    };

    let _ = TcodWindow::with_console(console, settings);
}

#[test]
fn test_build_from_window_settings() {
    let settings = WindowSettings::new(
           "My Application".to_owned(),
            Size {
                width: 100,
                height: 100,
            }
        )
        .exit_on_esc(true);

    let _: TcodWindow = settings.build()
        .expect("Failed to build window.");
}

#[test]
fn test_window() {
    let mut window = TcodWindow::new(
        WindowSettings::new(
           "My Application".to_owned(),
            Size {
                width: 100,
                height: 100,
            }
        )
    );

    assert_eq!(window.should_close(), false);
    window.set_should_close(true);
    assert_eq!(window.should_close(), true);

    window.swap_buffers();

    let size = window.size();
    assert_eq!(size.width, 100);
    assert_eq!(size.height, 100);

    assert_eq!(window.poll_event(|| None), None);

    let draw_size = window.draw_size();
    assert_eq!(draw_size.width, 100);
    assert_eq!(draw_size.height, 100);
}

#[test]
fn test_advanced_window() {
    let mut window = TcodWindow::new(
        WindowSettings::new(
           "My Application".to_owned(),
            Size {
                width: 100,
                height: 100,
            }
        )
    );

    assert_eq!(window.get_title(), "My Application".to_owned());
    window.set_title("some other name".to_owned());
    assert_eq!(window.get_title(), "some other name".to_owned());

    assert_eq!(window.get_exit_on_esc(), false);
    window.set_exit_on_esc(true);
    assert_eq!(window.get_exit_on_esc(), true);

    window.set_capture_cursor(true);
}

#[test]
fn end_to_end() {
    let mut window = TcodWindow::new(settings());
    assert_eq!(window.should_close(), false);
    assert_eq!(window.get_title(), "My Application");
    window.set_title("X".to_owned());
    assert_eq!(window.get_title(), "X");
    assert_eq!(window.poll_event(|| None), None);
    assert_eq!(window.should_close(), false);
    assert_eq!(window.size(), Size { width: 100, height: 100 });
}

#[test]
fn settings_are_kept() {
    let settings = settings();
    assert_eq!(settings.get_title(), "My Application");
    assert_eq!(settings.get_size(), Size { width: 100, height: 100 });
    assert_eq!(settings.get_exit_on_esc(), false);
    let settings = settings.exit_on_esc(true);
    assert_eq!(settings.get_title(), "My Application");
    assert_eq!(settings.get_size(), Size { width: 100, height: 100 });
    assert_eq!(settings.get_exit_on_esc(), true);
    let settings = settings.exit_on_esc(false);
    assert_eq!(settings.get_exit_on_esc(), false);
}

#[test]
fn built_window_takes_the_settings() {
    let window = WindowSettings::new("built".to_owned(), Size { width: 80, height: 50 })
        .exit_on_esc(true)
        .build()
        .expect("Failed to build window.");
    assert_eq!(window.get_title(), "built");
    assert_eq!(window.get_exit_on_esc(), true);
    assert_eq!(window.should_close(), false);
    assert_eq!(window.has_pending(), false);
    assert_eq!(window.size(), Size { width: 80, height: 50 });
    assert_eq!(window.console(), Console { width: 80, height: 50 });

    let window = TcodWindow::build_from_window_settings(settings()).expect("Failed to build window.");
    assert_eq!(window.get_exit_on_esc(), false);
    assert_eq!(window.console(), Console { width: 100, height: 100 });
}

#[test]
fn with_console_takes_the_consoles_size() {
    let window = TcodWindow::with_console(Console { width: 61, height: 99 }, settings());
    assert_eq!(window.size(), Size { width: 61, height: 99 });
    assert_eq!(window.draw_size(), Size { width: 61, height: 99 });
    assert_eq!(window.console(), Console { width: 61, height: 99 });
    assert_eq!(window.get_title(), "My Application");
}

#[test]
fn size_and_draw_size_agree() {
    let mut window = TcodWindow::with_console(Console { width: 99, height: 61 }, settings());
    let expected = Size { width: 99, height: 61 };
    assert_eq!(window.draw_size(), expected);
    assert_eq!(window.size(), expected);
    assert_eq!(window.size(), window.draw_size());

    window.next_event(mouse_event(MOUSE_MOVE, at(12, 13)));
    assert_eq!(window.size(), expected);
    window.next_event(None);
    window.set_title("other".to_owned());
    window.set_should_close(true);
    window.set_exit_on_esc(true);
    window.swap_buffers();
    window.set_capture_cursor(false);
    assert_eq!(window.draw_size(), expected);
    assert_eq!(window.size(), expected);
}

#[test]
fn every_size_comes_back() {
    for (width, height) in [(0u32, 0u32), (1, 1), (80, 25), (i32::MAX as u32, 7), (u32::MAX, 0x8000_0000)] {
        let window = TcodWindow::new(WindowSettings::new(String::new(), Size { width, height }));
        assert_eq!(window.size(), Size { width, height });
        assert_eq!(window.draw_size(), Size { width, height });
    }
    let window = TcodWindow::with_console(Console { width: -1, height: i32::MIN }, settings());
    assert_eq!(window.size(), Size { width: u32::MAX, height: 0x8000_0000 });
}

#[test]
fn escape_closes_where_the_policy_says_so() {
    let mut window = TcodWindow::new(settings().exit_on_esc(true));
    assert_eq!(window.next_event(key_event(KEY_PRESS, KeyCode::Escape, '\0')), None);
    assert_eq!(window.should_close(), true);
    assert_eq!(window.has_pending(), false);
    assert_eq!(window.get_exit_on_esc(), true);
    // A closed window goes on delivering events.
    assert_eq!(
        window.next_event(key_event(KEY_PRESS, KeyCode::Char, 'a')),
        Some(Event::KeyPress(PistonKey { code: 0x61 }))
    );
    assert_eq!(window.should_close(), true);
}

#[test]
fn escape_is_a_key_where_the_policy_is_off() {
    let mut window = TcodWindow::new(settings());
    assert_eq!(
        window.next_event(key_event(KEY_PRESS, KeyCode::Escape, '\0')),
        Some(Event::KeyPress(PistonKey { code: keycodes::ESCAPE }))
    );
    assert_eq!(window.should_close(), false);

    window.set_exit_on_esc(true);
    assert_eq!(window.next_event(key_event(KEY_PRESS, KeyCode::Escape, '\0')), None);
    assert_eq!(window.should_close(), true);
}

#[test]
fn escape_release_never_closes() {
    let mut window = TcodWindow::new(settings().exit_on_esc(true));
    assert_eq!(
        window.next_event(key_event(KEY_RELEASE, KeyCode::Escape, '\0')),
        Some(Event::KeyRelease(PistonKey { code: 0x1B }))
    );
    assert_eq!(window.should_close(), false);
}

#[test]
fn other_keys_do_not_close() {
    let mut window = TcodWindow::new(settings().exit_on_esc(true));
    assert_eq!(
        window.next_event(key_event(KEY_PRESS, KeyCode::Enter, '\r')),
        Some(Event::KeyPress(PistonKey { code: 0x0D }))
    );
    // The character of Escape under another code is a character.
    assert_eq!(
        window.next_event(key_event(KEY_PRESS, KeyCode::Char, '\u{1b}')),
        Some(Event::KeyPress(PistonKey { code: 0x1B }))
    );
    assert_eq!(window.should_close(), false);
}

#[test]
fn keys_are_mapped() {
    let mut window = TcodWindow::new(settings());
    assert_eq!(
        window.next_event(key_event(KEY_PRESS, KeyCode::Char, 'Q')),
        Some(Event::KeyPress(PistonKey { code: 'q' as u32 }))
    );
    assert_eq!(
        window.next_event(key_event(KEY_RELEASE, KeyCode::Char, 'Q')),
        Some(Event::KeyRelease(PistonKey { code: 'q' as u32 }))
    );
    assert_eq!(
        window.next_event(key_event(KEY_PRESS, KeyCode::F1, 'Q')),
        Some(Event::KeyPress(PistonKey { code: 0x4000_003A }))
    );
    assert_eq!(
        window.next_event(key_event(KEY_RELEASE, KeyCode::Char, '\u{99}')),
        Some(Event::KeyRelease(PistonKey { code: 0 }))
    );
}

#[test]
fn move_gives_position_then_distance() {
    let mut window = TcodWindow::new(settings());
    assert_eq!(window.has_pending(), false);
    assert_eq!(
        window.next_event(mouse_event(MOUSE_MOVE, at(30, 40))),
        Some(Event::CursorMove(30, 40))
    );
    assert_eq!(window.has_pending(), true);
    assert_eq!(window.next_event(None), Some(Event::RelativeMove(30, 40)));
    assert_eq!(window.has_pending(), false);
    assert_eq!(window.next_event(None), None);

    // The distance is counted from the sample before.
    assert_eq!(
        window.next_event(mouse_event(MOUSE_MOVE, at(25, 47))),
        Some(Event::CursorMove(25, 47))
    );
    assert_eq!(window.next_event(None), Some(Event::RelativeMove(-5, 7)));
    assert_eq!(window.next_event(None), None);
    assert_eq!(window.should_close(), false);
}

#[test]
fn waiting_move_comes_before_what_was_polled() {
    let mut window = TcodWindow::new(settings().exit_on_esc(true));
    window.next_event(mouse_event(MOUSE_MOVE, at(3, 4)));
    // Whatever is handed in now is left aside: the waiting move goes out and
    // nothing else changes.
    assert_eq!(
        window.next_event(key_event(KEY_PRESS, KeyCode::Escape, '\0')),
        Some(Event::RelativeMove(3, 4))
    );
    assert_eq!(window.should_close(), false);
    assert_eq!(window.has_pending(), false);

    window.next_event(mouse_event(MOUSE_MOVE, at(10, 10)));
    assert_eq!(
        window.next_event(mouse_event(MOUSE_MOVE, at(500, 500))),
        Some(Event::RelativeMove(7, 6))
    );
    // The sample that was left aside was not remembered either.
    assert_eq!(
        window.next_event(mouse_event(MOUSE_MOVE, at(11, 12))),
        Some(Event::CursorMove(11, 12))
    );
    assert_eq!(window.next_event(None), Some(Event::RelativeMove(1, 2)));
}

#[test]
fn distance_does_not_overflow() {
    let mut window = TcodWindow::new(settings());
    window.next_event(mouse_event(MOUSE_MOVE, at(i32::MIN, i32::MAX)));
    assert_eq!(
        window.next_event(None),
        Some(Event::RelativeMove(-2147483648, 2147483647))
    );
    assert_eq!(
        window.next_event(mouse_event(MOUSE_MOVE, at(i32::MAX, i32::MIN))),
        Some(Event::CursorMove(i32::MAX, i32::MIN))
    );
    assert_eq!(
        window.next_event(None),
        Some(Event::RelativeMove(4294967295, -4294967295))
    );
    window.next_event(mouse_event(MOUSE_MOVE, at(i32::MAX, i32::MIN)));
    assert_eq!(window.next_event(None), Some(Event::RelativeMove(0, 0)));
}

#[test]
fn buttons_are_found_against_the_state_before() {
    let mut window = TcodWindow::new(settings());
    let left_down = Mouse { lbutton: true, ..at(5, 5) };
    assert_eq!(
        window.next_event(mouse_event(MOUSE_PRESS, left_down)),
        Some(Event::MouseButtonPress(MouseButton::Left))
    );
    assert_eq!(window.has_pending(), false);
    let both_down = Mouse { lbutton: true, rbutton: true, ..at(5, 5) };
    assert_eq!(
        window.next_event(mouse_event(MOUSE_PRESS, both_down)),
        Some(Event::MouseButtonPress(MouseButton::Right))
    );
    // The same state again: nothing differs.
    assert_eq!(
        window.next_event(mouse_event(MOUSE_PRESS, both_down)),
        Some(Event::MouseButtonPress(MouseButton::Unknown))
    );
    let right_down = Mouse { rbutton: true, ..at(5, 5) };
    assert_eq!(
        window.next_event(mouse_event(MOUSE_RELEASE, right_down)),
        Some(Event::MouseButtonRelease(MouseButton::Left))
    );
    let middle_down = Mouse { mbutton: true, ..at(5, 5) };
    assert_eq!(
        window.next_event(mouse_event(MOUSE_RELEASE, middle_down)),
        Some(Event::MouseButtonRelease(MouseButton::Middle))
    );
    assert_eq!(
        window.next_event(mouse_event(MOUSE_RELEASE, at(5, 5))),
        Some(Event::MouseButtonRelease(MouseButton::Middle))
    );
    assert_eq!(
        window.next_event(mouse_event(MOUSE_RELEASE, at(5, 5))),
        Some(Event::MouseButtonRelease(MouseButton::Unknown))
    );
}

#[test]
fn button_events_move_the_remembered_position() {
    let mut window = TcodWindow::new(settings());
    window.next_event(mouse_event(MOUSE_PRESS, Mouse { lbutton: true, ..at(20, 30) }));
    assert_eq!(
        window.next_event(mouse_event(MOUSE_MOVE, Mouse { lbutton: true, ..at(26, 28) })),
        Some(Event::CursorMove(26, 28))
    );
    assert_eq!(window.next_event(None), Some(Event::RelativeMove(6, -2)));
    // The move remembered the buttons too.
    assert_eq!(
        window.next_event(mouse_event(MOUSE_RELEASE, at(26, 28))),
        Some(Event::MouseButtonRelease(MouseButton::Left))
    );
}

#[test]
fn unrecognised_results_give_nothing() {
    let mut window = TcodWindow::new(settings().exit_on_esc(true));
    window.next_event(mouse_event(MOUSE_MOVE, at(1, 1)));
    window.next_event(None);
    let moved = Mouse { lbutton: true, ..at(9, 9) };
    for flags in [0u32, 3, 5, 9, 12, 17, 24, 28, 31, 32, 255, u32::MAX] {
        assert_eq!(window.next_event(mouse_event(flags, moved)), None);
        assert_eq!(window.next_event(key_event(flags, KeyCode::Escape, 'a')), None);
        assert_eq!(window.has_pending(), false);
        assert_eq!(window.should_close(), false);
    }
    // A mouse state under a key's flag, and a key under a mouse's.
    for flags in [KEY_PRESS, KEY_RELEASE] {
        assert_eq!(window.next_event(mouse_event(flags, moved)), None);
    }
    for flags in [MOUSE_MOVE, MOUSE_PRESS, MOUSE_RELEASE] {
        assert_eq!(window.next_event(key_event(flags, KeyCode::Escape, 'a')), None);
    }
    assert_eq!(window.has_pending(), false);
    assert_eq!(window.should_close(), false);
    // None of them was remembered: the next move counts from (1, 1).
    window.next_event(mouse_event(MOUSE_MOVE, at(4, 6)));
    assert_eq!(window.next_event(None), Some(Event::RelativeMove(3, 5)));
    assert_eq!(
        window.next_event(mouse_event(MOUSE_PRESS, Mouse { lbutton: true, ..at(4, 6) })),
        Some(Event::MouseButtonPress(MouseButton::Left))
    );
}

#[test]
fn close_flag_is_the_hosts_to_set() {
    let mut window = TcodWindow::new(settings().exit_on_esc(true));
    window.next_event(key_event(KEY_PRESS, KeyCode::Escape, '\0'));
    assert_eq!(window.should_close(), true);
    window.set_should_close(false);
    assert_eq!(window.should_close(), false);
    assert_eq!(window.get_exit_on_esc(), true);
    assert_eq!(window.get_title(), "My Application");
}

#[test]
fn flags_are_the_consoles() {
    assert_eq!(
        [KEY_PRESS, KEY_RELEASE, MOUSE_MOVE, MOUSE_PRESS, MOUSE_RELEASE],
        [1, 2, 4, 8, 16]
    );
}

#[test]
fn console_is_polled_once_when_nothing_waits() {
    let mut window = TcodWindow::new(settings());
    let mut polls = 0;
    let event = window.poll_event(|| {
        polls += 1;
        mouse_event(MOUSE_MOVE, at(2, 9))
    });
    assert_eq!(event, Some(Event::CursorMove(2, 9)));
    assert_eq!(polls, 1);
    assert_eq!(window.has_pending(), true);
}

#[test]
fn console_is_not_polled_while_a_move_waits() {
    let mut window = TcodWindow::new(settings().exit_on_esc(true));
    window.next_event(mouse_event(MOUSE_MOVE, at(2, 9)));
    let mut polls = 0;
    let event = window.poll_event(|| {
        polls += 1;
        key_event(KEY_PRESS, KeyCode::Escape, '\0')
    });
    assert_eq!(event, Some(Event::RelativeMove(2, 9)));
    assert_eq!(polls, 0);
    assert_eq!(window.should_close(), false);

    let event = window.poll_event(|| {
        polls += 1;
        key_event(KEY_PRESS, KeyCode::Escape, '\0')
    });
    assert_eq!(event, None);
    assert_eq!(polls, 1);
    assert_eq!(window.should_close(), true);
}

#[test]
fn polling_in_a_loop_gives_position_distance_nothing() {
    let mut window = TcodWindow::new(settings());
    let mut samples = vec![mouse_event(MOUSE_MOVE, at(40, 30))];
    let mut events = Vec::new();
    for _ in 0..3 {
        events.push(window.poll_event(|| samples.pop().flatten()));
    }
    assert_eq!(
        events,
        vec![Some(Event::CursorMove(40, 30)), Some(Event::RelativeMove(40, 30)), None]
    );
    assert!(samples.is_empty());
}
