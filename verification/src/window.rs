//! The window: the state that the adapter keeps between polls, and the step
//! that turns one poll result into at most one event.

use vstd::prelude::*;
use crate::event::{Event, RawEvent, RawState, KEY_PRESS, KEY_RELEASE, MOUSE_MOVE, MOUSE_PRESS, MOUSE_RELEASE};
use crate::keyboard::{lemma_map_key_in_table, map_key, tcod_map_key, KeyCode, PistonKey, TcodKey};
use crate::keycodes;
use crate::mouse::{map_mouse, tcod_map_mouse, Mouse};

verus! {

/// A width and a height.
#[derive(Clone, Copy, Debug, PartialEq, Eq, Structural)]
pub struct Size {
    pub width: u32,
    pub height: u32,
}

/// The root console that a window draws on, as far as the window reads it:
/// the width and height of its character grid, as the console reports them.
#[derive(Clone, Copy, Debug, PartialEq, Eq, Structural)]
pub struct Console {
    pub width: i32,
    pub height: i32,
}

impl Console {
    /// The size of the grid, each side taken as an unsigned number.
    pub open spec fn grid(&self) -> Size {
        Size { width: self.width as u32, height: self.height as u32 }
    }

    /// The console that is set up for a window of the given size.
    pub open spec fn sized(size: Size) -> Console {
        Console { width: size.width as i32, height: size.height as i32 }
    }

    /// The size of the grid. The console counts in signed numbers and the
    /// engine in unsigned ones: each side is taken over bit for bit.
    pub fn size(&self) -> (size: Size)
        ensures
            size == self.grid(),
    {
        Size {
            width: #[verifier::truncate] (self.width as u32),
            height: #[verifier::truncate] (self.height as u32),
        }
    }
}

/// What a window is built from, as a value: `WindowSettings` seen without its
/// representation.
pub struct SettingsModel {
    pub title: Seq<char>,
    pub size: Size,
    pub exit_on_esc: bool,
}

/// What a window is built from.
pub struct WindowSettings {
    title: String,
    size: Size,
    exit_on_esc: bool,
}

impl View for WindowSettings {
    type V = SettingsModel;

    closed spec fn view(&self) -> SettingsModel {
        SettingsModel { title: self.title@, size: self.size, exit_on_esc: self.exit_on_esc }
    }
}

impl WindowSettings {
    /// Settings with the given title and size; Escape does not close the
    /// window.
    pub fn new(title: String, size: Size) -> (settings: WindowSettings)
        ensures
            settings@ == (SettingsModel { title: title@, size: size, exit_on_esc: false }),
    {
        WindowSettings { title, size, exit_on_esc: false }
    }

    /// The title of the window to build.
    pub fn get_title(&self) -> (title: String)
        ensures
            title@ == self@.title,
    {
        self.title.clone()
    }

    /// The size of the window to build.
    pub fn get_size(&self) -> (size: Size)
        ensures
            size == self@.size,
    {
        self.size
    }

    /// Whether a press of Escape closes the window to build.
    pub fn get_exit_on_esc(&self) -> (value: bool)
        ensures
            value == self@.exit_on_esc,
    {
        self.exit_on_esc
    }

    /// The same settings with the policy on Escape replaced.
    pub fn exit_on_esc(self, value: bool) -> (settings: WindowSettings)
        ensures
            settings@ == (SettingsModel { exit_on_esc: value, ..self@ }),
    {
        WindowSettings { title: self.title, size: self.size, exit_on_esc: value }
    }

    /// Builds the window that these settings describe.
    pub fn build(self) -> (built: Result<TcodWindow, String>)
        ensures
            built is Ok,
            built->Ok_0@ == WindowModel::initial(Console::sized(self@.size), self@),
    {
        TcodWindow::build_from_window_settings(self)
    }
}

/// A window as a value: `TcodWindow` seen without its representation.
pub struct WindowModel {
    /// The console that the window draws on.
    pub console: Console,
    pub title: Seq<char>,
    pub should_close: bool,
    /// The relative move that the next call delivers, if one is waiting.
    pub pending: Option<(i64, i64)>,
    /// The mouse state of the last mouse event that was polled.
    pub previous: Mouse,
    pub exit_on_esc: bool,
}

impl WindowModel {
    /// A window as it is made: open, nothing waiting, the mouse at rest.
    pub open spec fn initial(console: Console, settings: SettingsModel) -> WindowModel {
        WindowModel {
            console: console,
            title: settings.title,
            should_close: false,
            pending: None,
            previous: Mouse::origin(),
            exit_on_esc: settings.exit_on_esc,
        }
    }

    /// The size that the window reports: that of the console's grid.
    pub open spec fn size(self) -> Size {
        self.console.grid()
    }

    /// The size of the area that the window draws on. A console has no
    /// drawable size apart from its grid.
    pub open spec fn draw_size(self) -> Size {
        self.console.grid()
    }

    /// The key that a poll result reports as pressed.
    pub open spec fn pressed_key(polled: Option<RawEvent>) -> Option<TcodKey> {
        match polled {
            Some(RawEvent { flags, state: RawState::Key(key) }) if flags == KEY_PRESS => Some(key),
            _ => None,
        }
    }

    /// The mouse state that a poll result carries with one of the three mouse
    /// events.
    pub open spec fn polled_mouse(polled: Option<RawEvent>) -> Option<Mouse> {
        match polled {
            Some(RawEvent { flags, state: RawState::Mouse(mouse) }) if flags == MOUSE_PRESS
                || flags == MOUSE_RELEASE || flags == MOUSE_MOVE => Some(mouse),
            _ => None,
        }
    }

    /// Whether a poll result is a press of Escape that closes this window.
    pub open spec fn closes_on(self, polled: Option<RawEvent>) -> bool {
        self.exit_on_esc && match Self::pressed_key(polled) {
            Some(key) => key.code == KeyCode::Escape,
            None => false,
        }
    }

    /// The event for a poll result, nothing waiting.
    pub open spec fn event_for(self, polled: Option<RawEvent>) -> Option<Event> {
        match polled {
            Some(RawEvent { flags, state: RawState::Key(key) }) => {
                if flags == KEY_PRESS {
                    if self.closes_on(polled) {
                        None
                    } else {
                        Some(Event::KeyPress(PistonKey { code: map_key(key) }))
                    }
                } else if flags == KEY_RELEASE {
                    Some(Event::KeyRelease(PistonKey { code: map_key(key) }))
                } else {
                    None
                }
            },
            Some(RawEvent { flags, state: RawState::Mouse(mouse) }) => {
                if flags == MOUSE_PRESS {
                    Some(Event::MouseButtonPress(map_mouse(self.previous, mouse)))
                } else if flags == MOUSE_RELEASE {
                    Some(Event::MouseButtonRelease(map_mouse(self.previous, mouse)))
                } else if flags == MOUSE_MOVE {
                    Some(Event::CursorMove(mouse.x, mouse.y))
                } else {
                    None
                }
            },
            None => None,
        }
    }

    /// The event that one call of `next_event` returns: the waiting relative
    /// move if there is one, the event for the poll result otherwise.
    pub open spec fn next_event(self, polled: Option<RawEvent>) -> Option<Event> {
        match self.pending {
            Some((dx, dy)) => Some(Event::RelativeMove(dx, dy)),
            None => self.event_for(polled),
        }
    }

    /// The window after one call of `next_event`. A call that delivers the
    /// waiting move only empties the slot. Any other call closes the window
    /// on Escape if the policy says so, remembers the mouse state of a mouse
    /// event, and puts the distance of a move into the slot.
    pub open spec fn next_state(self, polled: Option<RawEvent>) -> WindowModel {
        if self.pending is Some {
            WindowModel { pending: None, ..self }
        } else {
            WindowModel {
                should_close: self.should_close || self.closes_on(polled),
                pending: match polled {
                    Some(RawEvent { flags, state: RawState::Mouse(mouse) }) if flags
                        == MOUSE_MOVE => Some(
                        (
                            (mouse.x - self.previous.x) as i64,
                            (mouse.y - self.previous.y) as i64,
                        ),
                    ),
                    _ => None,
                },
                previous: match Self::polled_mouse(polled) {
                    Some(mouse) => mouse,
                    None => self.previous,
                },
                ..self
            }
        }
    }
}

/// A window on a console: what the engine asks of a window, answered from
/// the console's polled state.
pub struct TcodWindow {
    window: Console,
    title: String,
    should_close: bool,
    mouse_relative: Option<(i64, i64)>,
    mouse_state_prev: Mouse,
    exit_on_esc: bool,
}

impl View for TcodWindow {
    type V = WindowModel;

    closed spec fn view(&self) -> WindowModel {
        WindowModel {
            console: self.window,
            title: self.title@,
            should_close: self.should_close,
            pending: self.mouse_relative,
            previous: self.mouse_state_prev,
            exit_on_esc: self.exit_on_esc,
        }
    }
}

impl TcodWindow {
    /// Creates a window from the settings, on a console of the settings'
    /// size.
    pub fn new(settings: WindowSettings) -> (window: TcodWindow)
        ensures
            window@ == WindowModel::initial(Console::sized(settings@.size), settings@),
            window@.size() == settings@.size,
    {
        proof {
            lemma_sized_console_grid(settings@.size);
        }
        let size = settings.get_size();
        let console = Console {
            width: #[verifier::truncate] (size.width as i32),
            height: #[verifier::truncate] (size.height as i32),
        };
        Self::with_console(console, settings)
    }

    /// Creates a window on a console that exists already. The settings give
    /// the title and the policy on Escape; their size is not looked at.
    pub fn with_console(console: Console, settings: WindowSettings) -> (window: TcodWindow)
        ensures
            window@ == WindowModel::initial(console, settings@),
    {
        TcodWindow {
            window: console,
            title: settings.get_title(),
            should_close: false,
            mouse_relative: None,
            mouse_state_prev: Mouse::default(),
            exit_on_esc: settings.get_exit_on_esc(),
        }
    }

    /// Builds the window from the settings; this cannot fail.
    pub fn build_from_window_settings(settings: WindowSettings) -> (built: Result<
        TcodWindow,
        String,
    >)
        ensures
            built is Ok,
            built->Ok_0@ == WindowModel::initial(Console::sized(settings@.size), settings@),
    {
        Ok(TcodWindow::new(settings))
    }

    /// The console that the window draws on.
    pub fn console(&self) -> (console: Console)
        ensures
            console == self@.console,
    {
        self.window
    }

    /// Whether a relative move waits to be delivered.
    pub fn has_pending(&self) -> (waiting: bool)
        ensures
            waiting == (self@.pending is Some),
    {
        self.mouse_relative.is_some()
    }

    /// Returns the next event, if any, polling the console through `poll`
    /// at most once.
    ///
    /// A relative move that waits from the call before is delivered without
    /// polling. Otherwise the console is polled once, and what it gave goes
    /// through `next_event`.
    pub fn poll_event<F: FnOnce() -> Option<RawEvent>>(&mut self, poll: F) -> (event: Option<
        Event,
    >)
        requires
            old(self)@.pending is None ==> poll.requires(()),
        ensures
            old(self)@.pending is Some ==> event == old(self)@.next_event(None) && final(self)@
                == old(self)@.next_state(None),
            old(self)@.pending is None ==> exists|polled: Option<RawEvent>|
                #[trigger] poll.ensures((), polled) && event == old(self)@.next_event(polled)
                    && final(self)@ == old(self)@.next_state(polled),
            event matches Some(e) ==> e.wf(),
    {
        if self.mouse_relative.is_some() {
            self.next_event(None)
        } else {
            let polled = poll();
            self.next_event(polled)
        }
    }

    /// Returns the next event, if any, for what one poll of the console gave.
    ///
    /// A relative move that waits from the call before is delivered first,
    /// and `polled` is then left aside. Otherwise `polled` becomes an event:
    /// a key goes through `tcod_map_key`, except that a press of Escape closes
    /// the window without an event where the policy says so; a mouse button
    /// is found by `tcod_map_mouse` against the mouse state remembered; a move
    /// gives the new position now and leaves the distance moved for the next
    /// call.
    pub fn next_event(&mut self, polled: Option<RawEvent>) -> (event: Option<Event>)
        ensures
            event == old(self)@.next_event(polled),
            final(self)@ == old(self)@.next_state(polled),
            event matches Some(e) ==> e.wf(),
    {
        if let Some((x, y)) = self.mouse_relative {
            self.mouse_relative = None;
            return Some(Event::RelativeMove(x, y));
        }
        match polled {
            Some(RawEvent { flags, state: RawState::Key(key_state) }) => {
                if flags == KEY_PRESS {
                    if self.exit_on_esc && key_state.code == KeyCode::Escape {
                        self.should_close = true;
                        None
                    } else {
                        Some(Event::KeyPress(tcod_map_key(key_state)))
                    }
                } else if flags == KEY_RELEASE {
                    Some(Event::KeyRelease(tcod_map_key(key_state)))
                } else {
                    None
                }
            },
            Some(RawEvent { flags, state: RawState::Mouse(mouse_state) }) => {
                if flags == MOUSE_PRESS {
                    let button = tcod_map_mouse(self.mouse_state_prev, &mouse_state);
                    self.mouse_state_prev = mouse_state;
                    Some(Event::MouseButtonPress(button))
                } else if flags == MOUSE_RELEASE {
                    let button = tcod_map_mouse(self.mouse_state_prev, &mouse_state);
                    self.mouse_state_prev = mouse_state;
                    Some(Event::MouseButtonRelease(button))
                } else if flags == MOUSE_MOVE {
                    self.mouse_relative = Some(
                        (
                            mouse_state.x as i64 - self.mouse_state_prev.x as i64,
                            mouse_state.y as i64 - self.mouse_state_prev.y as i64,
                        ),
                    );
                    self.mouse_state_prev = mouse_state;
                    Some(Event::CursorMove(mouse_state.x, mouse_state.y))
                } else {
                    None
                }
            },
            None => None,
        }
    }

    /// Whether the window is to close: the host's loop ends when it is.
    pub fn should_close(&self) -> (value: bool)
        ensures
            value == self@.should_close,
    {
        self.should_close
    }

    /// Asks the window to close, or to stay open after all.
    pub fn set_should_close(&mut self, value: bool)
        ensures
            final(self)@ == (WindowModel { should_close: value, ..old(self)@ }),
    {
        self.should_close = value;
    }

    /// Shows what was drawn. The console does that; nothing of the window
    /// changes.
    pub fn swap_buffers(&mut self)
        ensures
            final(self)@ == old(self)@,
    {
    }

    /// The size of the window: that of the console's grid.
    pub fn size(&self) -> (size: Size)
        ensures
            size == self@.size(),
    {
        self.window.size()
    }

    /// The size of the area drawn on: the console has one size only, so this
    /// is `size`.
    pub fn draw_size(&self) -> (size: Size)
        ensures
            size == self@.draw_size(),
            size == self@.size(),
    {
        self.window.size()
    }

    /// The title that the window remembers.
    pub fn get_title(&self) -> (title: String)
        ensures
            title@ == self@.title,
    {
        self.title.clone()
    }

    /// Replaces the title that the window remembers.
    pub fn set_title(&mut self, value: String)
        ensures
            final(self)@ == (WindowModel { title: value@, ..old(self)@ }),
    {
        self.title = value
    }

    /// Whether a press of Escape closes the window.
    pub fn get_exit_on_esc(&self) -> (value: bool)
        ensures
            value == self@.exit_on_esc,
    {
        self.exit_on_esc
    }

    /// Sets whether a press of Escape closes the window.
    pub fn set_exit_on_esc(&mut self, value: bool)
        ensures
            final(self)@ == (WindowModel { exit_on_esc: value, ..old(self)@ }),
    {
        self.exit_on_esc = value;
    }

    /// Accepted and without effect: a console cannot capture the pointer.
    pub fn set_capture_cursor(&mut self, _value: bool)
        ensures
            final(self)@ == old(self)@,
    {
    }
}

/// A waiting relative move is delivered before anything else: the call
/// returns it, empties the slot, changes nothing more, and what was polled
/// plays no part.
pub proof fn lemma_pending_delivered_first(s: WindowModel, polled: Option<RawEvent>)
    requires
        s.pending is Some,
    ensures
        s.next_event(polled) == Some(Event::RelativeMove(s.pending->Some_0.0, s.pending->Some_0.1)),
        s.next_state(polled) == (WindowModel { pending: None, ..s }),
{
}

/// Where Escape closes the window, a press of Escape gives no event and
/// sets the close flag; nothing else of the window changes.
pub proof fn lemma_escape_closes(s: WindowModel, key: TcodKey)
    requires
        s.pending is None,
        s.exit_on_esc,
        key.code == KeyCode::Escape,
    ensures
        s.next_event(Some(RawEvent { flags: KEY_PRESS, state: RawState::Key(key) })) is None,
        s.next_state(Some(RawEvent { flags: KEY_PRESS, state: RawState::Key(key) })) == (
        WindowModel { should_close: true, ..s }),
{
}

/// Where Escape does not close the window, a press of Escape is an
/// ordinary key press and the window stays as it is, the close flag too.
pub proof fn lemma_escape_delivered(s: WindowModel, key: TcodKey)
    requires
        s.pending is None,
        !s.exit_on_esc,
        key.code == KeyCode::Escape,
    ensures
        s.next_event(Some(RawEvent { flags: KEY_PRESS, state: RawState::Key(key) })) == Some(
            Event::KeyPress(PistonKey { code: keycodes::ESCAPE }),
        ),
        s.next_state(Some(RawEvent { flags: KEY_PRESS, state: RawState::Key(key) })) == s,
{
}

/// A release is never held back: the release of any key, Escape too, is
/// delivered whatever the policy, and leaves the window as it is.
pub proof fn lemma_release_delivered(s: WindowModel, key: TcodKey)
    requires
        s.pending is None,
    ensures
        s.next_event(Some(RawEvent { flags: KEY_RELEASE, state: RawState::Key(key) })) == Some(
            Event::KeyRelease(PistonKey { code: map_key(key) }),
        ),
        s.next_state(Some(RawEvent { flags: KEY_RELEASE, state: RawState::Key(key) })) == s,
{
}

/// The order in which one move of the pointer is delivered. The call that
/// is handed the sample returns the new position. The call after it returns
/// the distance from the position remembered before the sample, whatever it
/// is handed. A third call that is handed nothing returns nothing.
pub proof fn lemma_move_order(s: WindowModel, mouse: Mouse, second: Option<RawEvent>)
    requires
        s.pending is None,
    ensures
        ({
            let sample = Some(RawEvent { flags: MOUSE_MOVE, state: RawState::Mouse(mouse) });
            let s1 = s.next_state(sample);
            let s2 = s1.next_state(second);
            &&& s.next_event(sample) == Some(Event::CursorMove(mouse.x, mouse.y))
            &&& s1.previous == mouse
            &&& s1.next_event(second) == Some(
                Event::RelativeMove(
                    (mouse.x - s.previous.x) as i64,
                    (mouse.y - s.previous.y) as i64,
                ),
            )
            &&& s2 == (WindowModel { pending: None, ..s1 })
            &&& s2.next_event(None) is None
            &&& s2.next_state(None) == s2
        }),
{
}

/// A press or release of a mouse button names the button found against the
/// mouse state remembered, and the state polled is remembered in its place.
pub proof fn lemma_button_events(s: WindowModel, mouse: Mouse)
    requires
        s.pending is None,
    ensures
        s.next_event(Some(RawEvent { flags: MOUSE_PRESS, state: RawState::Mouse(mouse) }))
            == Some(Event::MouseButtonPress(map_mouse(s.previous, mouse))),
        s.next_event(Some(RawEvent { flags: MOUSE_RELEASE, state: RawState::Mouse(mouse) }))
            == Some(Event::MouseButtonRelease(map_mouse(s.previous, mouse))),
        s.next_state(Some(RawEvent { flags: MOUSE_PRESS, state: RawState::Mouse(mouse) })) == (
        WindowModel { previous: mouse, ..s }),
        s.next_state(Some(RawEvent { flags: MOUSE_RELEASE, state: RawState::Mouse(mouse) })) == (
        WindowModel { previous: mouse, ..s }),
{
}

/// With nothing waiting and nothing polled there is no event and no change.
pub proof fn lemma_idle(s: WindowModel)
    requires
        s.pending is None,
    ensures
        s.next_event(None) is None,
        s.next_state(None) == s,
{
}

/// `size` and `draw_size` report the same width and height, and go on
/// reporting them whatever is polled in between.
pub proof fn lemma_size_is_draw_size(s: WindowModel, polled: Option<RawEvent>)
    ensures
        s.size() == s.draw_size(),
        s.next_state(polled).size() == s.size(),
        s.next_state(polled).draw_size() == s.draw_size(),
{
}

/// Polling never touches the console, the title or the policy on Escape, and
/// never reopens a window.
pub proof fn lemma_poll_keeps_window(s: WindowModel, polled: Option<RawEvent>)
    ensures
        s.next_state(polled).console == s.console,
        s.next_state(polled).title == s.title,
        s.next_state(polled).exit_on_esc == s.exit_on_esc,
        s.should_close ==> s.next_state(polled).should_close,
{
}

/// Every event that is returned is well formed: a key event carries a key of
/// the engine, at worst the unknown one.
pub proof fn lemma_events_well_formed(s: WindowModel, polled: Option<RawEvent>)
    ensures
        s.next_event(polled) matches Some(event) ==> event.wf(),
{
    if let Some(RawEvent { flags, state: RawState::Key(key) }) = polled {
        lemma_map_key_in_table(key);
    }
}

/// A console that is set up for a size reports that size.
pub proof fn lemma_sized_console_grid(size: Size)
    ensures
        Console::sized(size).grid() == size,
{
    let w = size.width;
    let h = size.height;
    assert((w as i32) as u32 == w) by (bit_vector);
    assert((h as i32) as u32 == h) by (bit_vector);
}

} // verus!
