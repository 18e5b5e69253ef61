//! The input snapshot: keyboard and mouse state rebuilt from the terminal's
//! event stream, and the quiescence signal that drives input coalescing.
//!
//! Events come in as plain values of the library's own event vocabulary; the
//! terminal backend converts its wire format into these.

use vstd::prelude::*;
use crate::geometry::VecI2;

verus! {

/// Whether the scheduler should keep draining input before re-rendering:
/// `No` marks a discrete, non-coalescable state change that should stop
/// coalescing and trigger an immediate re-render.
#[derive(Debug, Clone, Copy, PartialEq, Eq, Structural, Hash)]
pub enum MoreInput {
    Yes,
    No,
}

impl MoreInput {
    pub fn as_bool(self) -> (r: bool)
        ensures
            r == (self == MoreInput::Yes),
    {
        match self {
            MoreInput::Yes => true,
            MoreInput::No => false,
        }
    }

    pub fn of_bool(value: bool) -> (r: Self)
        ensures
            (r == MoreInput::Yes) == value,
    {
        if value {
            MoreInput::Yes
        } else {
            MoreInput::No
        }
    }

    /// `Yes` only when both sides say `Yes`.
    pub fn and(self, rhs: Self) -> (r: Self)
        ensures
            (r == MoreInput::Yes) == (self == MoreInput::Yes && rhs == MoreInput::Yes),
    {
        match (self, rhs) {
            (MoreInput::Yes, MoreInput::Yes) => MoreInput::Yes,
            _ => MoreInput::No,
        }
    }

    /// `Yes` when either side says `Yes`.
    pub fn or(self, rhs: Self) -> (r: Self)
        ensures
            (r == MoreInput::Yes) == (self == MoreInput::Yes || rhs == MoreInput::Yes),
    {
        match (self, rhs) {
            (MoreInput::No, MoreInput::No) => MoreInput::No,
            _ => MoreInput::Yes,
        }
    }
}

/// A key, as the terminal reports it.
#[derive(Debug, Clone, Copy, PartialEq, Eq, Structural, Hash)]
pub enum KeyCode {
    Char(char),
    Enter,
    Tab,
    BackTab,
    Backspace,
    Delete,
    Insert,
    Esc,
    Up,
    Down,
    Left,
    Right,
    Home,
    End,
    PageUp,
    PageDown,
    F(u8),
    Null,
}

/// The modifier keys held with a key press.
#[derive(Debug, Clone, Copy, PartialEq, Eq, Structural, Hash)]
pub struct KeyModifiers {
    pub shift: bool,
    pub control: bool,
    pub alt: bool,
}

impl KeyModifiers {
    pub fn none() -> (r: Self)
        ensures
            r == (KeyModifiers { shift: false, control: false, alt: false }),
    {
        KeyModifiers { shift: false, control: false, alt: false }
    }
}

#[derive(Debug, Clone, Copy, PartialEq, Eq, Structural, Hash)]
pub enum KeyEventKind {
    Press,
    Repeat,
    Release,
}

/// One keyboard event.
#[derive(Debug, Clone, Copy, PartialEq, Eq, Structural, Hash)]
pub struct KeyEvent {
    pub code: KeyCode,
    pub modifiers: KeyModifiers,
    pub kind: KeyEventKind,
}

#[derive(Debug, Clone, Copy, PartialEq, Eq, Structural, Hash)]
pub enum MouseButton {
    Left,
    Right,
    Middle,
}

#[derive(Debug, Clone, Copy, PartialEq, Eq, Structural, Hash)]
pub enum MouseEventKind {
    Down(MouseButton),
    Up(MouseButton),
    Drag(MouseButton),
    Moved,
    ScrollDown,
    ScrollUp,
}

/// One mouse event at a grid position.
#[derive(Debug, Clone, Copy, PartialEq, Eq, Structural, Hash)]
pub struct MouseEvent {
    pub kind: MouseEventKind,
    pub column: u16,
    pub row: u16,
}

/// The event vocabulary the engine consumes.
#[derive(Debug, Clone, PartialEq)]
pub enum Event {
    FocusGained,
    FocusLost,
    Key(KeyEvent),
    Mouse(MouseEvent),
    Paste(Vec<char>),
    Resize(u16, u16),
}

/// One mouse button's state across frames.
#[derive(Debug, Clone, Copy, PartialEq, Eq, Structural)]
pub enum MouseButtonState {
    UnPressed,
    Down(VecI2),
    Held(VecI2),
    Released(VecI2),
    Drag { start: VecI2, current: VecI2 },
    DragReleased { start: VecI2, released: VecI2 },
}

impl Default for MouseButtonState {
    fn default() -> (r: Self)
        ensures
            r == MouseButtonState::UnPressed,
    {
        MouseButtonState::UnPressed
    }
}

impl MouseButtonState {
    /// Whether the button is currently held (down, held or dragging).
    pub open spec fn spec_is_down(self) -> bool {
        match self {
            MouseButtonState::UnPressed => false,
            MouseButtonState::Down(..) => true,
            MouseButtonState::Held(..) => true,
            MouseButtonState::Released(..) => false,
            MouseButtonState::DragReleased { .. } => false,
            MouseButtonState::Drag { .. } => true,
        }
    }

    pub fn is_down(&self) -> (r: bool)
        ensures
            r == self.spec_is_down(),
    {
        match self {
            MouseButtonState::UnPressed => false,
            MouseButtonState::Down(..) => true,
            MouseButtonState::Held(..) => true,
            MouseButtonState::Released(..) => false,
            MouseButtonState::DragReleased { .. } => false,
            MouseButtonState::Drag { .. } => true,
        }
    }

    pub fn is_up(&self) -> (r: bool)
        ensures
            r == !self.spec_is_down(),
    {
        !self.is_down()
    }

    /// The state carried into the next frame: a fresh press becomes held, a
    /// release becomes unpressed. Returns `No` (re-render now) exactly when
    /// the state changed.
    pub fn next_state(&mut self) -> (r: MoreInput)
        ensures
            *final(self) == match *old(self) {
                MouseButtonState::Down(pos) => MouseButtonState::Held(pos),
                MouseButtonState::Released(..) => MouseButtonState::UnPressed,
                MouseButtonState::DragReleased { .. } => MouseButtonState::UnPressed,
                s => s,
            },
            (r == MoreInput::No) == (*old(self) matches MouseButtonState::Down(..)
                || *old(self) matches MouseButtonState::Released(..) || *old(
                self,
            ) matches MouseButtonState::DragReleased { .. }),
    {
        match *self {
            MouseButtonState::Down(pos) => {
                *self = MouseButtonState::Held(pos);
            },
            MouseButtonState::Released(..) => {
                *self = MouseButtonState::UnPressed;
            },
            MouseButtonState::DragReleased { .. } => {
                *self = MouseButtonState::UnPressed;
            },
            _ => {
                return MoreInput::Yes;
            },
        }
        MoreInput::No
    }

    /// A drag report: a held or dragging button moves to `current`. A drag
    /// that does not fit the current state (the terminal dropped events) is
    /// itself dropped.
    pub fn button_dragged(&mut self, current: VecI2)
        ensures
            *final(self) == match *old(self) {
                MouseButtonState::Held(start) => MouseButtonState::Drag { start, current },
                MouseButtonState::Drag { start, .. } => MouseButtonState::Drag { start, current },
                s => s,
            },
    {
        match *self {
            MouseButtonState::Held(start) => {
                *self = MouseButtonState::Drag { start, current };
            },
            MouseButtonState::Drag { start, .. } => {
                *self = MouseButtonState::Drag { start, current };
            },
            _ => {},
        }
    }

    /// A release report at `pos`; a release that does not fit the current
    /// state is dropped.
    pub fn button_up(&mut self, pos: VecI2)
        ensures
            *final(self) == match *old(self) {
                MouseButtonState::Held(_) => MouseButtonState::Released(pos),
                MouseButtonState::Drag { start, .. } => MouseButtonState::DragReleased {
                    start,
                    released: pos,
                },
                s => s,
            },
    {
        match *self {
            MouseButtonState::Held(_) => {
                *self = MouseButtonState::Released(pos);
            },
            MouseButtonState::Drag { start, .. } => {
                *self = MouseButtonState::DragReleased { start, released: pos };
            },
            _ => {},
        }
    }

    /// A press report at `pos`; a press while the button is already engaged
    /// is dropped.
    pub fn button_down(&mut self, pos: VecI2)
        ensures
            *final(self) == match *old(self) {
                MouseButtonState::UnPressed => MouseButtonState::Down(pos),
                s => s,
            },
    {
        match *self {
            MouseButtonState::UnPressed => {
                *self = MouseButtonState::Down(pos);
            },
            _ => {},
        }
    }
}

/// The three tracked mouse buttons.
#[derive(Debug, Clone, Copy, PartialEq, Eq, Structural)]
pub struct MouseButtons {
    pub primary: MouseButtonState,
    pub middle: MouseButtonState,
    pub secondary: MouseButtonState,
}

impl MouseButtons {
    pub fn all_unpressed() -> (r: Self)
        ensures
            r == (MouseButtons {
                primary: MouseButtonState::UnPressed,
                middle: MouseButtonState::UnPressed,
                secondary: MouseButtonState::UnPressed,
            }),
    {
        MouseButtons {
            primary: MouseButtonState::UnPressed,
            middle: MouseButtonState::UnPressed,
            secondary: MouseButtonState::UnPressed,
        }
    }
}

/// The mouse snapshot for one frame.
#[derive(Debug, Clone, Copy, PartialEq, Eq, Structural)]
pub struct MouseState {
    pub position: Option<VecI2>,
    pub buttons: MouseButtons,
    pub delta_scroll: i16,
}

impl MouseState {
    pub fn new() -> (r: Self)
        ensures
            r.position is None,
            r.buttons == MouseButtons::all_unpressed_spec(),
            r.delta_scroll == 0i16,
    {
        MouseState { position: None, buttons: MouseButtons::all_unpressed(), delta_scroll: 0 }
    }

    /// Carry the buttons into the next frame and reset the scroll delta;
    /// `No` when any button's state changed.
    pub fn next_state(&mut self) -> (r: MoreInput)
        ensures
            final(self).position == old(self).position,
            final(self).delta_scroll == 0i16,
            (r == MoreInput::Yes) == (spec_button_next(old(self).buttons.primary).1
                == MoreInput::Yes && spec_button_next(old(self).buttons.middle).1 == MoreInput::Yes
                && spec_button_next(old(self).buttons.secondary).1 == MoreInput::Yes),
            final(self).buttons == (MouseButtons {
                primary: spec_button_next(old(self).buttons.primary).0,
                middle: spec_button_next(old(self).buttons.middle).0,
                secondary: spec_button_next(old(self).buttons.secondary).0,
            }),
    {
        let mut more_input = MoreInput::Yes;
        more_input = more_input.and(self.buttons.primary.next_state());
        more_input = more_input.and(self.buttons.middle.next_state());
        more_input = more_input.and(self.buttons.secondary.next_state());
        self.delta_scroll = 0;
        more_input
    }

    /// Fold one mouse event into the snapshot: button events route to the
    /// named button and stop coalescing (`No`); moves and scrolls coalesce
    /// (`Yes`). The position always updates to the event's.
    pub fn handle_event(&mut self, event: MouseEvent) -> (r: MoreInput)
        ensures
            ({
                let (s, m) = spec_handle_mouse(*old(self), event);
                *final(self) == s && r == m
            }),
    {
        let event_pos = VecI2 { x: event.column, y: event.row };
        self.position = Some(event_pos);
        match event.kind {
            MouseEventKind::Down(button) => {
                match button {
                    MouseButton::Left => self.buttons.primary.button_down(event_pos),
                    MouseButton::Right => self.buttons.secondary.button_down(event_pos),
                    MouseButton::Middle => self.buttons.middle.button_down(event_pos),
                }
                MoreInput::No
            },
            MouseEventKind::Up(button) => {
                match button {
                    MouseButton::Left => self.buttons.primary.button_up(event_pos),
                    MouseButton::Right => self.buttons.secondary.button_up(event_pos),
                    MouseButton::Middle => self.buttons.middle.button_up(event_pos),
                }
                MoreInput::No
            },
            MouseEventKind::Drag(button) => {
                match button {
                    MouseButton::Left => self.buttons.primary.button_dragged(event_pos),
                    MouseButton::Right => self.buttons.secondary.button_dragged(event_pos),
                    MouseButton::Middle => self.buttons.middle.button_dragged(event_pos),
                }
                MoreInput::No
            },
            MouseEventKind::Moved => MoreInput::Yes,
            MouseEventKind::ScrollDown => {
                if self.delta_scroll > i16::MIN {
                    self.delta_scroll = self.delta_scroll - 1;
                }
                MoreInput::Yes
            },
            MouseEventKind::ScrollUp => {
                if self.delta_scroll < i16::MAX {
                    self.delta_scroll = self.delta_scroll + 1;
                }
                MoreInput::Yes
            },
        }
    }
}

impl MouseButtons {
    pub open spec fn all_unpressed_spec() -> MouseButtons {
        MouseButtons {
            primary: MouseButtonState::UnPressed,
            middle: MouseButtonState::UnPressed,
            secondary: MouseButtonState::UnPressed,
        }
    }
}

/// One button's frame transition, as [`MouseButtonState::next_state`] makes
/// it, with the quiescence signal.
pub open spec fn spec_button_next(s: MouseButtonState) -> (MouseButtonState, MoreInput) {
    match s {
        MouseButtonState::Down(pos) => (MouseButtonState::Held(pos), MoreInput::No),
        MouseButtonState::Released(..) => (MouseButtonState::UnPressed, MoreInput::No),
        MouseButtonState::DragReleased { .. } => (MouseButtonState::UnPressed, MoreInput::No),
        other => (other, MoreInput::Yes),
    }
}

/// One button's reaction to a press, release or drag report.
pub open spec fn spec_button_event(s: MouseButtonState, kind: MouseEventKind, pos: VecI2) -> MouseButtonState {
    match kind {
        MouseEventKind::Down(_) => match s {
            MouseButtonState::UnPressed => MouseButtonState::Down(pos),
            other => other,
        },
        MouseEventKind::Up(_) => match s {
            MouseButtonState::Held(_) => MouseButtonState::Released(pos),
            MouseButtonState::Drag { start, .. } => MouseButtonState::DragReleased {
                start,
                released: pos,
            },
            other => other,
        },
        MouseEventKind::Drag(_) => match s {
            MouseButtonState::Held(start) => MouseButtonState::Drag { start, current: pos },
            MouseButtonState::Drag { start, .. } => MouseButtonState::Drag { start, current: pos },
            other => other,
        },
        _ => s,
    }
}

/// The mouse snapshot after one event, and its quiescence signal.
pub open spec fn spec_handle_mouse(s: MouseState, event: MouseEvent) -> (MouseState, MoreInput) {
    let pos = VecI2 { x: event.column, y: event.row };
    let s1 = MouseState { position: Some(pos), ..s };
    match event.kind {
        MouseEventKind::Down(b) | MouseEventKind::Up(b) | MouseEventKind::Drag(b) => {
            let buttons = match b {
                MouseButton::Left => MouseButtons {
                    primary: spec_button_event(s1.buttons.primary, event.kind, pos),
                    ..s1.buttons
                },
                MouseButton::Right => MouseButtons {
                    secondary: spec_button_event(s1.buttons.secondary, event.kind, pos),
                    ..s1.buttons
                },
                MouseButton::Middle => MouseButtons {
                    middle: spec_button_event(s1.buttons.middle, event.kind, pos),
                    ..s1.buttons
                },
            };
            (MouseState { buttons, ..s1 }, MoreInput::No)
        },
        MouseEventKind::Moved => (s1, MoreInput::Yes),
        MouseEventKind::ScrollDown => (
            MouseState {
                delta_scroll: if s1.delta_scroll == i16::MIN {
                    i16::MIN
                } else {
                    (s1.delta_scroll - 1) as i16
                },
                ..s1
            },
            MoreInput::Yes,
        ),
        MouseEventKind::ScrollUp => (
            MouseState {
                delta_scroll: if s1.delta_scroll == i16::MAX {
                    i16::MAX
                } else {
                    (s1.delta_scroll + 1) as i16
                },
                ..s1
            },
            MoreInput::Yes,
        ),
    }
}

/// The keyboard snapshot for one frame: the text typed this frame, and every
/// key pressed this frame with its modifiers (in arrival order).
#[derive(Debug, PartialEq)]
pub struct KeyboardState {
    pub frame_input: Vec<char>,
    pub pressed: Vec<(KeyCode, KeyModifiers)>,
}

/// Whether `pressed` records a press of `code`.
pub open spec fn spec_key_pressed(pressed: Seq<(KeyCode, KeyModifiers)>, code: KeyCode) -> bool {
    exists|i: int| 0 <= i < pressed.len() && pressed[i].0 == code
}

impl KeyboardState {
    pub fn new() -> (r: Self)
        ensures
            r.frame_input@ == Seq::<char>::empty(),
            r.pressed@ == Seq::<(KeyCode, KeyModifiers)>::empty(),
    {
        KeyboardState { frame_input: Vec::new(), pressed: Vec::new() }
    }

    /// Forget this frame's input; the keyboard never blocks coalescing here.
    pub fn next_state(&mut self) -> (r: MoreInput)
        ensures
            final(self).frame_input@ == Seq::<char>::empty(),
            final(self).pressed@ == Seq::<(KeyCode, KeyModifiers)>::empty(),
            r == MoreInput::Yes,
    {
        self.frame_input.clear();
        self.pressed.clear();
        MoreInput::Yes
    }

    pub fn get_input(&self) -> (r: &Vec<char>)
        ensures
            r@ == self.frame_input@,
    {
        &self.frame_input
    }

    /// Whether `code` was pressed this frame.
    pub fn is_pressed(&self, code: KeyCode) -> (r: bool)
        ensures
            r == spec_key_pressed(self.pressed@, code),
    {
        let n = self.pressed.len();
        let mut i: usize = 0;
        while i < n
            invariant
                i <= n,
                n == self.pressed@.len(),
                forall|k: int| 0 <= k < i ==> (#[trigger] self.pressed@[k]).0 != code,
            decreases n - i,
        {
            if self.pressed[i].0 == code {
                return true;
            }
            i += 1;
        }
        false
    }

    /// Pasted text joins this frame's input unchanged.
    pub fn handle_paste(&mut self, paste: &Vec<char>) -> (r: MoreInput)
        ensures
            final(self).frame_input@ == old(self).frame_input@ + paste@,
            final(self).pressed@ == old(self).pressed@,
            r == MoreInput::Yes,
    {
        let n = paste.len();
        let mut i: usize = 0;
        while i < n
            invariant
                i <= n,
                n == paste@.len(),
                self.frame_input@ == old(self).frame_input@ + paste@.subrange(0, i as int),
                self.pressed == old(self).pressed,
            decreases n - i,
        {
            self.frame_input.push(paste[i]);
            proof {
                assert(self.frame_input@ =~= old(self).frame_input@ + paste@.subrange(
                    0,
                    i + 1,
                ));
            }
            i += 1;
        }
        proof {
            assert(paste@.subrange(0, n as int) =~= paste@);
        }
        MoreInput::Yes
    }

    /// A press or repeat records the key (and appends the character that
    /// Enter, Tab or a printable key stands for to this frame's text); a
    /// release records nothing.
    pub fn handle_key(&mut self, key: KeyEvent) -> (r: MoreInput)
        ensures
            r == MoreInput::Yes,
            key.kind == KeyEventKind::Release ==> *final(self) == *old(self),
            key.kind != KeyEventKind::Release ==> {
                &&& final(self).pressed@ == old(self).pressed@.push(
                    (key.code, key.modifiers),
                )
                &&& final(self).frame_input@ == match key.code {
                    KeyCode::Enter => old(self).frame_input@.push('\n'),
                    KeyCode::Tab => old(self).frame_input@.push('\t'),
                    KeyCode::Char(c) => old(self).frame_input@.push(c),
                    _ => old(self).frame_input@,
                }
            },
    {
        match key.kind {
            KeyEventKind::Repeat | KeyEventKind::Press => {
                match key.code {
                    KeyCode::Enter => {
                        self.frame_input.push('\n');
                    },
                    KeyCode::Tab => {
                        self.frame_input.push('\t');
                    },
                    KeyCode::Char(c) => {
                        self.frame_input.push(c);
                    },
                    _ => {},
                }
                self.pressed.push((key.code, key.modifiers));
            },
            KeyEventKind::Release => {},
        }
        MoreInput::Yes
    }
}

/// The whole input snapshot: keyboard, mouse and terminal focus.
#[derive(Debug, PartialEq)]
pub struct InputState {
    pub keyboard: KeyboardState,
    pub mouse: MouseState,
    pub focused_gained: bool,
    pub focused: bool,
    pub focused_lost: bool,
}

impl InputState {
    pub fn new() -> (r: Self)
        ensures
            r.keyboard.frame_input@ == Seq::<char>::empty(),
            r.keyboard.pressed@ == Seq::<(KeyCode, KeyModifiers)>::empty(),
            r.mouse.position is None,
            r.mouse.buttons == MouseButtons::all_unpressed_spec(),
            r.mouse.delta_scroll == 0i16,
            !r.focused_gained && !r.focused && !r.focused_lost,
    {
        InputState {
            keyboard: KeyboardState::new(),
            mouse: MouseState::new(),
            focused_gained: false,
            focused: false,
            focused_lost: false,
        }
    }

    /// Carry the snapshot into the next frame: focus edges reset, the
    /// keyboard empties, buttons advance; `No` when any button changed.
    pub fn next_state(&mut self) -> (r: MoreInput)
        ensures
            !final(self).focused_gained,
            !final(self).focused_lost,
            final(self).focused == old(self).focused,
            final(self).keyboard.frame_input@ == Seq::<char>::empty(),
            final(self).keyboard.pressed@ == Seq::<(KeyCode, KeyModifiers)>::empty(),
            final(self).mouse.position == old(self).mouse.position,
            final(self).mouse.delta_scroll == 0i16,
            final(self).mouse.buttons == (MouseButtons {
                primary: spec_button_next(old(self).mouse.buttons.primary).0,
                middle: spec_button_next(old(self).mouse.buttons.middle).0,
                secondary: spec_button_next(old(self).mouse.buttons.secondary).0,
            }),
            (r == MoreInput::Yes) == (spec_button_next(old(self).mouse.buttons.primary).1
                == MoreInput::Yes && spec_button_next(old(self).mouse.buttons.middle).1
                == MoreInput::Yes && spec_button_next(old(self).mouse.buttons.secondary).1
                == MoreInput::Yes),
    {
        self.focused_gained = false;
        self.focused_lost = false;
        let k = self.keyboard.next_state();
        let m = self.mouse.next_state();
        k.and(m)
    }

    /// Fold one event into the snapshot; resize events are handled a level
    /// above, by the context.
    pub fn handle_event(&mut self, event: &Event) -> (r: MoreInput)
        ensures
            match event {
                Event::Mouse(me) => {
                    let (s, m) = spec_handle_mouse(old(self).mouse, *me);
                    &&& final(self).mouse == s
                    &&& r == m
                    &&& final(self).keyboard == old(self).keyboard
                    &&& final(self).focused == old(self).focused
                    &&& final(self).focused_gained == old(self).focused_gained
                    &&& final(self).focused_lost == old(self).focused_lost
                },
                Event::FocusGained => {
                    &&& final(self).focused && final(self).focused_gained
                    &&& final(self).focused_lost == old(self).focused_lost
                    &&& final(self).keyboard == old(self).keyboard
                    &&& final(self).mouse == old(self).mouse
                    &&& r == MoreInput::Yes
                },
                Event::FocusLost => {
                    &&& final(self).focused && final(self).focused_lost
                    &&& final(self).focused_gained == old(self).focused_gained
                    &&& final(self).keyboard == old(self).keyboard
                    &&& final(self).mouse == old(self).mouse
                    &&& r == MoreInput::Yes
                },
                Event::Key(key) => {
                    &&& r == MoreInput::Yes
                    &&& final(self).mouse == old(self).mouse
                    &&& final(self).focused == old(self).focused
                    &&& (key.kind == KeyEventKind::Release ==> final(self).keyboard == old(
                        self,
                    ).keyboard)
                    &&& (key.kind != KeyEventKind::Release ==> final(self).keyboard.pressed@
                        == old(self).keyboard.pressed@.push((key.code, key.modifiers)))
                },
                Event::Paste(paste) => {
                    &&& r == MoreInput::Yes
                    &&& final(self).keyboard.frame_input@ == old(self).keyboard.frame_input@
                        + paste@
                    &&& final(self).keyboard.pressed@ == old(self).keyboard.pressed@
                    &&& final(self).mouse == old(self).mouse
                },
                Event::Resize(_, _) => {
                    &&& *final(self) == *old(self)
                    &&& r == MoreInput::Yes
                },
            },
    {
        match event {
            Event::Mouse(me) => self.mouse.handle_event(*me),
            Event::FocusGained => {
                self.focused = true;
                self.focused_gained = true;
                MoreInput::Yes
            },
            Event::FocusLost => {
                self.focused = true;
                self.focused_lost = true;
                MoreInput::Yes
            },
            Event::Key(key) => self.keyboard.handle_key(*key),
            Event::Paste(paste) => self.keyboard.handle_paste(paste),
            Event::Resize(_, _) => MoreInput::Yes,
        }
    }
}


/// Whether `event` is the global quit hotkey: a Control-C press, checked
/// before ordinary event dispatch to short-circuit the frame loop.
pub fn is_quit_event(event: &Event) -> (r: bool)
    ensures
        r == (match event {
            Event::Key(k) => k.code == KeyCode::Char('c') && k.modifiers.control
                && !k.modifiers.shift && !k.modifiers.alt && k.kind == KeyEventKind::Press,
            _ => false,
        }),
{
    match event {
        Event::Key(k) => match k.code {
            KeyCode::Char(c) => c == 'c' && k.modifiers.control && !k.modifiers.shift
                && !k.modifiers.alt && match k.kind {
                KeyEventKind::Press => true,
                _ => false,
            },
            _ => false,
        },
        _ => false,
    }
}

} // verus!
