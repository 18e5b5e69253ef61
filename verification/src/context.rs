//! The per-application context: both screen buffers, the memory store, focus,
//! the input snapshot, the frame counter and the tick-rate configuration.
//! Exactly one exists per running application; it is handed to the client
//! callback by mutable reference for the duration of one frame.

use vstd::prelude::*;
use crate::focus::{spec_find_last, spec_resolved, Focus, NavDirection};
use crate::geometry::{Rect, VecI2};
use crate::id::Id;
use crate::input::{spec_key_pressed, Event, InputState, KeyCode, MoreInput, MouseButtonState};
use crate::memory::{stored_eq, Memory, StoredValue};
use crate::render::Cursor;
use crate::response::Response;
use crate::screen::{spec_push_text, Screen, SlotModel};
use crate::style::{Attribute, Color, Style, DefaultStyle};

verus! {

/// The decimal digit character for `d`.
pub open spec fn spec_digit(d: int) -> char {
    if d == 0 {
        '0'
    } else if d == 1 {
        '1'
    } else if d == 2 {
        '2'
    } else if d == 3 {
        '3'
    } else if d == 4 {
        '4'
    } else if d == 5 {
        '5'
    } else if d == 6 {
        '6'
    } else if d == 7 {
        '7'
    } else if d == 8 {
        '8'
    } else {
        '9'
    }
}

/// The decimal digits of `n`, most significant first.
pub open spec fn spec_digits(n: int) -> Seq<char>
    decreases n,
{
    if n < 10 {
        seq![spec_digit(n)]
    } else {
        spec_digits(n / 10).push(spec_digit(n % 10))
    }
}

/// Render `n` in decimal.
pub fn u64_to_chars(n: u64) -> (r: Vec<char>)
    ensures
        r@ == spec_digits(n as int),
    decreases n,
{
    let d: char = match n % 10 {
        0 => '0',
        1 => '1',
        2 => '2',
        3 => '3',
        4 => '4',
        5 => '5',
        6 => '6',
        7 => '7',
        8 => '8',
        _ => '9',
    };
    if n < 10 {
        let mut r: Vec<char> = Vec::new();
        r.push(d);
        proof {
            assert(r@ =~= seq![spec_digit(n as int)]);
        }
        r
    } else {
        let mut r = u64_to_chars(n / 10);
        r.push(d);
        r
    }
}

/// The per-frame diagnostics of the frame just rendered.
#[derive(Debug, Clone, Copy, PartialEq, Eq, Structural)]
pub struct PreviousFrameReport {
    pub bytes_written: usize,
    pub total_text_len: usize,
    pub total_styles: usize,
}

/// What the renderer needs about a finished frame: the current frame's cells,
/// the previous frame's cells (drained, so that buffer is ready for reuse),
/// whether the terminal was resized, and the cursor request.
pub struct FinishedFrame {
    pub resized: bool,
    pub current_frame: Vec<(Vec<char>, Style, VecI2)>,
    pub last_frame: Vec<(Vec<char>, Style, VecI2)>,
    pub current_cursor: Option<Cursor>,
    pub last_cursor: Option<Cursor>,
}

/// The pending navigation request encoded by this frame's key presses; a
/// later key in the arrow/tab order overrides an earlier one.
pub open spec fn spec_nav_direction(
    pressed: Seq<(crate::input::KeyCode, crate::input::KeyModifiers)>,
) -> NavDirection {
    if spec_key_pressed(pressed, KeyCode::Right) {
        NavDirection::Right
    } else if spec_key_pressed(pressed, KeyCode::Left) {
        NavDirection::Left
    } else if spec_key_pressed(pressed, KeyCode::Down) {
        NavDirection::Down
    } else if spec_key_pressed(pressed, KeyCode::Up) {
        NavDirection::Up
    } else if spec_key_pressed(pressed, KeyCode::BackTab) {
        NavDirection::Backward
    } else if spec_key_pressed(pressed, KeyCode::Tab) {
        NavDirection::Forward
    } else {
        NavDirection::Idle
    }
}

/// The style of the identity-collision diagnostic marker.
pub open spec fn spec_clash_style() -> Style {
    Style {
        fg: Color::White,
        bg: Color::Red,
        attributes: crate::style::Attributes {
            bits: Attribute::Underlined.spec_bit() | Attribute::RapidBlink.spec_bit(),
        },
    }
}

/// One diagnostic marker: `text` pushed at `pos` on the top layer, clipped to
/// the whole addressable grid.
pub open spec fn spec_mark(
    grid: Seq<SlotModel>,
    dims: VecI2,
    text: Seq<char>,
    pos: VecI2,
) -> Seq<SlotModel> {
    spec_push_text(grid, dims, text, 0, pos.x, pos.y, Seq::empty(), spec_clash_style(), 255u8, Rect {
        x: 0u16,
        y: 0u16,
        width: u16::MAX,
        height: u16::MAX,
    }).0
}

/// The whole application state for the frame loop.
pub struct Context {
    memory: Memory,
    input: InputState,
    current: Screen,
    last: Screen,
    previous_frame_report: PreviousFrameReport,
    max_rect: Rect,
    last_reported_screen: Rect,
    resized: bool,
    frame: u64,
    used_ids: Vec<(Id, Rect)>,
    min_tick_rate: u64,
    max_tick_rate: u64,
    request_redraw: bool,
    style: DefaultStyle,
    focus: Focus,
    current_cursor: Option<Cursor>,
    last_cursor: Option<Cursor>,
}

impl Context {
    /// Both screen buffers are well-formed and sized to the context's screen
    /// rectangle.
    pub closed spec fn wf(self) -> bool {
        &&& self.current.wf()
        &&& self.last.wf()
        &&& self.current.spec_size() == (VecI2 { x: self.max_rect.width, y: self.max_rect.height })
        &&& self.last.spec_size() == self.current.spec_size()
    }

    pub closed spec fn spec_current_screen(self) -> Screen {
        self.current
    }

    pub closed spec fn spec_last_screen(self) -> Screen {
        self.last
    }

    pub closed spec fn spec_memory(self) -> Memory {
        self.memory
    }

    pub closed spec fn spec_input(self) -> InputState {
        self.input
    }

    pub closed spec fn spec_focus(self) -> Focus {
        self.focus
    }

    pub closed spec fn spec_max_rect(self) -> Rect {
        self.max_rect
    }

    pub closed spec fn spec_last_reported_screen(self) -> Rect {
        self.last_reported_screen
    }

    pub closed spec fn spec_resized(self) -> bool {
        self.resized
    }

    pub closed spec fn spec_frame(self) -> u64 {
        self.frame
    }

    pub closed spec fn spec_used_ids(self) -> Seq<(Id, Rect)> {
        self.used_ids@
    }

    pub closed spec fn spec_min_tick(self) -> u64 {
        self.min_tick_rate
    }

    pub closed spec fn spec_max_tick(self) -> u64 {
        self.max_tick_rate
    }

    pub closed spec fn spec_request_redraw(self) -> bool {
        self.request_redraw
    }

    pub closed spec fn spec_style(self) -> DefaultStyle {
        self.style
    }

    pub closed spec fn spec_report(self) -> PreviousFrameReport {
        self.previous_frame_report
    }

    pub closed spec fn spec_current_cursor(self) -> Option<Cursor> {
        self.current_cursor
    }

    pub closed spec fn spec_last_cursor(self) -> Option<Cursor> {
        self.last_cursor
    }

    /// A fresh context for a terminal of `size` cells, with empty buffers,
    /// store and focus, in the Unicode default style.
    pub fn new(size: VecI2) -> (r: Self)
        ensures
            r.wf(),
            r.spec_max_rect() == (Rect { x: 0u16, y: 0u16, width: size.x, height: size.y }),
            r.spec_last_reported_screen() == r.spec_max_rect(),
            r.spec_current_screen().grid() == crate::screen::empty_grid(size),
            r.spec_last_screen().grid() == crate::screen::empty_grid(size),
            r.spec_memory().entries() == Map::<u64, StoredValue>::empty(),
            r.spec_focus().spec_focused() is None,
            r.spec_focus().spec_registry() == Seq::<(Id, Rect)>::empty(),
            r.spec_used_ids() == Seq::<(Id, Rect)>::empty(),
            !r.spec_resized(),
            r.spec_frame() == 0u64,
            r.spec_min_tick() == 0u64,
            r.spec_max_tick() == 0u64,
            !r.spec_request_redraw(),
            r.spec_current_cursor() is None,
            r.spec_last_cursor() is None,
    {
        let screen = Rect { x: 0, y: 0, width: size.x, height: size.y };
        let mut current = Screen::new();
        current.resize(size);
        let mut last = Screen::new();
        last.resize(size);
        Context {
            memory: Memory::new(),
            input: InputState::new(),
            current,
            last,
            previous_frame_report: PreviousFrameReport {
                bytes_written: 0,
                total_text_len: 0,
                total_styles: 0,
            },
            max_rect: screen,
            last_reported_screen: screen,
            resized: false,
            frame: 0,
            used_ids: Vec::new(),
            min_tick_rate: 0,
            max_tick_rate: 0,
            request_redraw: false,
            style: DefaultStyle::new_unicode(),
            focus: Focus::new(),
            current_cursor: None,
            last_cursor: None,
        }
    }
}

/// Append `src` to `dst`.
fn append_chars(dst: &mut Vec<char>, src: &Vec<char>)
    ensures
        final(dst)@ == old(dst)@ + src@,
{
    let n = src.len();
    let mut i: usize = 0;
    while i < n
        invariant
            i <= n,
            n == src@.len(),
            dst@ == old(dst)@ + src@.subrange(0, i as int),
        decreases n - i,
    {
        dst.push(src[i]);
        proof {
            assert(dst@ =~= old(dst)@ + src@.subrange(0, i + 1));
        }
        i += 1;
    }
    proof {
        assert(src@.subrange(0, n as int) =~= src@);
        assert(dst@ =~= old(dst)@ + src@);
    }
}

impl Context {
    pub fn request_redraw(&mut self)
        ensures
            final(self).spec_request_redraw(),
            final(self).wf() == old(self).wf(),
            final(self).spec_current_screen() == old(self).spec_current_screen(),
            final(self).spec_last_screen() == old(self).spec_last_screen(),
            final(self).spec_memory() == old(self).spec_memory(),
            final(self).spec_input() == old(self).spec_input(),
            final(self).spec_focus() == old(self).spec_focus(),
            final(self).spec_max_rect() == old(self).spec_max_rect(),
            final(self).spec_last_reported_screen() == old(self).spec_last_reported_screen(),
            final(self).spec_resized() == old(self).spec_resized(),
            final(self).spec_frame() == old(self).spec_frame(),
            final(self).spec_used_ids() == old(self).spec_used_ids(),
            final(self).spec_min_tick() == old(self).spec_min_tick(),
            final(self).spec_max_tick() == old(self).spec_max_tick(),
            final(self).spec_style() == old(self).spec_style(),
            final(self).spec_report() == old(self).spec_report(),
            final(self).spec_current_cursor() == old(self).spec_current_cursor(),
            final(self).spec_last_cursor() == old(self).spec_last_cursor(),
    {
        self.request_redraw = true;
    }

    pub fn should_redraw(&self) -> (r: bool)
        ensures
            r == self.spec_request_redraw(),
    {
        self.request_redraw
    }

    /// Clear the redraw request, handing back whether one was pending.
    pub fn take_redraw_request(&mut self) -> (r: bool)
        ensures
            r == old(self).spec_request_redraw(),
            !final(self).spec_request_redraw(),
            final(self).wf() == old(self).wf(),
            final(self).spec_current_screen() == old(self).spec_current_screen(),
            final(self).spec_last_screen() == old(self).spec_last_screen(),
            final(self).spec_memory() == old(self).spec_memory(),
            final(self).spec_input() == old(self).spec_input(),
            final(self).spec_focus() == old(self).spec_focus(),
            final(self).spec_max_rect() == old(self).spec_max_rect(),
            final(self).spec_last_reported_screen() == old(self).spec_last_reported_screen(),
            final(self).spec_resized() == old(self).spec_resized(),
            final(self).spec_frame() == old(self).spec_frame(),
            final(self).spec_used_ids() == old(self).spec_used_ids(),
            final(self).spec_min_tick() == old(self).spec_min_tick(),
            final(self).spec_max_tick() == old(self).spec_max_tick(),
            final(self).spec_style() == old(self).spec_style(),
            final(self).spec_report() == old(self).spec_report(),
            final(self).spec_current_cursor() == old(self).spec_current_cursor(),
            final(self).spec_last_cursor() == old(self).spec_last_cursor(),
    {
        let r = self.request_redraw;
        self.request_redraw = false;
        r
    }

    pub fn get_min_tick(&self) -> (r: u64)
        ensures
            r == self.spec_min_tick(),
    {
        self.min_tick_rate
    }

    pub fn get_max_tick(&self) -> (r: u64)
        ensures
            r == self.spec_max_tick(),
    {
        self.max_tick_rate
    }

    /// Set the lower tick bound (milliseconds), used when a redraw is
    /// pending.
    pub fn set_min_tick(&mut self, millis: u64)
        ensures
            final(self).spec_min_tick() == millis,
            final(self).wf() == old(self).wf(),
            final(self).spec_current_screen() == old(self).spec_current_screen(),
            final(self).spec_last_screen() == old(self).spec_last_screen(),
            final(self).spec_memory() == old(self).spec_memory(),
            final(self).spec_input() == old(self).spec_input(),
            final(self).spec_focus() == old(self).spec_focus(),
            final(self).spec_max_rect() == old(self).spec_max_rect(),
            final(self).spec_last_reported_screen() == old(self).spec_last_reported_screen(),
            final(self).spec_resized() == old(self).spec_resized(),
            final(self).spec_frame() == old(self).spec_frame(),
            final(self).spec_used_ids() == old(self).spec_used_ids(),
            final(self).spec_max_tick() == old(self).spec_max_tick(),
            final(self).spec_request_redraw() == old(self).spec_request_redraw(),
            final(self).spec_style() == old(self).spec_style(),
            final(self).spec_report() == old(self).spec_report(),
            final(self).spec_current_cursor() == old(self).spec_current_cursor(),
            final(self).spec_last_cursor() == old(self).spec_last_cursor(),
    {
        self.min_tick_rate = millis;
    }

    /// Set the idle upper tick bound (milliseconds).
    pub fn set_max_tick(&mut self, millis: u64)
        ensures
            final(self).spec_max_tick() == millis,
            final(self).wf() == old(self).wf(),
            final(self).spec_current_screen() == old(self).spec_current_screen(),
            final(self).spec_last_screen() == old(self).spec_last_screen(),
            final(self).spec_memory() == old(self).spec_memory(),
            final(self).spec_input() == old(self).spec_input(),
            final(self).spec_focus() == old(self).spec_focus(),
            final(self).spec_max_rect() == old(self).spec_max_rect(),
            final(self).spec_last_reported_screen() == old(self).spec_last_reported_screen(),
            final(self).spec_resized() == old(self).spec_resized(),
            final(self).spec_frame() == old(self).spec_frame(),
            final(self).spec_used_ids() == old(self).spec_used_ids(),
            final(self).spec_min_tick() == old(self).spec_min_tick(),
            final(self).spec_request_redraw() == old(self).spec_request_redraw(),
            final(self).spec_style() == old(self).spec_style(),
            final(self).spec_report() == old(self).spec_report(),
            final(self).spec_current_cursor() == old(self).spec_current_cursor(),
            final(self).spec_last_cursor() == old(self).spec_last_cursor(),
    {
        self.max_tick_rate = millis;
    }

    /// How long the scheduler may wait for input after this frame: the
    /// min-tick when a redraw was requested during the frame, the max-tick
    /// otherwise.
    pub fn tick_timeout(&self) -> (r: u64)
        ensures
            r == if self.spec_request_redraw() {
                self.spec_min_tick()
            } else {
                self.spec_max_tick()
            },
    {
        if self.request_redraw {
            self.min_tick_rate
        } else {
            self.max_tick_rate
        }
    }

    pub fn previous_frame_report(&self) -> (r: PreviousFrameReport)
        ensures
            r == self.spec_report(),
    {
        self.previous_frame_report
    }

    pub fn style(&self) -> (r: DefaultStyle)
        ensures
            r == self.spec_style(),
    {
        self.style
    }

    pub fn set_style(&mut self, style: DefaultStyle)
        ensures
            final(self).spec_style() == style,
            final(self).wf() == old(self).wf(),
            final(self).spec_current_screen() == old(self).spec_current_screen(),
            final(self).spec_last_screen() == old(self).spec_last_screen(),
            final(self).spec_memory() == old(self).spec_memory(),
            final(self).spec_input() == old(self).spec_input(),
            final(self).spec_focus() == old(self).spec_focus(),
            final(self).spec_max_rect() == old(self).spec_max_rect(),
            final(self).spec_last_reported_screen() == old(self).spec_last_reported_screen(),
            final(self).spec_resized() == old(self).spec_resized(),
            final(self).spec_frame() == old(self).spec_frame(),
            final(self).spec_used_ids() == old(self).spec_used_ids(),
            final(self).spec_min_tick() == old(self).spec_min_tick(),
            final(self).spec_max_tick() == old(self).spec_max_tick(),
            final(self).spec_request_redraw() == old(self).spec_request_redraw(),
            final(self).spec_report() == old(self).spec_report(),
            final(self).spec_current_cursor() == old(self).spec_current_cursor(),
            final(self).spec_last_cursor() == old(self).spec_last_cursor(),
    {
        self.style = style;
    }

    pub fn get_cursor(&self) -> (r: Option<Cursor>)
        ensures
            r == self.spec_current_cursor(),
    {
        self.current_cursor
    }

    pub fn set_cursor(&mut self, cursor: Cursor)
        ensures
            final(self).spec_current_cursor() == Some(cursor),
            final(self).wf() == old(self).wf(),
            final(self).spec_current_screen() == old(self).spec_current_screen(),
            final(self).spec_last_screen() == old(self).spec_last_screen(),
            final(self).spec_memory() == old(self).spec_memory(),
            final(self).spec_input() == old(self).spec_input(),
            final(self).spec_focus() == old(self).spec_focus(),
            final(self).spec_max_rect() == old(self).spec_max_rect(),
            final(self).spec_last_reported_screen() == old(self).spec_last_reported_screen(),
            final(self).spec_resized() == old(self).spec_resized(),
            final(self).spec_frame() == old(self).spec_frame(),
            final(self).spec_used_ids() == old(self).spec_used_ids(),
            final(self).spec_min_tick() == old(self).spec_min_tick(),
            final(self).spec_max_tick() == old(self).spec_max_tick(),
            final(self).spec_request_redraw() == old(self).spec_request_redraw(),
            final(self).spec_style() == old(self).spec_style(),
            final(self).spec_report() == old(self).spec_report(),
            final(self).spec_last_cursor() == old(self).spec_last_cursor(),
    {
        self.current_cursor = Some(cursor);
    }

    pub fn screen_rect(&self) -> (r: Rect)
        ensures
            r == self.spec_max_rect(),
    {
        self.max_rect
    }

    pub fn get_frame(&self) -> (r: u64)
        ensures
            r == self.spec_frame(),
    {
        self.frame
    }

    pub fn input(&self) -> (r: &InputState)
        ensures
            *r == self.spec_input(),
    {
        &self.input
    }

    /// Register an interactive rectangle with the focus registry.
    pub fn push_id(&mut self, id: Id, rect: Rect)
        ensures
            final(self).spec_focus().spec_registry() == old(self).spec_focus().spec_registry().push((id, rect)),
            final(self).spec_focus().spec_focused() == old(self).spec_focus().spec_focused(),
            final(self).spec_focus().spec_last_focused() == old(self).spec_focus().spec_last_focused(),
            final(self).spec_current_screen() == old(self).spec_current_screen(),
            final(self).spec_last_screen() == old(self).spec_last_screen(),
            final(self).spec_memory() == old(self).spec_memory(),
            final(self).spec_input() == old(self).spec_input(),
            final(self).wf() == old(self).wf(),
    {
        self.focus.push_id(id, rect);
    }

    /// Store `val` for `id` in the memory store.
    pub fn insert_into_memory(&mut self, id: Id, val: StoredValue)
        ensures
            final(self).spec_memory().entries() == old(self).spec_memory().entries().insert(
                Memory::spec_key(id, val.spec_kind()),
                val,
            ),
            final(self).spec_current_screen() == old(self).spec_current_screen(),
            final(self).spec_last_screen() == old(self).spec_last_screen(),
            final(self).spec_focus() == old(self).spec_focus(),
            final(self).spec_input() == old(self).spec_input(),
            final(self).wf() == old(self).wf(),
    {
        self.memory.insert(id, val);
    }

    /// The stored value for `id` under `default`'s shape, storing `default`
    /// on a first read; see [`Memory::get_or`].
    pub fn get_memory_or(&mut self, id: Id, default: StoredValue) -> (r: StoredValue)
        ensures
            ({
                let k = Memory::spec_key(id, default.spec_kind());
                let entries = old(self).spec_memory().entries();
                if entries.contains_key(k) {
                    &&& final(self).spec_memory().entries() == entries
                    &&& if entries[k].spec_kind() == default.spec_kind() {
                        stored_eq(r, entries[k])
                    } else {
                        stored_eq(r, default)
                    }
                } else {
                    &&& final(self).spec_memory().entries() == entries.insert(k, default)
                    &&& stored_eq(r, default)
                }
            }),
            final(self).spec_current_screen() == old(self).spec_current_screen(),
            final(self).spec_last_screen() == old(self).spec_last_screen(),
            final(self).spec_focus() == old(self).spec_focus(),
            final(self).spec_input() == old(self).spec_input(),
            final(self).wf() == old(self).wf(),
    {
        self.memory.get_or(id, default)
    }

    /// As [`Context::get_memory_or`]; the store is eager, so the two
    /// coincide.
    pub fn get_memory_or_create(&mut self, id: Id, default: StoredValue) -> (r: StoredValue)
        ensures
            ({
                let k = Memory::spec_key(id, default.spec_kind());
                let entries = old(self).spec_memory().entries();
                if entries.contains_key(k) {
                    &&& final(self).spec_memory().entries() == entries
                    &&& if entries[k].spec_kind() == default.spec_kind() {
                        stored_eq(r, entries[k])
                    } else {
                        stored_eq(r, default)
                    }
                } else {
                    &&& final(self).spec_memory().entries() == entries.insert(k, default)
                    &&& stored_eq(r, default)
                }
            }),
            final(self).spec_current_screen() == old(self).spec_current_screen(),
            final(self).spec_last_screen() == old(self).spec_last_screen(),
            final(self).spec_focus() == old(self).spec_focus(),
            final(self).spec_input() == old(self).spec_input(),
            final(self).wf() == old(self).wf(),
    {
        self.memory.get_or_create(id, default)
    }

    /// Write a styled run into the current frame's buffer; see
    /// [`crate::screen::Screen::push_text`].
    pub fn draw(&mut self, text: &Vec<char>, style: Style, start: VecI2, layer: u8, clip: Rect)
        requires
            old(self).wf(),
            layer >= 1,
        ensures
            final(self).wf(),
            final(self).spec_current_screen().grid() == spec_push_text(
                old(self).spec_current_screen().grid(),
                old(self).spec_current_screen().spec_size(),
                text@,
                0,
                start.x,
                start.y,
                Seq::empty(),
                style,
                layer,
                clip,
            ).0,
            final(self).spec_current_screen().spec_size() == old(self).spec_current_screen().spec_size(),
            final(self).spec_last_screen() == old(self).spec_last_screen(),
            final(self).spec_memory() == old(self).spec_memory(),
            final(self).spec_focus() == old(self).spec_focus(),
            final(self).spec_input() == old(self).spec_input(),
            final(self).spec_max_rect() == old(self).spec_max_rect(),
            final(self).spec_used_ids() == old(self).spec_used_ids(),
    {
        self.current.push_text(text, style, start, layer, clip);
    }

    /// Detect a terminal resize (resizing and clearing both buffers when the
    /// reported size changed) and resolve the focus-navigation request that
    /// this frame's key presses encode, consuming the previous frame's focus
    /// registry.
    pub fn start_frame(&mut self)
        requires
            old(self).wf(),
        ensures
            final(self).wf(),
            final(self).spec_max_rect() == old(self).spec_last_reported_screen(),
            final(self).spec_last_reported_screen() == old(self).spec_last_reported_screen(),
            final(self).spec_resized() == (old(self).spec_resized() || old(self).spec_max_rect()
                != old(self).spec_last_reported_screen()),
            old(self).spec_max_rect() == old(self).spec_last_reported_screen() ==> final(self).spec_current_screen() == old(self).spec_current_screen() && final(self).spec_last_screen() == old(self).spec_last_screen(),
            old(self).spec_max_rect() != old(self).spec_last_reported_screen() ==> {
                let size = VecI2 {
                    x: old(self).spec_last_reported_screen().width,
                    y: old(self).spec_last_reported_screen().height,
                };
                &&& final(self).spec_current_screen().grid() == crate::screen::empty_grid(size)
                &&& final(self).spec_last_screen().grid() == crate::screen::empty_grid(size)
            },
            ({
                let resolved = spec_resolved(
                    old(self).spec_focus().spec_registry(),
                    old(self).spec_focus().spec_focused(),
                    spec_nav_direction(old(self).spec_input().keyboard.pressed@),
                );
                &&& final(self).spec_focus().spec_focused() == resolved.0
                &&& final(self).spec_focus().spec_last_focused() == resolved.1
                &&& final(self).spec_focus().spec_registry() == Seq::<(Id, Rect)>::empty()
            }),
            final(self).spec_input() == old(self).spec_input(),
            final(self).spec_memory() == old(self).spec_memory(),
            final(self).spec_used_ids() == old(self).spec_used_ids(),
            final(self).spec_frame() == old(self).spec_frame(),
            final(self).spec_request_redraw() == old(self).spec_request_redraw(),
    {
        if !(self.max_rect == self.last_reported_screen) {
            self.max_rect = self.last_reported_screen;
            let size = VecI2 { x: self.max_rect.width, y: self.max_rect.height };
            self.current.resize(size);
            self.last.resize(size);
            self.resized = true;
        }
        let mut direction = NavDirection::Idle;
        if self.input.keyboard.is_pressed(KeyCode::Tab) {
            direction = NavDirection::Forward;
        }
        if self.input.keyboard.is_pressed(KeyCode::BackTab) {
            direction = NavDirection::Backward;
        }
        if self.input.keyboard.is_pressed(KeyCode::Up) {
            direction = NavDirection::Up;
        }
        if self.input.keyboard.is_pressed(KeyCode::Down) {
            direction = NavDirection::Down;
        }
        if self.input.keyboard.is_pressed(KeyCode::Left) {
            direction = NavDirection::Left;
        }
        if self.input.keyboard.is_pressed(KeyCode::Right) {
            direction = NavDirection::Right;
        }
        self.focus.resolve(direction);
    }

    /// Hand out what the renderer needs: the current frame's cells, the
    /// previous frame's cells (draining that buffer so the frame swap can
    /// reuse it), the resize flag and the cursor request.
    pub fn get_finished_frame(&mut self) -> (r: FinishedFrame)
        requires
            old(self).wf(),
        ensures
            final(self).wf(),
            r.resized == old(self).spec_resized(),
            crate::screen::triples_view(r.current_frame@) == crate::screen::spec_triples(
                old(self).spec_current_screen().grid(),
                old(self).spec_current_screen().spec_size(),
                0,
            ),
            crate::screen::triples_view(r.last_frame@) == crate::screen::spec_triples(
                old(self).spec_last_screen().grid(),
                old(self).spec_last_screen().spec_size(),
                0,
            ),
            r.current_cursor == old(self).spec_current_cursor(),
            r.last_cursor == old(self).spec_last_cursor(),
            final(self).spec_current_screen() == old(self).spec_current_screen(),
            final(self).spec_last_screen().grid() == crate::screen::empty_grid(
                old(self).spec_last_screen().spec_size(),
            ),
            final(self).spec_last_screen().spec_size() == old(self).spec_last_screen().spec_size(),
            final(self).spec_memory() == old(self).spec_memory(),
            final(self).spec_focus() == old(self).spec_focus(),
            final(self).spec_input() == old(self).spec_input(),
    {
        let current_frame = self.current.iter();
        let last_frame = self.last.drain();
        FinishedFrame {
            resized: self.resized,
            current_frame,
            last_frame,
            current_cursor: self.current_cursor,
            last_cursor: self.last_cursor,
        }
    }

    /// End the frame: swap the buffers (the frame just drawn becomes the one
    /// to diff against) and the cursor records, clear the resize flag and the
    /// per-frame identity record, advance the input snapshot, store the
    /// diagnostics, and step the frame counter. Returns the input snapshot's
    /// quiescence signal.
    pub fn finish_frame(&mut self, written: usize) -> (r: MoreInput)
        requires
            old(self).wf(),
        ensures
            final(self).wf(),
            final(self).spec_current_screen() == old(self).spec_last_screen(),
            final(self).spec_last_screen() == old(self).spec_current_screen(),
            final(self).spec_current_cursor() == old(self).spec_last_cursor(),
            final(self).spec_last_cursor() == old(self).spec_current_cursor(),
            !final(self).spec_resized(),
            final(self).spec_used_ids() == Seq::<(Id, Rect)>::empty(),
            final(self).spec_report() == (PreviousFrameReport {
                bytes_written: written,
                total_text_len: old(self).spec_current_screen().spec_text_len() as usize,
                total_styles: old(self).spec_current_screen().spec_num_styles() as usize,
            }),
            final(self).spec_frame() == if old(self).spec_frame() == u64::MAX {
                0u64
            } else {
                (old(self).spec_frame() + 1) as u64
            },
            final(self).spec_input().keyboard.frame_input@ == Seq::<char>::empty(),
            final(self).spec_input().mouse.buttons == (crate::input::MouseButtons {
                primary: crate::input::spec_button_next(old(self).spec_input().mouse.buttons.primary).0,
                middle: crate::input::spec_button_next(old(self).spec_input().mouse.buttons.middle).0,
                secondary: crate::input::spec_button_next(
                    old(self).spec_input().mouse.buttons.secondary,
                ).0,
            }),
            (r == MoreInput::Yes) == (crate::input::spec_button_next(
                old(self).spec_input().mouse.buttons.primary,
            ).1 == MoreInput::Yes && crate::input::spec_button_next(
                old(self).spec_input().mouse.buttons.middle,
            ).1 == MoreInput::Yes && crate::input::spec_button_next(
                old(self).spec_input().mouse.buttons.secondary,
            ).1 == MoreInput::Yes),
            final(self).spec_memory() == old(self).spec_memory(),
            final(self).spec_focus() == old(self).spec_focus(),
            final(self).spec_max_rect() == old(self).spec_max_rect(),
    {
        core::mem::swap(&mut self.current_cursor, &mut self.last_cursor);
        core::mem::swap(&mut self.last, &mut self.current);
        self.resized = false;

        let more_input = self.input.next_state();

        self.used_ids.clear();

        self.previous_frame_report.bytes_written = written;
        self.previous_frame_report.total_styles = self.last.num_styles();
        self.previous_frame_report.total_text_len = self.last.text_len();

        self.frame = self.frame.wrapping_add(1);

        more_input
    }

    /// Fold one event into the context: a resize is recorded for the next
    /// frame start; everything else goes to the input snapshot.
    pub fn handle_event(&mut self, event: &Event) -> (r: MoreInput)
        ensures
            match event {
                Event::Resize(x, y) => {
                    &&& final(self).spec_last_reported_screen() == (Rect {
                        x: 0u16,
                        y: 0u16,
                        width: *x,
                        height: *y,
                    })
                    &&& final(self).spec_input() == old(self).spec_input()
                    &&& r == MoreInput::Yes
                },
                Event::Mouse(me) => {
                    let (s, m) = crate::input::spec_handle_mouse(old(self).spec_input().mouse, *me);
                    &&& final(self).spec_input().mouse == s
                    &&& r == m
                    &&& final(self).spec_last_reported_screen() == old(self).spec_last_reported_screen()
                },
                _ => {
                    &&& r == MoreInput::Yes
                    &&& final(self).spec_last_reported_screen() == old(self).spec_last_reported_screen()
                },
            },
            final(self).spec_current_screen() == old(self).spec_current_screen(),
            final(self).spec_last_screen() == old(self).spec_last_screen(),
            final(self).spec_memory() == old(self).spec_memory(),
            final(self).spec_focus() == old(self).spec_focus(),
            final(self).spec_max_rect() == old(self).spec_max_rect(),
            final(self).wf() == old(self).wf(),
    {
        match event {
            Event::Resize(x, y) => {
                self.last_reported_screen = Rect { x: 0, y: 0, width: *x, height: *y };
                MoreInput::Yes
            },
            _ => self.input.handle_event(event),
        }
    }
}

/// The grid after drawing a gallery's items from index `i` on: each item's
/// text pushed at its rectangle's top-left corner, clipped to that rectangle.
pub open spec fn spec_draw_gallery(
    grid: Seq<SlotModel>,
    dims: VecI2,
    items: Seq<(Rect, Seq<char>, Style)>,
    layer: u8,
    i: int,
) -> Seq<SlotModel>
    decreases items.len() - i,
{
    if i < 0 || i >= items.len() {
        grid
    } else {
        let it = items[i];
        let g1 = spec_push_text(
            grid,
            dims,
            it.1,
            0,
            it.0.x,
            it.0.y,
            Seq::empty(),
            it.2,
            layer,
            it.0,
        ).0;
        spec_draw_gallery(g1, dims, items, layer, i + 1)
    }
}

/// The identity record after registering `new_rect` under `id`: the last
/// record for `id` is replaced, or a first record appended.
pub open spec fn spec_used_update(used: Seq<(Id, Rect)>, id: Id, new_rect: Rect) -> Seq<(Id, Rect)> {
    match spec_find_last(used, id) {
        Option::Some(i) => used.update(i, (id, new_rect)),
        Option::None => used.push((id, new_rect)),
    }
}

pub open spec fn spec_label_double() -> Seq<char> {
    seq!['D', 'o', 'u', 'b', 'l', 'e', ' ', 'u', 's', 'e', ' ', 'o', 'f', ' ']
}

pub open spec fn spec_label_first() -> Seq<char> {
    seq!['F', 'i', 'r', 's', 't', ' ', 'u', 's', 'e', ' ', 'o', 'f', ' ']
}

pub open spec fn spec_label_second() -> Seq<char> {
    seq!['S', 'e', 'c', 'o', 'n', 'd', ' ', 'u', 's', 'e', ' ', 'o', 'f', ' ']
}

/// The grid after the collision diagnostics for registering `new_rect` under
/// `id` against the record `used`: nothing on a first registration; one
/// marker on a same-rectangle reuse; two markers (at the first and second
/// rectangle) when two different rectangles claim one identity.
pub open spec fn spec_clash_marks(
    grid: Seq<SlotModel>,
    dims: VecI2,
    used: Seq<(Id, Rect)>,
    id: Id,
    new_rect: Rect,
) -> Seq<SlotModel> {
    let digits = spec_digits((id.spec_value() % 1000) as int);
    match spec_find_last(used, id) {
        Option::None => grid,
        Option::Some(i) => {
            let prev = used[i].1;
            if prev == new_rect {
                spec_mark(grid, dims, spec_label_double() + digits, new_rect.spec_top_left())
            } else {
                spec_mark(
                    spec_mark(grid, dims, spec_label_first() + digits, prev.spec_top_left()),
                    dims,
                    spec_label_second() + digits,
                    new_rect.spec_top_left(),
                )
            }
        },
    }
}

fn label_double() -> (r: Vec<char>)
    ensures
        r@ == spec_label_double(),
{
    let mut r: Vec<char> = Vec::new();
    r.push('D');
    r.push('o');
    r.push('u');
    r.push('b');
    r.push('l');
    r.push('e');
    r.push(' ');
    r.push('u');
    r.push('s');
    r.push('e');
    r.push(' ');
    r.push('o');
    r.push('f');
    r.push(' ');
    proof {
        assert(r@ =~= spec_label_double());
    }
    r
}

fn label_first() -> (r: Vec<char>)
    ensures
        r@ == spec_label_first(),
{
    let mut r: Vec<char> = Vec::new();
    r.push('F');
    r.push('i');
    r.push('r');
    r.push('s');
    r.push('t');
    r.push(' ');
    r.push('u');
    r.push('s');
    r.push('e');
    r.push(' ');
    r.push('o');
    r.push('f');
    r.push(' ');
    proof {
        assert(r@ =~= spec_label_first());
    }
    r
}

fn label_second() -> (r: Vec<char>)
    ensures
        r@ == spec_label_second(),
{
    let mut r: Vec<char> = Vec::new();
    r.push('S');
    r.push('e');
    r.push('c');
    r.push('o');
    r.push('n');
    r.push('d');
    r.push(' ');
    r.push('u');
    r.push('s');
    r.push('e');
    r.push(' ');
    r.push('o');
    r.push('f');
    r.push(' ');
    proof {
        assert(r@ =~= spec_label_second());
    }
    r
}

impl Context {
    /// The last identity record for `id`, if any.
    fn find_used(&self, id: Id) -> (r: Option<(usize, Rect)>)
        ensures
            match r {
                Some((i, rect)) => (i as int) < self.spec_used_ids().len() && spec_find_last(
                    self.spec_used_ids(),
                    id,
                ) == Some(i as int) && rect == self.spec_used_ids()[i as int].1,
                None => spec_find_last(self.spec_used_ids(), id) is None,
            },
    {
        let n = self.used_ids.len();
        let mut i: usize = n;
        proof {
            assert(self.used_ids@.subrange(0, n as int) =~= self.used_ids@);
        }
        while i > 0
            invariant
                i <= n,
                n == self.used_ids@.len(),
                spec_find_last(self.used_ids@.subrange(0, i as int), id) == spec_find_last(
                    self.used_ids@,
                    id,
                ),
            decreases i,
        {
            i -= 1;
            proof {
                assert(self.used_ids@.subrange(0, i + 1).last() == self.used_ids@[i as int]);
                assert(self.used_ids@.subrange(0, i + 1).drop_last() =~= self.used_ids@.subrange(
                    0,
                    i as int,
                ));
            }
            if self.used_ids[i].0 == id {
                return Some((i, self.used_ids[i].1));
            }
        }
        proof {
            assert(self.used_ids@.subrange(0, 0) =~= Seq::<(Id, Rect)>::empty());
        }
        None
    }

    /// Record that `id` claims `new_rect` this frame; when the identity was
    /// already claimed, paint the visible collision diagnostics (non-fatal:
    /// [`spec_clash_marks`] gives the exact markers).
    pub fn check_for_id_clash(&mut self, id: Id, new_rect: Rect)
        requires
            old(self).wf(),
        ensures
            final(self).wf(),
            final(self).spec_used_ids() == spec_used_update(old(self).spec_used_ids(), id, new_rect),
            final(self).spec_current_screen().grid() == spec_clash_marks(
                old(self).spec_current_screen().grid(),
                old(self).spec_current_screen().spec_size(),
                old(self).spec_used_ids(),
                id,
                new_rect,
            ),
            final(self).spec_current_screen().spec_size() == old(self).spec_current_screen().spec_size(),
            spec_find_last(old(self).spec_used_ids(), id) is None ==> final(self).spec_current_screen() == old(self).spec_current_screen(),
            final(self).spec_last_screen() == old(self).spec_last_screen(),
            final(self).spec_memory() == old(self).spec_memory(),
            final(self).spec_focus() == old(self).spec_focus(),
            final(self).spec_input() == old(self).spec_input(),
            final(self).spec_max_rect() == old(self).spec_max_rect(),
            final(self).spec_request_redraw() == old(self).spec_request_redraw(),
    {
        let prev = self.find_used(id);
        match prev {
            None => {
                self.used_ids.push((id, new_rect));
            },
            Some((i, prev_rect)) => {
                self.used_ids.set(i, (id, new_rect));
                let digits = u64_to_chars(id.value() % 1000);
                let style = Style {
                    fg: Color::White,
                    bg: Color::Red,
                    attributes: crate::style::Attributes {
                        bits: Attribute::Underlined.bit() | Attribute::RapidBlink.bit(),
                    },
                };
                let clip = Rect::max_size();
                if prev_rect == new_rect {
                    let mut text = label_double();
                    append_chars(&mut text, &digits);
                    self.current.push_text(&text, style, new_rect.top_left(), 255, clip);
                } else {
                    let mut t1 = label_first();
                    append_chars(&mut t1, &digits);
                    self.current.push_text(&t1, style, prev_rect.top_left(), 255, clip);
                    let mut t2 = label_second();
                    append_chars(&mut t2, &digits);
                    self.current.push_text(&t2, style, new_rect.top_left(), 255, clip);
                }
            },
        }
    }

    /// Resolve a widget's interaction for this frame: record its identity
    /// (with collision diagnostics), register it with the focus registry,
    /// refresh the focused rectangle, and build the response from the mouse
    /// snapshot; a focused widget also reacts to Enter as a click (which
    /// requests a redraw).
    pub fn interact(&mut self, id: Id, area: Rect) -> (r: Response)
        requires
            old(self).wf(),
        ensures
            final(self).wf(),
            r.id == id,
            r.rect == area,
            !r.focused,
            ({
                let was_focused = match old(self).spec_focus().spec_focused() {
                    Option::Some((fid, _)) => fid == id,
                    Option::None => false,
                };
                let hover = match old(self).spec_input().mouse.position {
                    Option::Some(p) => area.spec_contains(p),
                    Option::None => false,
                };
                let enter = was_focused && spec_key_pressed(
                    old(self).spec_input().keyboard.pressed@,
                    KeyCode::Enter,
                );
                &&& r.hovered == (hover || was_focused)
                &&& r.mouse_pos == (match old(self).spec_input().mouse.position {
                    Option::Some(p) => if area.spec_contains(p) {
                        Option::Some(p)
                    } else {
                        Option::None
                    },
                    Option::None => Option::None,
                })
                &&& r.buttons == ({
                    let base = if r.mouse_pos is Some {
                        old(self).spec_input().mouse.buttons
                    } else {
                        crate::input::MouseButtons::all_unpressed_spec()
                    };
                    if enter {
                        crate::input::MouseButtons {
                            primary: MouseButtonState::Down(area.spec_top_left()),
                            ..base
                        }
                    } else {
                        base
                    }
                })
                &&& final(self).spec_request_redraw() == (old(self).spec_request_redraw()
                    || enter)
                &&& final(self).spec_focus().spec_focused() == (match old(self).spec_focus().spec_focused() {
                    Option::Some((fid, rect)) => if fid == id {
                        Option::Some((fid, area))
                    } else {
                        Option::Some((fid, rect))
                    },
                    Option::None => Option::None::<(Id, Rect)>,
                })
            }),
            final(self).spec_focus().spec_registry() == old(self).spec_focus().spec_registry().push((id, area)),
            final(self).spec_used_ids() == spec_used_update(old(self).spec_used_ids(), id, area),
            final(self).spec_current_screen().grid() == spec_clash_marks(
                old(self).spec_current_screen().grid(),
                old(self).spec_current_screen().spec_size(),
                old(self).spec_used_ids(),
                id,
                area,
            ),
            final(self).spec_last_screen() == old(self).spec_last_screen(),
            final(self).spec_memory() == old(self).spec_memory(),
            final(self).spec_input() == old(self).spec_input(),
            final(self).spec_max_rect() == old(self).spec_max_rect(),
    {
        self.check_for_id_clash(id, area);
        self.focus.push_id(id, area);
        let focused = self.focus.touch_focused(id, area);

        let mut response = match self.input.mouse.position {
            Some(position) => {
                if area.contains(position) {
                    let mut resp = Response::new(area, id, Some(position));
                    resp.buttons = self.input.mouse.buttons;
                    resp
                } else {
                    Response::new(area, id, None)
                }
            },
            None => Response::new(area, id, None),
        };
        response.hovered = response.hovered || focused;
        if focused && self.input.keyboard.is_pressed(KeyCode::Enter) {
            self.request_redraw = true;
            response.buttons.primary = MouseButtonState::Down(area.top_left());
        }
        response
    }

    /// Draw a laid-out gallery: every item's text at its rectangle's top-left
    /// corner, clipped to that rectangle, on `layer`;
    /// [`spec_draw_gallery`] gives the exact grid.
    pub fn draw_gallery(&mut self, gallery: &crate::ui::Gallery, layer: u8)
        requires
            old(self).wf(),
            layer >= 1,
        ensures
            final(self).wf(),
            final(self).spec_current_screen().grid() == spec_draw_gallery(
                old(self).spec_current_screen().grid(),
                old(self).spec_current_screen().spec_size(),
                crate::ui::gallery_view(gallery.items@),
                layer,
                0,
            ),
            final(self).spec_current_screen().spec_size() == old(
                self,
            ).spec_current_screen().spec_size(),
            final(self).spec_last_screen() == old(self).spec_last_screen(),
            final(self).spec_memory() == old(self).spec_memory(),
            final(self).spec_focus() == old(self).spec_focus(),
            final(self).spec_input() == old(self).spec_input(),
            final(self).spec_max_rect() == old(self).spec_max_rect(),
            final(self).spec_used_ids() == old(self).spec_used_ids(),
    {
        let ghost items = crate::ui::gallery_view(gallery.items@);
        let ghost g0 = self.spec_current_screen().grid();
        let ghost dims = self.spec_current_screen().spec_size();
        let n = gallery.items.len();
        let mut i: usize = 0;
        while i < n
            invariant
                i <= n,
                self.wf(),
                n == gallery.items@.len(),
                n == items.len(),
                items == crate::ui::gallery_view(gallery.items@),
                dims == self.spec_current_screen().spec_size(),
                spec_draw_gallery(self.spec_current_screen().grid(), dims, items, layer, i as int)
                    == spec_draw_gallery(g0, dims, items, layer, 0),
                layer >= 1,
                self.spec_last_screen() == old(self).spec_last_screen(),
                self.spec_memory() == old(self).spec_memory(),
                self.spec_focus() == old(self).spec_focus(),
                self.spec_input() == old(self).spec_input(),
                self.spec_max_rect() == old(self).spec_max_rect(),
                self.spec_used_ids() == old(self).spec_used_ids(),
            decreases n - i,
        {
            proof {
                let e = gallery.items@[i as int];
                assert(items[i as int] == (e.0, e.1.text@, e.1.style));
            }
            let bound = gallery.items[i].0;
            let tl = bound.top_left();
            self.current.push_text(&gallery.items[i].1.text, gallery.items[i].1.style, tl, layer, bound);
            i += 1;
        }
    }


    /// Withdraw the cursor request (the cursor request is per frame: client
    /// code must place it anew each frame).
    pub fn clear_cursor(&mut self)
        ensures
            final(self).spec_current_cursor() is None,
            final(self).wf() == old(self).wf(),
            final(self).spec_current_screen() == old(self).spec_current_screen(),
            final(self).spec_last_screen() == old(self).spec_last_screen(),
            final(self).spec_memory() == old(self).spec_memory(),
            final(self).spec_input() == old(self).spec_input(),
            final(self).spec_focus() == old(self).spec_focus(),
            final(self).spec_max_rect() == old(self).spec_max_rect(),
            final(self).spec_last_reported_screen() == old(self).spec_last_reported_screen(),
            final(self).spec_resized() == old(self).spec_resized(),
            final(self).spec_frame() == old(self).spec_frame(),
            final(self).spec_used_ids() == old(self).spec_used_ids(),
            final(self).spec_min_tick() == old(self).spec_min_tick(),
            final(self).spec_max_tick() == old(self).spec_max_tick(),
            final(self).spec_request_redraw() == old(self).spec_request_redraw(),
            final(self).spec_style() == old(self).spec_style(),
            final(self).spec_report() == old(self).spec_report(),
            final(self).spec_last_cursor() == old(self).spec_last_cursor(),
    {
        self.current_cursor = None;
    }

    /// The root layout cursor for one frame: a top-left vertical cursor over
    /// the whole screen, on the middle layer.
    pub fn root_ui(&self) -> (r: crate::ui::Ui)
        ensures
            r.spec_layout() == crate::ui::Layout::TopLeftVertical,
            r.spec_clip() == self.spec_max_rect(),
            r.spec_max_rect() == self.spec_max_rect(),
            r.spec_layer() == 128u8,
            r.cursor_in_max(),
    {
        crate::ui::Ui::new(
            crate::ui::Layout::TopLeftVertical,
            Id::new("frame"),
            self.max_rect,
            128,
        )
    }
}

} // verus!
