//! Window input: which categories reach the remote side, and the window
//! geometry that resize events record.

use crate::events::{
    send_close, send_codepoint, send_cursor_enter, send_key, send_mouse_button, send_reshape,
    send_scroll, Event,
};
use crate::types::WindowData;
use vstd::prelude::*;

verus! {

pub const MSG_KEY_MASK: u32 = 0x0001;
pub const MSG_CHAR_MASK: u32 = 0x0002;
pub const MSG_MOUSE_MOVE_MASK: u32 = 0x0004;
pub const MSG_MOUSE_BUTTON_MASK: u32 = 0x0008;
pub const MSG_MOUSE_SCROLL_MASK: u32 = 0x0010;
pub const MSG_MOUSE_ENTER_MASK: u32 = 0x0020;
pub const MSG_DROP_PATHS_MASK: u32 = 0x0040;
pub const MSG_RESHAPE_MASK: u32 = 0x0080;

/// Whether the input category of `mask` is forwarded.
pub open spec fn forwards(w: &WindowData, mask: u32) -> bool {
    w.input_flags & mask != 0
}

/// Forwards a key event when key input is enabled.
pub fn key_callback(
    window_data: &WindowData,
    out: &mut Vec<Event<Vec<u8>>>,
    key: i32,
    scancode: i32,
    action: i32,
    mods: i32,
)
    ensures
        forwards(window_data, MSG_KEY_MASK) ==> final(out)@ == old(out)@.push(
            Event::Key { key, scancode, action, mods },
        ),
        !forwards(window_data, MSG_KEY_MASK) ==> final(out)@ == old(out)@,
{
    if window_data.input_flags & MSG_KEY_MASK != 0 {
        send_key(out, key, scancode, action, mods);
    }
}

/// Forwards a character event when character input is enabled.
pub fn charmods_callback(
    window_data: &WindowData,
    out: &mut Vec<Event<Vec<u8>>>,
    codepoint: u32,
    mods: i32,
)
    ensures
        forwards(window_data, MSG_CHAR_MASK) ==> final(out)@ == old(out)@.push(
            Event::Codepoint { codepoint, mods },
        ),
        !forwards(window_data, MSG_CHAR_MASK) ==> final(out)@ == old(out)@,
{
    if window_data.input_flags & MSG_CHAR_MASK != 0 {
        send_codepoint(out, codepoint, mods);
    }
}

/// Forwards a mouse button event, with the cursor position (`f32` bit
/// patterns), when button input is enabled.
pub fn mouse_button_callback(
    window_data: &WindowData,
    out: &mut Vec<Event<Vec<u8>>>,
    button: i32,
    action: i32,
    mods: i32,
    xpos: u32,
    ypos: u32,
)
    ensures
        forwards(window_data, MSG_MOUSE_BUTTON_MASK) ==> final(out)@ == old(out)@.push(
            Event::MouseButton { button, action, mods, x: xpos, y: ypos },
        ),
        !forwards(window_data, MSG_MOUSE_BUTTON_MASK) ==> final(out)@ == old(out)@,
{
    if window_data.input_flags & MSG_MOUSE_BUTTON_MASK != 0 {
        send_mouse_button(out, button, action, mods, xpos, ypos);
    }
}

/// Forwards a scroll event, with the cursor position, when scroll input is
/// enabled. Offsets and position are `f32` bit patterns.
pub fn scroll_callback(
    window_data: &WindowData,
    out: &mut Vec<Event<Vec<u8>>>,
    xoffset: u32,
    yoffset: u32,
    xpos: u32,
    ypos: u32,
)
    ensures
        forwards(window_data, MSG_MOUSE_SCROLL_MASK) ==> final(out)@ == old(out)@.push(
            Event::Scroll { dx: xoffset, dy: yoffset, x: xpos, y: ypos },
        ),
        !forwards(window_data, MSG_MOUSE_SCROLL_MASK) ==> final(out)@ == old(out)@,
{
    if window_data.input_flags & MSG_MOUSE_SCROLL_MASK != 0 {
        send_scroll(out, xoffset, yoffset, xpos, ypos);
    }
}

/// Forwards a cursor enter or leave event, with the cursor position, when
/// that input is enabled.
pub fn cursor_enter_callback(
    window_data: &WindowData,
    out: &mut Vec<Event<Vec<u8>>>,
    entered: i32,
    xpos: u32,
    ypos: u32,
)
    ensures
        forwards(window_data, MSG_MOUSE_ENTER_MASK) ==> final(out)@ == old(out)@.push(
            Event::CursorEnter { entered, x: xpos, y: ypos },
        ),
        !forwards(window_data, MSG_MOUSE_ENTER_MASK) ==> final(out)@ == old(out)@,
{
    if window_data.input_flags & MSG_MOUSE_ENTER_MASK != 0 {
        send_cursor_enter(out, entered, xpos, ypos);
    }
}

/// Reports a close request; the window itself stays open.
pub fn window_close_callback(out: &mut Vec<Event<Vec<u8>>>)
    ensures
        final(out)@ == old(out)@.push(Event::Close),
{
    send_close(out);
}

/// Records a new framebuffer size and asks for a redraw.
pub fn reshape_framebuffer(window_data: &mut WindowData, width: i32, height: i32)
    ensures
        final(window_data).frame_size == (width, height),
        final(window_data).redraw,
        final(window_data).window_size == old(window_data).window_size,
        final(window_data).script_map() == old(window_data).script_map(),
        final(window_data).root_script == old(window_data).root_script,
        final(window_data).input_flags == old(window_data).input_flags,
        final(window_data).keep_going == old(window_data).keep_going,
{
    window_data.frame_size = (width, height);
    window_data.redraw = true;
}

/// Records a new window size, reports it, and asks for a redraw.
pub fn reshape_window(
    window_data: &mut WindowData,
    out: &mut Vec<Event<Vec<u8>>>,
    width: i32,
    height: i32,
)
    ensures
        final(window_data).window_size == (width, height),
        final(window_data).redraw,
        final(window_data).frame_size == old(window_data).frame_size,
        final(window_data).script_map() == old(window_data).script_map(),
        final(window_data).root_script == old(window_data).root_script,
        final(window_data).input_flags == old(window_data).input_flags,
        final(window_data).keep_going == old(window_data).keep_going,
        final(out)@ == old(out)@.push(
            Event::Reshape {
                window_width: width,
                window_height: height,
                frame_width: width,
                frame_height: height,
            },
        ),
{
    window_data.window_size = (width, height);
    send_reshape(out, width, height, width, height);
    window_data.redraw = true;
}

/// Whether the process that drives this one has gone away. Nothing here
/// watches for that, so the answer is always no.
pub fn is_caller_down() -> (r: bool)
    ensures
        !r,
{
    false
}

} // verus!
