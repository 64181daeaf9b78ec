//! Outbound events: their payload layout, the framing that carries them,
//! and the decoder that reads a payload back.

use crate::wire::{
    bool_word, i32_to_word, i32_word, lemma_i32_word, push_word, push_words, read_word, read_words, word_to_i32, lemma_word_round_trip, lemma_words_round_trip, word_at,
    word_bytes, word_i32, words_at, words_bytes, Endian,
};
use vstd::prelude::*;
use vstd::slice::{slice_subrange, slice_to_vec};

verus! {

pub const MSG_OUT_CLOSE: u32 = 0x00;
pub const MSG_OUT_STATS: u32 = 0x01;
pub const MSG_OUT_PUTS: u32 = 0x02;
pub const MSG_OUT_WRITE: u32 = 0x03;
pub const MSG_OUT_INSPECT: u32 = 0x04;
pub const MSG_OUT_RESHAPE: u32 = 0x05;
pub const MSG_OUT_READY: u32 = 0x06;
pub const MSG_OUT_DRAW_READY: u32 = 0x07;
pub const MSG_OUT_KEY: u32 = 0x0A;
pub const MSG_OUT_CODEPOINT: u32 = 0x0B;
pub const MSG_OUT_CURSOR_POS: u32 = 0x0C;
pub const MSG_OUT_MOUSE_BUTTON: u32 = 0x0D;
pub const MSG_OUT_MOUSE_SCROLL: u32 = 0x0E;
pub const MSG_OUT_CURSOR_ENTER: u32 = 0x0F;
pub const MSG_OUT_CACHE_MISS: u32 = 0x20;
pub const MSG_OUT_FONT_MISS: u32 = 0x22;

/// An outbound message. `B` holds byte strings: `Vec<u8>` in running code,
/// `Seq<u8>` in its view. Positions and offsets are `f32` bit patterns.
#[derive(Debug)]
#[allow(inconsistent_fields)]
pub enum Event<B> {
    Close,
    Stats {
        input_flags: u32,
        x: i32,
        y: i32,
        width: i32,
        height: i32,
        focused: bool,
        resizable: bool,
        iconified: bool,
        maximized: bool,
        visible: bool,
    },
    Puts(B),
    Write(B),
    Inspect(B),
    Reshape { window_width: i32, window_height: i32, frame_width: i32, frame_height: i32 },
    Ready(i32),
    DrawReady(u32),
    Key { key: i32, scancode: i32, action: i32, mods: i32 },
    Codepoint { codepoint: u32, mods: i32 },
    CursorPos { x: u32, y: u32 },
    MouseButton { button: i32, action: i32, mods: i32, x: u32, y: u32 },
    Scroll { dx: u32, dy: u32, x: u32, y: u32 },
    CursorEnter { entered: i32, x: u32, y: u32 },
    CacheMiss(B),
    FontMiss(B),
}

impl View for Event<Vec<u8>> {
    type V = Event<Seq<u8>>;

    open spec fn view(&self) -> Event<Seq<u8>> {
        match self {
            Event::Close => Event::Close,
            Event::Stats {
                input_flags,
                x,
                y,
                width,
                height,
                focused,
                resizable,
                iconified,
                maximized,
                visible,
            } => Event::Stats {
                input_flags: *input_flags,
                x: *x,
                y: *y,
                width: *width,
                height: *height,
                focused: *focused,
                resizable: *resizable,
                iconified: *iconified,
                maximized: *maximized,
                visible: *visible,
            },
            Event::Puts(b) => Event::Puts(b@),
            Event::Write(b) => Event::Write(b@),
            Event::Inspect(b) => Event::Inspect(b@),
            Event::Reshape { window_width, window_height, frame_width, frame_height } =>
                Event::Reshape {
                window_width: *window_width,
                window_height: *window_height,
                frame_width: *frame_width,
                frame_height: *frame_height,
            },
            Event::Ready(id) => Event::Ready(*id),
            Event::DrawReady(id) => Event::DrawReady(*id),
            Event::Key { key, scancode, action, mods } => Event::Key {
                key: *key,
                scancode: *scancode,
                action: *action,
                mods: *mods,
            },
            Event::Codepoint { codepoint, mods } => Event::Codepoint {
                codepoint: *codepoint,
                mods: *mods,
            },
            Event::CursorPos { x, y } => Event::CursorPos { x: *x, y: *y },
            Event::MouseButton { button, action, mods, x, y } => Event::MouseButton {
                button: *button,
                action: *action,
                mods: *mods,
                x: *x,
                y: *y,
            },
            Event::Scroll { dx, dy, x, y } => Event::Scroll { dx: *dx, dy: *dy, x: *x, y: *y },
            Event::CursorEnter { entered, x, y } => Event::CursorEnter {
                entered: *entered,
                x: *x,
                y: *y,
            },
            Event::CacheMiss(b) => Event::CacheMiss(b@),
            Event::FontMiss(b) => Event::FontMiss(b@),
        }
    }
}

/// The kind word that leads the payload of `ev`.
pub open spec fn event_kind<B>(ev: Event<B>) -> u32 {
    match ev {
        Event::Close => MSG_OUT_CLOSE,
        Event::Stats { .. } => MSG_OUT_STATS,
        Event::Puts(_) => MSG_OUT_PUTS,
        Event::Write(_) => MSG_OUT_WRITE,
        Event::Inspect(_) => MSG_OUT_INSPECT,
        Event::Reshape { .. } => MSG_OUT_RESHAPE,
        Event::Ready(_) => MSG_OUT_READY,
        Event::DrawReady(_) => MSG_OUT_DRAW_READY,
        Event::Key { .. } => MSG_OUT_KEY,
        Event::Codepoint { .. } => MSG_OUT_CODEPOINT,
        Event::CursorPos { .. } => MSG_OUT_CURSOR_POS,
        Event::MouseButton { .. } => MSG_OUT_MOUSE_BUTTON,
        Event::Scroll { .. } => MSG_OUT_MOUSE_SCROLL,
        Event::CursorEnter { .. } => MSG_OUT_CURSOR_ENTER,
        Event::CacheMiss(_) => MSG_OUT_CACHE_MISS,
        Event::FontMiss(_) => MSG_OUT_FONT_MISS,
    }
}

/// The fixed-size fields of `ev`, as words, in layout order.
pub open spec fn event_words<B>(ev: Event<B>) -> Seq<u32> {
    match ev {
        Event::Stats {
            input_flags,
            x,
            y,
            width,
            height,
            focused,
            resizable,
            iconified,
            maximized,
            visible,
        } => seq![
            input_flags,
            i32_word(x),
            i32_word(y),
            i32_word(width),
            i32_word(height),
            bool_word(focused),
            bool_word(resizable),
            bool_word(iconified),
            bool_word(maximized),
            bool_word(visible),
        ],
        Event::Reshape { window_width, window_height, frame_width, frame_height } => seq![
            i32_word(window_width),
            i32_word(window_height),
            i32_word(frame_width),
            i32_word(frame_height),
        ],
        Event::Ready(id) => seq![i32_word(id)],
        Event::DrawReady(id) => seq![id],
        Event::Key { key, scancode, action, mods } => seq![
            i32_word(key),
            i32_word(scancode),
            i32_word(action),
            i32_word(mods),
        ],
        Event::Codepoint { codepoint, mods } => seq![codepoint, i32_word(mods)],
        Event::CursorPos { x, y } => seq![x, y],
        Event::MouseButton { button, action, mods, x, y } => seq![
            i32_word(button),
            i32_word(action),
            i32_word(mods),
            x,
            y,
        ],
        Event::Scroll { dx, dy, x, y } => seq![dx, dy, x, y],
        Event::CursorEnter { entered, x, y } => seq![i32_word(entered), x, y],
        _ => Seq::empty(),
    }
}

/// The trailing byte string of `ev`; empty for the events without one.
pub open spec fn event_text(ev: Event<Seq<u8>>) -> Seq<u8> {
    match ev {
        Event::Puts(b) => b,
        Event::Write(b) => b,
        Event::Inspect(b) => b,
        Event::CacheMiss(b) => b,
        Event::FontMiss(b) => b,
        _ => Seq::empty(),
    }
}

/// Kinds whose payload ends in a byte string that runs to the end.
pub open spec fn is_text_kind(k: u32) -> bool {
    k == MSG_OUT_PUTS || k == MSG_OUT_WRITE || k == MSG_OUT_INSPECT || k == MSG_OUT_CACHE_MISS
        || k == MSG_OUT_FONT_MISS
}

/// The number of words after the kind word, for kinds made of words alone.
pub open spec fn word_count(k: u32) -> Option<nat> {
    if k == MSG_OUT_CLOSE {
        Some(0)
    } else if k == MSG_OUT_STATS {
        Some(10)
    } else if k == MSG_OUT_RESHAPE || k == MSG_OUT_KEY || k == MSG_OUT_MOUSE_SCROLL {
        Some(4)
    } else if k == MSG_OUT_READY || k == MSG_OUT_DRAW_READY {
        Some(1)
    } else if k == MSG_OUT_CODEPOINT || k == MSG_OUT_CURSOR_POS {
        Some(2)
    } else if k == MSG_OUT_MOUSE_BUTTON {
        Some(5)
    } else if k == MSG_OUT_CURSOR_ENTER {
        Some(3)
    } else {
        None
    }
}

/// The event of text kind `k` carrying `b`.
pub open spec fn text_event(k: u32, b: Seq<u8>) -> Event<Seq<u8>> {
    if k == MSG_OUT_PUTS {
        Event::Puts(b)
    } else if k == MSG_OUT_WRITE {
        Event::Write(b)
    } else if k == MSG_OUT_INSPECT {
        Event::Inspect(b)
    } else if k == MSG_OUT_CACHE_MISS {
        Event::CacheMiss(b)
    } else {
        Event::FontMiss(b)
    }
}

/// The event of word kind `k` whose fields are `ws`.
pub open spec fn word_event<B>(k: u32, ws: Seq<u32>) -> Event<B> {
    if k == MSG_OUT_CLOSE {
        Event::Close
    } else if k == MSG_OUT_STATS {
        Event::Stats {
            input_flags: ws[0],
            x: word_i32(ws[1]),
            y: word_i32(ws[2]),
            width: word_i32(ws[3]),
            height: word_i32(ws[4]),
            focused: ws[5] != 0,
            resizable: ws[6] != 0,
            iconified: ws[7] != 0,
            maximized: ws[8] != 0,
            visible: ws[9] != 0,
        }
    } else if k == MSG_OUT_RESHAPE {
        Event::Reshape {
            window_width: word_i32(ws[0]),
            window_height: word_i32(ws[1]),
            frame_width: word_i32(ws[2]),
            frame_height: word_i32(ws[3]),
        }
    } else if k == MSG_OUT_READY {
        Event::Ready(word_i32(ws[0]))
    } else if k == MSG_OUT_DRAW_READY {
        Event::DrawReady(ws[0])
    } else if k == MSG_OUT_KEY {
        Event::Key {
            key: word_i32(ws[0]),
            scancode: word_i32(ws[1]),
            action: word_i32(ws[2]),
            mods: word_i32(ws[3]),
        }
    } else if k == MSG_OUT_CODEPOINT {
        Event::Codepoint { codepoint: ws[0], mods: word_i32(ws[1]) }
    } else if k == MSG_OUT_CURSOR_POS {
        Event::CursorPos { x: ws[0], y: ws[1] }
    } else if k == MSG_OUT_MOUSE_BUTTON {
        Event::MouseButton {
            button: word_i32(ws[0]),
            action: word_i32(ws[1]),
            mods: word_i32(ws[2]),
            x: ws[3],
            y: ws[4],
        }
    } else if k == MSG_OUT_MOUSE_SCROLL {
        Event::Scroll { dx: ws[0], dy: ws[1], x: ws[2], y: ws[3] }
    } else {
        Event::CursorEnter { entered: word_i32(ws[0]), x: ws[1], y: ws[2] }
    }
}

/// The payload of `ev`: its kind word, its words, then its byte string.
pub open spec fn event_payload(e: Endian, ev: Event<Seq<u8>>) -> Seq<u8> {
    word_bytes(e, event_kind(ev)) + words_bytes(e, event_words(ev)) + event_text(ev)
}

/// The event that payload `s` holds, if it holds one.
pub open spec fn parse_payload(e: Endian, s: Seq<u8>) -> Option<Event<Seq<u8>>> {
    if s.len() < 4 {
        None
    } else {
        let k = word_at(e, s, 0);
        if is_text_kind(k) {
            Some(text_event(k, s.subrange(4, s.len() as int)))
        } else {
            match word_count(k) {
                Some(n) => if s.len() == 4 + 4 * n {
                    Some(word_event(k, words_at(e, s, 4, n)))
                } else {
                    None
                },
                None => None,
            }
        }
    }
}

/// A frame: the payload length as a big-endian word, then the payload.
pub open spec fn frame_bytes(payload: Seq<u8>) -> Seq<u8> {
    word_bytes(Endian::Big, payload.len() as u32) + payload
}

/// The first frame of `s` and what follows it, if `s` starts with a whole frame.
pub open spec fn split_frame_spec(s: Seq<u8>) -> Option<(Seq<u8>, Seq<u8>)> {
    if s.len() < 4 {
        None
    } else {
        let n = word_at(Endian::Big, s, 0) as int;
        if s.len() < 4 + n {
            None
        } else {
            Some((s.subrange(4, 4 + n), s.subrange(4 + n, s.len() as int)))
        }
    }
}

proof fn lemma_payload_layout(e: Endian, ev: Event<Seq<u8>>)
    ensures
        ({
            let s = event_payload(e, ev);
            let ws = event_words(ev);
            &&& s.len() == 4 + 4 * ws.len() + event_text(ev).len()
            &&& word_at(e, s, 0) == event_kind(ev)
            &&& words_at(e, s, 4, ws.len()) == ws
            &&& s.subrange(4, s.len() as int) == words_bytes(e, ws) + event_text(ev)
        }),
{
    let k = event_kind(ev);
    let ws = event_words(ev);
    let s = event_payload(e, ev);
    lemma_words_round_trip(e, ws, word_bytes(e, k), event_text(ev));
    lemma_words_round_trip(e, seq![k], Seq::empty(), words_bytes(e, ws) + event_text(ev));
    assert(words_bytes(e, seq![k]) =~= word_bytes(e, k)) by {
        assert(seq![k].drop_last() =~= Seq::<u32>::empty());
    }
    assert(Seq::<u8>::empty() + word_bytes(e, k) + (words_bytes(e, ws) + event_text(ev)) =~= s);
    assert(word_at(e, s, 0) == k) by {
        assert(words_at(e, s, 0, 1)[0] == word_at(e, s, 0));
    }
    assert(s.subrange(4, s.len() as int) =~= words_bytes(e, ws) + event_text(ev));
}

#[verifier::rlimit(50)]
proof fn lemma_event_fields(ev: Event<Seq<u8>>)
    ensures
        is_text_kind(event_kind(ev)) ==> event_words(ev).len() == 0 && text_event(
            event_kind(ev),
            event_text(ev),
        ) == ev,
        !is_text_kind(event_kind(ev)) ==> event_text(ev).len() == 0 && word_count(event_kind(ev))
            == Some(event_words(ev).len()) && word_event::<Seq<u8>>(
            event_kind(ev),
            event_words(ev),
        ) == ev,
{
    match ev {
        Event::Stats { x, y, width, height, .. } => {
            lemma_i32_word(x);
            lemma_i32_word(y);
            lemma_i32_word(width);
            lemma_i32_word(height);
        },
        Event::Reshape { window_width, window_height, frame_width, frame_height } => {
            lemma_i32_word(window_width);
            lemma_i32_word(window_height);
            lemma_i32_word(frame_width);
            lemma_i32_word(frame_height);
        },
        Event::Ready(id) => {
            lemma_i32_word(id);
        },
        Event::Key { key, scancode, action, mods } => {
            lemma_i32_word(key);
            lemma_i32_word(scancode);
            lemma_i32_word(action);
            lemma_i32_word(mods);
        },
        Event::Codepoint { mods, .. } => {
            lemma_i32_word(mods);
        },
        Event::MouseButton { button, action, mods, .. } => {
            lemma_i32_word(button);
            lemma_i32_word(action);
            lemma_i32_word(mods);
        },
        Event::CursorEnter { entered, .. } => {
            lemma_i32_word(entered);
        },
        _ => {},
    }
}

/// Decoding the payload of an event gives the event back.
pub proof fn lemma_event_round_trip(e: Endian, ev: Event<Seq<u8>>)
    ensures
        parse_payload(e, event_payload(e, ev)) == Some(ev),
{
    let s = event_payload(e, ev);
    lemma_payload_layout(e, ev);
    lemma_event_fields(ev);
    if is_text_kind(event_kind(ev)) {
        assert(words_bytes(e, event_words(ev)) =~= Seq::<u8>::empty());
        assert(s.subrange(4, s.len() as int) =~= event_text(ev));
    }
}

/// Framing puts exactly four big-endian length bytes before the payload,
/// and reading a frame back takes exactly that many payload bytes.
pub proof fn lemma_frame_round_trip(payload: Seq<u8>, rest: Seq<u8>)
    requires
        payload.len() <= u32::MAX,
    ensures
        frame_bytes(payload).len() == 4 + payload.len() as int,
        frame_bytes(payload).subrange(0, 4) == word_bytes(Endian::Big, payload.len() as u32),
        word_at(Endian::Big, frame_bytes(payload), 0) == payload.len(),
        split_frame_spec(frame_bytes(payload) + rest) == Some((payload, rest)),
{
    let f = frame_bytes(payload);
    let s = f + rest;
    let n = payload.len() as u32;
    assert(f.subrange(0, 4) =~= word_bytes(Endian::Big, n));
    lemma_word_round_trip(Endian::Big, n, f, 0);
    assert(s.subrange(0, 4) =~= word_bytes(Endian::Big, n));
    lemma_word_round_trip(Endian::Big, n, s, 0);
    assert(s.subrange(4, 4 + payload.len() as int) =~= payload);
    assert(s.subrange(4 + payload.len() as int, s.len() as int) =~= rest);
}

} // verus!

verus! {

fn kind_of(ev: &Event<Vec<u8>>) -> (r: u32)
    ensures
        r == event_kind(ev@),
{
    match ev {
        Event::Close => MSG_OUT_CLOSE,
        Event::Stats { .. } => MSG_OUT_STATS,
        Event::Puts(_) => MSG_OUT_PUTS,
        Event::Write(_) => MSG_OUT_WRITE,
        Event::Inspect(_) => MSG_OUT_INSPECT,
        Event::Reshape { .. } => MSG_OUT_RESHAPE,
        Event::Ready(_) => MSG_OUT_READY,
        Event::DrawReady(_) => MSG_OUT_DRAW_READY,
        Event::Key { .. } => MSG_OUT_KEY,
        Event::Codepoint { .. } => MSG_OUT_CODEPOINT,
        Event::CursorPos { .. } => MSG_OUT_CURSOR_POS,
        Event::MouseButton { .. } => MSG_OUT_MOUSE_BUTTON,
        Event::Scroll { .. } => MSG_OUT_MOUSE_SCROLL,
        Event::CursorEnter { .. } => MSG_OUT_CURSOR_ENTER,
        Event::CacheMiss(_) => MSG_OUT_CACHE_MISS,
        Event::FontMiss(_) => MSG_OUT_FONT_MISS,
    }
}

fn flag_word(b: bool) -> (r: u32)
    ensures
        r == bool_word(b),
{
    if b {
        1
    } else {
        0
    }
}

fn words_of(ev: &Event<Vec<u8>>) -> (r: Vec<u32>)
    ensures
        r@ == event_words(ev@),
{
    let r = match ev {
        Event::Stats {
            input_flags,
            x,
            y,
            width,
            height,
            focused,
            resizable,
            iconified,
            maximized,
            visible,
        } => vec![
            *input_flags,
            i32_to_word(*x),
            i32_to_word(*y),
            i32_to_word(*width),
            i32_to_word(*height),
            flag_word(*focused),
            flag_word(*resizable),
            flag_word(*iconified),
            flag_word(*maximized),
            flag_word(*visible),
        ],
        Event::Reshape { window_width, window_height, frame_width, frame_height } => vec![
            i32_to_word(*window_width),
            i32_to_word(*window_height),
            i32_to_word(*frame_width),
            i32_to_word(*frame_height),
        ],
        Event::Ready(id) => vec![i32_to_word(*id)],
        Event::DrawReady(id) => vec![*id],
        Event::Key { key, scancode, action, mods } => vec![
            i32_to_word(*key),
            i32_to_word(*scancode),
            i32_to_word(*action),
            i32_to_word(*mods),
        ],
        Event::Codepoint { codepoint, mods } => vec![*codepoint, i32_to_word(*mods)],
        Event::CursorPos { x, y } => vec![*x, *y],
        Event::MouseButton { button, action, mods, x, y } => vec![
            i32_to_word(*button),
            i32_to_word(*action),
            i32_to_word(*mods),
            *x,
            *y,
        ],
        Event::Scroll { dx, dy, x, y } => vec![*dx, *dy, *x, *y],
        Event::CursorEnter { entered, x, y } => vec![i32_to_word(*entered), *x, *y],
        _ => Vec::new(),
    };
    assert(r@ =~= event_words(ev@));
    r
}

/// The payload of `ev`, with its words in byte order `e`.
pub fn encode_event(e: Endian, ev: &Event<Vec<u8>>) -> (r: Vec<u8>)
    ensures
        r@ == event_payload(e, ev@),
{
    let mut out: Vec<u8> = Vec::new();
    push_word(e, &mut out, kind_of(ev));
    let ws = words_of(ev);
    push_words(e, &mut out, &ws);
    match ev {
        Event::Puts(b) | Event::Write(b) | Event::Inspect(b) | Event::CacheMiss(b)
        | Event::FontMiss(b) => {
            out.extend_from_slice(b.as_slice());
        },
        _ => {},
    }
    assert(out@ =~= event_payload(e, ev@));
    out
}

fn count_of(k: u32) -> (r: Option<usize>)
    ensures
        r == (match word_count(k) {
            Some(n) => Some(n as usize),
            None => None::<usize>,
        }),
{
    if k == MSG_OUT_CLOSE {
        Some(0)
    } else if k == MSG_OUT_STATS {
        Some(10)
    } else if k == MSG_OUT_RESHAPE || k == MSG_OUT_KEY || k == MSG_OUT_MOUSE_SCROLL {
        Some(4)
    } else if k == MSG_OUT_READY || k == MSG_OUT_DRAW_READY {
        Some(1)
    } else if k == MSG_OUT_CODEPOINT || k == MSG_OUT_CURSOR_POS {
        Some(2)
    } else if k == MSG_OUT_MOUSE_BUTTON {
        Some(5)
    } else if k == MSG_OUT_CURSOR_ENTER {
        Some(3)
    } else {
        None
    }
}

fn word_event_of(k: u32, ws: &Vec<u32>) -> (r: Event<Vec<u8>>)
    requires
        word_count(k) == Some(ws@.len()),
    ensures
        r@ == word_event::<Seq<u8>>(k, ws@),
{
    if k == MSG_OUT_CLOSE {
        Event::Close
    } else if k == MSG_OUT_STATS {
        Event::Stats {
            input_flags: ws[0],
            x: word_to_i32(ws[1]),
            y: word_to_i32(ws[2]),
            width: word_to_i32(ws[3]),
            height: word_to_i32(ws[4]),
            focused: ws[5] != 0,
            resizable: ws[6] != 0,
            iconified: ws[7] != 0,
            maximized: ws[8] != 0,
            visible: ws[9] != 0,
        }
    } else if k == MSG_OUT_RESHAPE {
        Event::Reshape {
            window_width: word_to_i32(ws[0]),
            window_height: word_to_i32(ws[1]),
            frame_width: word_to_i32(ws[2]),
            frame_height: word_to_i32(ws[3]),
        }
    } else if k == MSG_OUT_READY {
        Event::Ready(word_to_i32(ws[0]))
    } else if k == MSG_OUT_DRAW_READY {
        Event::DrawReady(ws[0])
    } else if k == MSG_OUT_KEY {
        Event::Key {
            key: word_to_i32(ws[0]),
            scancode: word_to_i32(ws[1]),
            action: word_to_i32(ws[2]),
            mods: word_to_i32(ws[3]),
        }
    } else if k == MSG_OUT_CODEPOINT {
        Event::Codepoint { codepoint: ws[0], mods: word_to_i32(ws[1]) }
    } else if k == MSG_OUT_CURSOR_POS {
        Event::CursorPos { x: ws[0], y: ws[1] }
    } else if k == MSG_OUT_MOUSE_BUTTON {
        Event::MouseButton {
            button: word_to_i32(ws[0]),
            action: word_to_i32(ws[1]),
            mods: word_to_i32(ws[2]),
            x: ws[3],
            y: ws[4],
        }
    } else if k == MSG_OUT_MOUSE_SCROLL {
        Event::Scroll { dx: ws[0], dy: ws[1], x: ws[2], y: ws[3] }
    } else {
        Event::CursorEnter { entered: word_to_i32(ws[0]), x: ws[1], y: ws[2] }
    }
}

/// The event that payload `s` holds; `None` when it holds none.
pub fn decode_event(e: Endian, s: &[u8]) -> (r: Option<Event<Vec<u8>>>)
    ensures
        match r {
            Some(ev) => parse_payload(e, s@) == Some(ev@),
            None => parse_payload(e, s@) is None,
        },
{
    let k = match read_word(e, s, 0) {
        Ok(k) => k,
        Err(_) => return None,
    };
    if k == MSG_OUT_PUTS || k == MSG_OUT_WRITE || k == MSG_OUT_INSPECT || k == MSG_OUT_CACHE_MISS
        || k == MSG_OUT_FONT_MISS {
        let b = slice_to_vec(slice_subrange(s, 4, s.len()));
        let ev = if k == MSG_OUT_PUTS {
            Event::Puts(b)
        } else if k == MSG_OUT_WRITE {
            Event::Write(b)
        } else if k == MSG_OUT_INSPECT {
            Event::Inspect(b)
        } else if k == MSG_OUT_CACHE_MISS {
            Event::CacheMiss(b)
        } else {
            Event::FontMiss(b)
        };
        return Some(ev);
    }
    match count_of(k) {
        Some(n) => {
            if s.len() - 4 != 4 * n {
                return None;
            }
            let ws = read_words(e, s, 4, n);
            Some(word_event_of(k, &ws))
        },
        None => None,
    }
}

/// The frame that carries `payload`: its length as a big-endian word, then it.
pub fn frame(payload: &Vec<u8>) -> (r: Vec<u8>)
    requires
        payload@.len() <= u32::MAX,
    ensures
        r@ == frame_bytes(payload@),
{
    let mut out: Vec<u8> = Vec::new();
    push_word(Endian::Big, &mut out, payload.len() as u32);
    out.extend_from_slice(payload.as_slice());
    assert(out@ =~= frame_bytes(payload@));
    out
}

/// The payload length that a frame header announces.
pub fn read_msg_len(header: &[u8]) -> (r: u32)
    requires
        header@.len() >= 4,
    ensures
        r == word_at(Endian::Big, header@, 0),
{
    match read_word(Endian::Big, header, 0) {
        Ok(n) => n,
        Err(_) => 0,
    }
}

/// The payload of the first frame in `s` and the bytes after it; `None`
/// when `s` does not start with a whole frame.
pub fn split_frame(s: &[u8]) -> (r: Option<(Vec<u8>, Vec<u8>)>)
    ensures
        match r {
            Some((p, rest)) => split_frame_spec(s@) == Some((p@, rest@)),
            None => split_frame_spec(s@) is None,
        },
{
    if s.len() < 4 {
        return None;
    }
    let n = read_msg_len(s) as usize;
    if s.len() - 4 < n {
        return None;
    }
    let p = slice_to_vec(slice_subrange(s, 4, 4 + n));
    let rest = slice_to_vec(slice_subrange(s, 4 + n, s.len()));
    Some((p, rest))
}

/// The whole frame that carries `ev`.
pub fn write_cmd(e: Endian, ev: &Event<Vec<u8>>) -> (r: Vec<u8>)
    requires
        event_payload(e, ev@).len() <= u32::MAX,
    ensures
        r@ == frame_bytes(event_payload(e, ev@)),
{
    let p = encode_event(e, ev);
    frame(&p)
}

} // verus!

verus! {

/// Queues a reshape notice.
pub fn send_reshape(
    out: &mut Vec<Event<Vec<u8>>>,
    window_width: i32,
    window_height: i32,
    frame_width: i32,
    frame_height: i32,
)
    ensures
        final(out)@ == old(out)@.push(
            Event::Reshape { window_width, window_height, frame_width, frame_height },
        ),
{
    out.push(Event::Reshape { window_width, window_height, frame_width, frame_height });
}

/// Queues the ready notice with the root id.
pub fn send_ready(out: &mut Vec<Event<Vec<u8>>>, root_id: i32)
    ensures
        final(out)@ == old(out)@.push(Event::Ready(root_id)),
{
    out.push(Event::Ready(root_id));
}

/// Queues a log line.
pub fn send_puts(out: &mut Vec<Event<Vec<u8>>>, string: Vec<u8>)
    ensures
        final(out)@ == old(out)@.push(Event::Puts(string)),
{
    out.push(Event::Puts(string));
}

/// Queues a line for the remote side's output.
pub fn send_write(out: &mut Vec<Event<Vec<u8>>>, msg: Vec<u8>)
    ensures
        final(out)@ == old(out)@.push(Event::Write(msg)),
{
    out.push(Event::Write(msg));
}

/// Queues a blob for inspection; the whole of `data` is sent.
pub fn send_inspect(out: &mut Vec<Event<Vec<u8>>>, data: Vec<u8>, _length: i32)
    ensures
        final(out)@ == old(out)@.push(Event::Inspect(data)),
{
    out.push(Event::Inspect(data));
}

/// Queues a notice that no texture is loaded under `key`.
pub fn send_cache_miss(out: &mut Vec<Event<Vec<u8>>>, key: Vec<u8>)
    ensures
        final(out)@ == old(out)@.push(Event::CacheMiss(key)),
{
    out.push(Event::CacheMiss(key));
}

/// Queues a notice that no font named `key` is loaded.
pub fn send_font_miss(out: &mut Vec<Event<Vec<u8>>>, key: Vec<u8>)
    ensures
        final(out)@ == old(out)@.push(Event::FontMiss(key)),
{
    out.push(Event::FontMiss(key));
}

/// Queues a key event.
pub fn send_key(out: &mut Vec<Event<Vec<u8>>>, key: i32, scancode: i32, action: i32, mods: i32)
    ensures
        final(out)@ == old(out)@.push(Event::Key { key, scancode, action, mods }),
{
    out.push(Event::Key { key, scancode, action, mods });
}

/// Queues a character event.
pub fn send_codepoint(out: &mut Vec<Event<Vec<u8>>>, codepoint: u32, mods: i32)
    ensures
        final(out)@ == old(out)@.push(Event::Codepoint { codepoint, mods }),
{
    out.push(Event::Codepoint { codepoint, mods });
}

/// Queues a cursor position (`f32` bit patterns).
pub fn send_cursor_pos(out: &mut Vec<Event<Vec<u8>>>, xpos: u32, ypos: u32)
    ensures
        final(out)@ == old(out)@.push(Event::CursorPos { x: xpos, y: ypos }),
{
    out.push(Event::CursorPos { x: xpos, y: ypos });
}

/// Queues a mouse button event with the cursor position (`f32` bit patterns).
pub fn send_mouse_button(
    out: &mut Vec<Event<Vec<u8>>>,
    button: i32,
    action: i32,
    mods: i32,
    xpos: u32,
    ypos: u32,
)
    ensures
        final(out)@ == old(out)@.push(Event::MouseButton { button, action, mods, x: xpos, y: ypos }),
{
    out.push(Event::MouseButton { button, action, mods, x: xpos, y: ypos });
}

/// Queues a scroll event with the cursor position (`f32` bit patterns).
pub fn send_scroll(out: &mut Vec<Event<Vec<u8>>>, xoffset: u32, yoffset: u32, xpos: u32, ypos: u32)
    ensures
        final(out)@ == old(out)@.push(Event::Scroll { dx: xoffset, dy: yoffset, x: xpos, y: ypos }),
{
    out.push(Event::Scroll { dx: xoffset, dy: yoffset, x: xpos, y: ypos });
}

/// Queues a cursor enter or leave event with the cursor position.
pub fn send_cursor_enter(out: &mut Vec<Event<Vec<u8>>>, entered: i32, xpos: u32, ypos: u32)
    ensures
        final(out)@ == old(out)@.push(Event::CursorEnter { entered, x: xpos, y: ypos }),
{
    out.push(Event::CursorEnter { entered, x: xpos, y: ypos });
}

/// Queues a window-close notice.
pub fn send_close(out: &mut Vec<Event<Vec<u8>>>)
    ensures
        final(out)@ == old(out)@.push(Event::Close),
{
    out.push(Event::Close);
}

/// Queues a notice that the script `id` is stored and ready.
pub fn send_draw_ready(out: &mut Vec<Event<Vec<u8>>>, id: u32)
    ensures
        final(out)@ == old(out)@.push(Event::DrawReady(id)),
{
    out.push(Event::DrawReady(id));
}

} // verus!
