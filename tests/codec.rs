use scenic_driver::events::{
    decode_event, encode_event, frame, read_msg_len, send_draw_ready, send_puts, split_frame,
    write_cmd, Event, MSG_OUT_CACHE_MISS, MSG_OUT_DRAW_READY,
};
use scenic_driver::text::{push_dec, push_hex, read_string, trim_null_tail};
use scenic_driver::wire::{push_word, read_word, DecodeError, Endian};

#[test]
fn read_write_multi_test() {
    let vec: Vec<u8> = vec![1, 2, 3, 4, 5, 6, 7, 0xff];
    let a = read_word(Endian::Little, &vec, 0).expect("read_multi_test failed") as i32;
    let b = read_word(Endian::Little, &vec, 4).expect("read_multi_test failed");
    assert_eq!(0x04030201, a);
    assert_eq!(0xff070605, b);

    assert!(read_word(Endian::Little, &vec, 8).is_err());

    let mut out: Vec<u8> = vec![];
    push_word(Endian::Little, &mut out, 0x04030201i32 as u32);
    push_word(Endian::Little, &mut out, 0xff070605u32);
    assert_eq!(out, vec![1, 2, 3, 4, 5, 6, 7, 0xff]);
}

#[test]
fn big_endian_words() {
    let v: Vec<u8> = vec![1, 2, 3, 4];
    assert_eq!(read_word(Endian::Big, &v, 0), Ok(0x01020304));
    let mut out: Vec<u8> = vec![];
    push_word(Endian::Big, &mut out, 0x0A0B0C0D);
    assert_eq!(out, vec![0x0A, 0x0B, 0x0C, 0x0D]);
}

#[test]
fn read_past_end_is_eof() {
    let v: Vec<u8> = vec![1, 2, 3];
    assert_eq!(read_word(Endian::Little, &v, 0), Err(DecodeError::UnexpectedEof));
    assert_eq!(read_word(Endian::Little, &v, 7), Err(DecodeError::UnexpectedEof));
}

fn all_events() -> Vec<Event<Vec<u8>>> {
    vec![
        Event::Close,
        Event::Stats {
            input_flags: 0xFFFF,
            x: -5,
            y: 7,
            width: 800,
            height: 600,
            focused: true,
            resizable: false,
            iconified: false,
            maximized: true,
            visible: true,
        },
        Event::Puts(b"hello".to_vec()),
        Event::Write(b"line".to_vec()),
        Event::Inspect(vec![0, 1, 2, 255]),
        Event::Reshape { window_width: 640, window_height: 480, frame_width: 1280, frame_height: 960 },
        Event::Ready(-1),
        Event::DrawReady(7),
        Event::Key { key: 65, scancode: 38, action: 1, mods: -2 },
        Event::Codepoint { codepoint: 0x1F600, mods: 4 },
        Event::CursorPos { x: 1.5f32.to_bits(), y: (-2.25f32).to_bits() },
        Event::MouseButton { button: 0, action: 1, mods: 0, x: 3.0f32.to_bits(), y: 4.0f32.to_bits() },
        Event::Scroll { dx: 0.5f32.to_bits(), dy: 1.0f32.to_bits(), x: 10.0f32.to_bits(), y: 20.0f32.to_bits() },
        Event::CursorEnter { entered: 1, x: 0, y: 0 },
        Event::CacheMiss(b"tex".to_vec()),
        Event::FontMiss(b"roboto".to_vec()),
    ]
}

#[test]
fn every_event_kind_round_trips() {
    for e in [Endian::Little, Endian::Big] {
        for ev in all_events() {
            let bytes = encode_event(e, &ev);
            let back = decode_event(e, &bytes).expect("decodes");
            assert_eq!(format!("{:?}", back), format!("{:?}", ev));
        }
    }
}

#[test]
fn event_payload_layout() {
    let bytes = encode_event(Endian::Little, &Event::DrawReady(7));
    assert_eq!(bytes, vec![7, 0, 0, 0, 7, 0, 0, 0]);
    let bytes = encode_event(Endian::Little, &Event::CacheMiss(b"ab".to_vec()));
    assert_eq!(bytes, vec![0x20, 0, 0, 0, b'a', b'b']);
    let bytes = encode_event(Endian::Little, &Event::Ready(-1));
    assert_eq!(bytes, vec![6, 0, 0, 0, 0xff, 0xff, 0xff, 0xff]);
    assert_eq!(MSG_OUT_CACHE_MISS, 0x20);
    assert_eq!(MSG_OUT_DRAW_READY, 7);
}

#[test]
fn decode_rejects_bad_payloads() {
    assert!(decode_event(Endian::Little, &[7, 0, 0]).is_none());
    assert!(decode_event(Endian::Little, &[7, 0, 0, 0, 1, 0, 0]).is_none());
    assert!(decode_event(Endian::Little, &[7, 0, 0, 0, 1, 0, 0, 0, 9]).is_none());
    assert!(decode_event(Endian::Little, &[0x99, 0, 0, 0]).is_none());
}

#[test]
fn frame_has_big_endian_length_prefix() {
    let payload: Vec<u8> = vec![9; 300];
    let f = frame(&payload);
    assert_eq!(f.len(), 304);
    assert_eq!(&f[0..4], &[0, 0, 1, 44]);
    assert_eq!(read_msg_len(&f), 300);
    assert_eq!(&f[4..], &payload[..]);
}

#[test]
fn split_frame_reads_exactly_the_announced_bytes() {
    let mut s = frame(&vec![1, 2, 3]);
    s.extend_from_slice(&[4, 5]);
    let (p, rest) = split_frame(&s).expect("whole frame");
    assert_eq!(p, vec![1, 2, 3]);
    assert_eq!(rest, vec![4, 5]);
    assert!(split_frame(&[0, 0, 0, 5, 1, 2]).is_none());
    assert!(split_frame(&[0, 0]).is_none());
}

#[test]
fn write_cmd_frames_the_payload() {
    let f = write_cmd(Endian::Little, &Event::DrawReady(7));
    assert_eq!(f, vec![0, 0, 0, 8, 7, 0, 0, 0, 7, 0, 0, 0]);
}

#[test]
fn send_functions_queue_events() {
    let mut out: Vec<Event<Vec<u8>>> = Vec::new();
    send_draw_ready(&mut out, 3);
    send_puts(&mut out, b"x".to_vec());
    assert_eq!(format!("{:?}", out), format!("{:?}", vec![Event::DrawReady(3), Event::Puts(b"x".to_vec())]));
}

#[test]
fn number_text() {
    let mut b: Vec<u8> = Vec::new();
    push_hex(&mut b, 0xFE);
    assert_eq!(b, b"FE".to_vec());
    let mut b: Vec<u8> = Vec::new();
    push_hex(&mut b, 0);
    assert_eq!(b, b"0".to_vec());
    let mut b: Vec<u8> = Vec::new();
    push_hex(&mut b, 0xDEADBEEF);
    assert_eq!(b, b"DEADBEEF".to_vec());
    let mut b: Vec<u8> = Vec::new();
    push_dec(&mut b, 4294967295);
    assert_eq!(b, b"4294967295".to_vec());
}

#[test]
fn trailing_nuls_are_trimmed() {
    assert_eq!(trim_null_tail(b"abc\0\0".to_vec()), b"abc".to_vec());
    assert_eq!(trim_null_tail(vec![0, 0]), Vec::<u8>::new());
    assert_eq!(trim_null_tail(vec![]), Vec::<u8>::new());
    assert_eq!(trim_null_tail(b"a\0b".to_vec()), b"a\0b".to_vec());
    let s = b"xkey\0\0z".to_vec();
    assert_eq!(read_string(&s, 1, 5), Ok(b"key".to_vec()));
    assert_eq!(read_string(&s, 5, 5), Err(DecodeError::UnexpectedEof));
}
