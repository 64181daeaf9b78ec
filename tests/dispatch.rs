use scenic_driver::commands::{
    decode_command, Command, CMD_CLEAR_COLOR, CMD_CLEAR_GRAPH, CMD_CRASH, CMD_FREE_TX_ID,
    CMD_INPUT, CMD_LOAD_FONT_BLOB, CMD_LOAD_FONT_FILE, CMD_PUT_TX_BLOB, CMD_QUERY_STATS,
    CMD_QUIT, CMD_RENDER_GRAPH, CMD_RESHAPE, CMD_SET_ROOT,
};
use scenic_driver::dispatch::{dispatch_message, Action};
use scenic_driver::events::Event;
use scenic_driver::input::{is_caller_down, key_callback, reshape_framebuffer, reshape_window};
use scenic_driver::types::{setup_window_data, Context};
use scenic_driver::wire::Endian;

fn words(ws: &[u32]) -> Vec<u8> {
    let mut v = Vec::new();
    for w in ws {
        v.extend_from_slice(&w.to_le_bytes());
    }
    v
}

fn show(actions: &[Action<Vec<u8>>]) -> String {
    format!("{:?}", actions)
}

#[test]
fn render_script_stores_and_reports_ready() {
    let mut wd = setup_window_data(800, 600);
    let mut ctx = Context::new();
    let mut msg = words(&[CMD_RENDER_GRAPH, 7]);
    msg.extend_from_slice(&[0xFF, 0, 0, 0]);
    let (redraw, actions) = dispatch_message(&mut wd, &mut ctx, Endian::Little, &msg);
    assert!(redraw);
    assert_eq!(show(&actions), show(&[Action::Emit(Event::DrawReady(7)), Action::Wake]));
    assert_eq!(wd.get_script(7), Some(&vec![0xFF, 0, 0, 0]));
}

#[test]
fn render_then_clear_removes_script() {
    let mut wd = setup_window_data(800, 600);
    let mut ctx = Context::new();
    let msg = words(&[CMD_RENDER_GRAPH, 3, 0xFF]);
    dispatch_message(&mut wd, &mut ctx, Endian::Little, &msg);
    assert!(wd.get_script(3).is_some());
    let (redraw, actions) =
        dispatch_message(&mut wd, &mut ctx, Endian::Little, &words(&[CMD_CLEAR_GRAPH, 3]));
    assert!(redraw);
    assert!(actions.is_empty());
    assert!(wd.get_script(3).is_none());
}

#[test]
fn set_root_and_input_flags() {
    let mut wd = setup_window_data(800, 600);
    let mut ctx = Context::new();
    let (redraw, _) =
        dispatch_message(&mut wd, &mut ctx, Endian::Little, &words(&[CMD_SET_ROOT, (-1i32) as u32]));
    assert!(redraw);
    assert_eq!(wd.root_script, -1);
    let (redraw, actions) =
        dispatch_message(&mut wd, &mut ctx, Endian::Little, &words(&[CMD_INPUT, 0x3]));
    assert!(!redraw);
    assert!(actions.is_empty());
    assert_eq!(wd.input_flags, 3);
}

#[test]
fn quit_stops_and_wakes() {
    let mut wd = setup_window_data(800, 600);
    let mut ctx = Context::new();
    let (redraw, actions) =
        dispatch_message(&mut wd, &mut ctx, Endian::Little, &words(&[CMD_QUIT, 99]));
    assert!(!redraw);
    assert!(!wd.keep_going);
    assert_eq!(show(&actions), show(&[Action::Wake]));
}

#[test]
fn clear_color_and_stats_and_reshape() {
    let mut wd = setup_window_data(800, 600);
    let mut ctx = Context::new();
    let (redraw, actions) =
        dispatch_message(&mut wd, &mut ctx, Endian::Little, &words(&[CMD_CLEAR_COLOR, 255, 0, 128, 255]));
    assert!(redraw);
    assert_eq!(show(&actions), show(&[Action::SetClearColor { r: 255, g: 0, b: 128, a: 255 }]));
    let (_, actions) = dispatch_message(&mut wd, &mut ctx, Endian::Little, &words(&[CMD_QUERY_STATS]));
    assert_eq!(show(&actions), show(&[Action::ReportStats { input_flags: 0xFFFF }]));
    let (_, actions) =
        dispatch_message(&mut wd, &mut ctx, Endian::Little, &words(&[CMD_RESHAPE, 1024, 768]));
    assert_eq!(show(&actions), show(&[Action::SetSize { width: 1024, height: 768 }]));
}

fn named(op: u32, name: &[u8], second: &[u8]) -> Vec<u8> {
    let mut v = words(&[op, name.len() as u32, second.len() as u32]);
    v.extend_from_slice(name);
    v.extend_from_slice(second);
    v
}

#[test]
fn textures_load_and_free_twice() {
    let mut wd = setup_window_data(800, 600);
    let mut ctx = Context::new();
    let (redraw, actions) = dispatch_message(
        &mut wd,
        &mut ctx,
        Endian::Little,
        &named(CMD_PUT_TX_BLOB, b"logo\0\0", &[1, 2, 3]),
    );
    assert!(redraw);
    assert_eq!(
        show(&actions),
        show(&[Action::LoadTexture { name: b"logo".to_vec(), data: vec![1, 2, 3] }])
    );
    assert!(ctx.has_texture(b"logo"));
    let mut free = words(&[CMD_FREE_TX_ID, 4]);
    free.extend_from_slice(b"logo");
    let (redraw, actions) = dispatch_message(&mut wd, &mut ctx, Endian::Little, &free);
    assert!(!redraw);
    assert_eq!(show(&actions), show(&[Action::FreeTexture { name: b"logo".to_vec() }]));
    assert!(!ctx.has_texture(b"logo"));
    let (redraw, actions) = dispatch_message(&mut wd, &mut ctx, Endian::Little, &free);
    assert!(!redraw);
    assert!(actions.is_empty());
    assert!(!ctx.has_texture(b"logo"));
}

#[test]
fn fonts_load_once_per_name() {
    let mut wd = setup_window_data(800, 600);
    let mut ctx = Context::new();
    let msg = named(CMD_LOAD_FONT_FILE, b"roboto", b"/f/roboto.ttf\0");
    let (redraw, actions) = dispatch_message(&mut wd, &mut ctx, Endian::Little, &msg);
    assert!(redraw);
    assert_eq!(
        show(&actions),
        show(&[Action::LoadFontFile { name: b"roboto".to_vec(), path: b"/f/roboto.ttf".to_vec() }])
    );
    let (redraw, actions) = dispatch_message(
        &mut wd,
        &mut ctx,
        Endian::Little,
        &named(CMD_LOAD_FONT_BLOB, b"roboto", &[7, 7]),
    );
    assert!(redraw);
    assert!(actions.is_empty());
    assert!(ctx.has_font(b"roboto"));
}

#[test]
fn unknown_command_logs_opcode_and_continues() {
    let mut wd = setup_window_data(800, 600);
    let mut ctx = Context::new();
    let (redraw, actions) = dispatch_message(&mut wd, &mut ctx, Endian::Little, &words(&[0x24]));
    assert!(!redraw);
    assert_eq!(show(&actions), show(&[Action::Emit(Event::Puts(b"Unknown message: 0x24".to_vec()))]));
    assert!(wd.keep_going);
    let (redraw, actions) =
        dispatch_message(&mut wd, &mut ctx, Endian::Little, &words(&[CMD_RENDER_GRAPH, 1, 0xFF]));
    assert!(redraw);
    assert_eq!(actions.len(), 2);
}

#[test]
fn unknown_command_with_trailing_bytes_drains_errors() {
    let mut wd = setup_window_data(800, 600);
    let mut ctx = Context::new();
    let mut msg = words(&[0xABC]);
    msg.extend_from_slice(b"ab");
    let (_, actions) = dispatch_message(&mut wd, &mut ctx, Endian::Little, &msg);
    assert_eq!(
        show(&actions),
        show(&[
            Action::Emit(Event::Puts(b"Unknown message: 0xABC".to_vec())),
            Action::DrainErrors { context: b"ab".to_vec() },
        ])
    );
}

#[test]
fn truncated_command_is_reported_and_ignored() {
    let mut wd = setup_window_data(800, 600);
    let mut ctx = Context::new();
    let (redraw, actions) = dispatch_message(&mut wd, &mut ctx, Endian::Little, &words(&[CMD_SET_ROOT]));
    assert!(!redraw);
    assert_eq!(show(&actions), show(&[Action::Emit(Event::Puts(b"Malformed message".to_vec()))]));
    assert_eq!(wd.root_script, -1);
    let (_, actions) = dispatch_message(&mut wd, &mut ctx, Endian::Little, &[1, 0]);
    assert_eq!(actions.len(), 1);
    let (_, actions) =
        dispatch_message(&mut wd, &mut ctx, Endian::Little, &named(CMD_PUT_TX_BLOB, b"k", &[]).split_at(12).0);
    assert_eq!(show(&actions), show(&[Action::Emit(Event::Puts(b"Malformed message".to_vec()))]));
    assert!(!ctx.has_texture(b"k"));
}

#[test]
fn crash_logs_then_exits() {
    let mut wd = setup_window_data(800, 600);
    let mut ctx = Context::new();
    let (_, actions) = dispatch_message(&mut wd, &mut ctx, Endian::Little, &words(&[CMD_CRASH]));
    assert_eq!(
        show(&actions),
        show(&[Action::Emit(Event::Puts(b"receive_crash - exit".to_vec())), Action::Exit { code: 1 }])
    );
}

#[test]
fn decode_command_reports_length_taken() {
    let msg = words(&[CMD_RESHAPE, 3, 4, 5]);
    let (c, n) = decode_command(Endian::Little, &msg).expect("decodes");
    assert_eq!(n, 12);
    assert_eq!(format!("{:?}", c), format!("{:?}", Command::<Vec<u8>>::Reshape { width: 3, height: 4 }));
}

#[test]
fn input_mask_gates_keys() {
    let mut wd = setup_window_data(800, 600);
    let mut out: Vec<Event<Vec<u8>>> = Vec::new();
    key_callback(&wd, &mut out, 65, 1, 1, 0);
    assert_eq!(out.len(), 1);
    wd.input_flags = 0x2;
    key_callback(&wd, &mut out, 65, 1, 1, 0);
    assert_eq!(out.len(), 1);
}

#[test]
fn reshape_records_sizes() {
    let mut wd = setup_window_data(800, 600);
    let mut out: Vec<Event<Vec<u8>>> = Vec::new();
    reshape_framebuffer(&mut wd, 1600, 1200);
    assert_eq!(wd.frame_size, (1600, 1200));
    reshape_window(&mut wd, &mut out, 640, 480);
    assert_eq!(wd.window_size, (640, 480));
    assert!(wd.redraw);
    assert_eq!(
        format!("{:?}", out),
        format!(
            "{:?}",
            vec![Event::<Vec<u8>>::Reshape { window_width: 640, window_height: 480, frame_width: 640, frame_height: 480 }]
        )
    );
    assert!(!is_caller_down());
}

#[test]
fn non_utf8_name_is_rejected() {
    let mut wd = setup_window_data(800, 600);
    let mut ctx = Context::new();
    let (redraw, actions) =
        dispatch_message(&mut wd, &mut ctx, Endian::Little, &named(CMD_PUT_TX_BLOB, &[0xFF, 0x41], &[1]));
    assert!(!redraw);
    assert_eq!(show(&actions), show(&[Action::Emit(Event::Puts(b"Malformed message".to_vec()))]));
    assert!(!ctx.has_texture(&[0xFF, 0x41]));
    let (_, actions) = dispatch_message(
        &mut wd,
        &mut ctx,
        Endian::Little,
        &named(CMD_PUT_TX_BLOB, "caf\u{e9}".as_bytes(), &[1]),
    );
    assert_eq!(actions.len(), 1);
    assert!(ctx.has_texture("caf\u{e9}".as_bytes()));
}
