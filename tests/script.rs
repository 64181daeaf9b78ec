use scenic_driver::commands::{CMD_RENDER_GRAPH, CMD_SET_ROOT};
use scenic_driver::dispatch::{dispatch_message, Action};
use scenic_driver::events::Event;
use scenic_driver::script::{
    line_join, path_winding, render_root, run_scripts, DrawOp, Paint, Rgba, NVG_BEVEL, NVG_HOLE,
    NVG_MITER, NVG_ROUND, NVG_SOLID, OP_FILL_COLOR, OP_FILL_PAINT, OP_FONT, OP_LINE_JOIN,
    OP_PAINT_IMAGE, OP_PAINT_LINEAR, OP_PATH_BEGIN, OP_PATH_MOVE_TO, OP_RECT, OP_RUN_SCRIPT,
    OP_STROKE_COLOR, OP_STROKE_PAINT, OP_TERMINATE, OP_TEXT,
};
use scenic_driver::types::{setup_window_data, Context, WindowData};
use scenic_driver::wire::Endian;

type Op = DrawOp<Vec<u8>, Vec<u32>>;

fn words(ws: &[u32]) -> Vec<u8> {
    let mut v = Vec::new();
    for w in ws {
        v.extend_from_slice(&w.to_le_bytes());
    }
    v
}

fn f(x: f32) -> u32 {
    x.to_bits()
}

fn linear() -> Vec<u8> {
    words(&[OP_PAINT_LINEAR, f(0.0), f(1.0), f(10.0), f(20.0), 255, 0, 0, 255, 0, 0, 255, 128])
}

fn linear_paint() -> Paint<Vec<u8>> {
    Paint::Linear {
        start_x: f(0.0),
        start_y: f(1.0),
        end_x: f(10.0),
        end_y: f(20.0),
        start_color: Rgba { r: 255, g: 0, b: 0, a: 255 },
        end_color: Rgba { r: 0, g: 0, b: 255, a: 128 },
    }
}

fn run(wd: &WindowData, ctx: &Context, id: u32) -> (String, String) {
    let (ops, events) = run_scripts(wd, ctx, Endian::Little, id);
    (format!("{:?}", ops), format!("{:?}", events))
}

fn ops(v: Vec<Op>) -> String {
    format!("{:?}", v)
}

fn events(v: Vec<Event<Vec<u8>>>) -> String {
    format!("{:?}", v)
}

#[test]
fn color_between_paint_and_fill_paint_wins() {
    let mut wd = setup_window_data(10, 10);
    let ctx = Context::new();
    let mut s = linear();
    s.extend(words(&[OP_FILL_COLOR, 1, 2, 3, 4, OP_FILL_PAINT, OP_TERMINATE]));
    wd.put_script(1, s);
    let (o, e) = run(&wd, &ctx, 1);
    assert_eq!(o, ops(vec![DrawOp::FillColor(Rgba { r: 1, g: 2, b: 3, a: 4 })]));
    assert_eq!(e, events(vec![]));
}

#[test]
fn fill_paint_right_after_paint_applies_it() {
    let mut wd = setup_window_data(10, 10);
    let ctx = Context::new();
    let mut s = linear();
    s.extend(words(&[OP_FILL_PAINT, OP_STROKE_PAINT, OP_TERMINATE]));
    wd.put_script(1, s);
    let (o, _) = run(&wd, &ctx, 1);
    assert_eq!(o, ops(vec![DrawOp::FillPaint(linear_paint())]));
}

fn image(key: &[u8]) -> Vec<u8> {
    let mut v = words(&[OP_PAINT_IMAGE, f(0.0), f(0.0), f(32.0), f(32.0), f(0.0), f(1.0), key.len() as u32]);
    v.extend_from_slice(key);
    v
}

#[test]
fn image_paint_cache_miss() {
    let mut wd = setup_window_data(10, 10);
    let ctx = Context::new();
    let mut s = image(b"logo\0");
    s.extend(words(&[OP_FILL_PAINT, OP_TERMINATE]));
    wd.put_script(1, s);
    let (o, e) = run(&wd, &ctx, 1);
    assert_eq!(o, ops(vec![]));
    assert_eq!(e, events(vec![Event::CacheMiss(b"logo".to_vec())]));
}

#[test]
fn image_paint_cache_hit() {
    let mut wd = setup_window_data(10, 10);
    let mut ctx = Context::new();
    ctx.put_tx(b"logo".to_vec());
    let mut s = image(b"logo");
    s.extend(words(&[OP_STROKE_PAINT, OP_TERMINATE]));
    wd.put_script(1, s);
    let (o, e) = run(&wd, &ctx, 1);
    let p = Paint::Image {
        origin_x: f(0.0),
        origin_y: f(0.0),
        width: f(32.0),
        height: f(32.0),
        angle: f(0.0),
        alpha: f(1.0),
        key: b"logo".to_vec(),
    };
    assert_eq!(o, ops(vec![DrawOp::StrokePaint(p)]));
    assert_eq!(e, events(vec![]));
}

#[test]
fn sub_script_gets_no_paint() {
    let mut wd = setup_window_data(10, 10);
    let ctx = Context::new();
    wd.put_script(2, words(&[OP_FILL_PAINT, OP_RECT, f(3.0), f(4.0), OP_TERMINATE]));
    let mut s = linear();
    s.extend(words(&[OP_RUN_SCRIPT, 2, OP_FILL_PAINT, OP_TERMINATE]));
    wd.put_script(1, s);
    let (o, e) = run(&wd, &ctx, 1);
    assert_eq!(o, ops(vec![DrawOp::Call { op: OP_RECT, args: vec![f(3.0), f(4.0)] }]));
    assert_eq!(e, events(vec![]));
}

#[test]
fn missing_sub_script_is_skipped() {
    let mut wd = setup_window_data(10, 10);
    let ctx = Context::new();
    wd.put_script(1, words(&[OP_RUN_SCRIPT, 42, OP_PATH_BEGIN, OP_TERMINATE]));
    let (o, _) = run(&wd, &ctx, 1);
    assert_eq!(o, ops(vec![DrawOp::Call { op: OP_PATH_BEGIN, args: vec![] }]));
}

#[test]
fn self_calling_script_is_cut_off() {
    let mut wd = setup_window_data(10, 10);
    let ctx = Context::new();
    wd.put_script(5, words(&[OP_RUN_SCRIPT, 5, OP_TERMINATE]));
    let (o, e) = run(&wd, &ctx, 5);
    assert_eq!(o, ops(vec![]));
    assert_eq!(
        e,
        events(vec![Event::Puts(b"Script aborted: scripts nested too deeply".to_vec())])
    );
}

#[test]
fn truncated_operand_aborts_and_keeps_earlier_calls() {
    let mut wd = setup_window_data(10, 10);
    let ctx = Context::new();
    wd.put_script(1, words(&[OP_PATH_BEGIN, OP_PATH_MOVE_TO, f(1.0)]));
    let (o, e) = run(&wd, &ctx, 1);
    assert_eq!(o, ops(vec![DrawOp::Call { op: OP_PATH_BEGIN, args: vec![] }]));
    assert_eq!(
        e,
        events(vec![Event::Puts(b"Script aborted: unexpected end of script".to_vec())])
    );
}

#[test]
fn unknown_script_opcode_logs_and_stops() {
    let mut wd = setup_window_data(10, 10);
    let ctx = Context::new();
    wd.put_script(1, words(&[0x99, OP_PATH_BEGIN, OP_TERMINATE]));
    let (o, e) = run(&wd, &ctx, 1);
    assert_eq!(o, ops(vec![]));
    assert_eq!(e, events(vec![Event::Puts(b"!!!Unknown script command: 153".to_vec())]));
}

#[test]
fn styles_text_and_fonts() {
    let mut wd = setup_window_data(10, 10);
    let mut ctx = Context::new();
    ctx.put_font(b"roboto".to_vec());
    let mut s = words(&[OP_STROKE_COLOR, 261, 1, 2, 3, OP_LINE_JOIN, 0, OP_TEXT, 2]);
    s.extend_from_slice(b"hi");
    s.extend(words(&[OP_FONT, 8]));
    s.extend_from_slice(b"roboto\0\0");
    s.extend(words(&[OP_FONT, 4]));
    s.extend_from_slice(b"mono");
    s.extend(words(&[OP_TERMINATE]));
    wd.put_script(1, s);
    let (o, e) = run(&wd, &ctx, 1);
    assert_eq!(
        o,
        ops(vec![
            DrawOp::StrokeColor(Rgba { r: 5, g: 1, b: 2, a: 3 }),
            DrawOp::LineJoin(NVG_MITER),
            DrawOp::Text(b"hi".to_vec()),
            DrawOp::FontFace(b"roboto".to_vec()),
        ])
    );
    assert_eq!(e, events(vec![Event::FontMiss(b"mono".to_vec())]));
}

#[test]
fn join_and_winding_codes() {
    assert_eq!(line_join(0), NVG_MITER);
    assert_eq!(line_join(1), NVG_ROUND);
    assert_eq!(line_join(2), NVG_BEVEL);
    assert_eq!(line_join(7), 7);
    assert_eq!(path_winding(1), NVG_SOLID);
    assert_eq!(path_winding(0), NVG_HOLE);
}

#[test]
fn nonpositive_root_draws_nothing() {
    let mut wd = setup_window_data(10, 10);
    let ctx = Context::new();
    wd.put_script(1, words(&[OP_PATH_BEGIN, OP_TERMINATE]));
    wd.root_script = -1;
    let (o, e) = render_root(&wd, &ctx, Endian::Little);
    assert!(o.is_empty() && e.is_empty());
    wd.root_script = 0;
    let (o, _) = render_root(&wd, &ctx, Endian::Little);
    assert!(o.is_empty());
    wd.root_script = 1;
    let (o, _) = render_root(&wd, &ctx, Endian::Little);
    assert_eq!(o.len(), 1);
}

#[test]
fn end_to_end_terminate_only_script() {
    let mut wd = setup_window_data(10, 10);
    let mut ctx = Context::new();
    let mut all: Vec<Action<Vec<u8>>> = Vec::new();
    let mut frames = vec![words(&[CMD_SET_ROOT, (-1i32) as u32])];
    let mut render = words(&[CMD_RENDER_GRAPH, 7]);
    render.extend(words(&[OP_TERMINATE]));
    frames.push(render);
    frames.push(words(&[CMD_SET_ROOT, 7]));
    for fr in frames {
        let (_, actions) = dispatch_message(&mut wd, &mut ctx, Endian::Little, &fr);
        all.extend(actions);
    }
    let ready: Vec<&Action<Vec<u8>>> =
        all.iter().filter(|a| matches!(a, Action::Emit(Event::DrawReady(_)))).collect();
    assert_eq!(ready.len(), 1);
    assert!(matches!(ready[0], Action::Emit(Event::DrawReady(7))));
    assert_eq!(wd.root_script, 7);
    let (o, e) = render_root(&wd, &ctx, Endian::Little);
    assert!(o.is_empty());
    assert!(e.is_empty());
}

#[test]
fn non_utf8_font_name_aborts_script() {
    let mut wd = setup_window_data(10, 10);
    let ctx = Context::new();
    let mut s = words(&[OP_PATH_BEGIN, OP_FONT, 1]);
    s.push(0xC3);
    s.extend(words(&[OP_TERMINATE]));
    wd.put_script(1, s);
    let (o, e) = run(&wd, &ctx, 1);
    assert_eq!(o, ops(vec![DrawOp::Call { op: OP_PATH_BEGIN, args: vec![] }]));
    assert_eq!(e, events(vec![Event::Puts(b"Script aborted: a name is not UTF-8".to_vec())]));
}
