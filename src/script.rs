//! The script interpreter: a stored drawing program in, the backend calls
//! it makes and the events it sends out. A paint made by one instruction
//! is seen by the next instruction only.

use crate::events::Event;
use crate::text::{
    dec_text, push_dec, push_str, read_bytes, read_string, string_field, trim_nul,
};
use crate::types::{Context, WindowData};
use crate::wire::{read_word, read_words, word_at, word_i32, word_to_i32, words_at, DecodeError, Endian};
use vstd::prelude::*;
use vstd::string::StringSliceAdditionalSpecFns;
use vstd::utf8::valid_utf8;

verus! {

pub const OP_PUSH_STATE: u32 = 0x01;
pub const OP_POP_STATE: u32 = 0x02;
pub const OP_RESET_STATE: u32 = 0x03;
pub const OP_RUN_SCRIPT: u32 = 0x04;
pub const OP_PAINT_LINEAR: u32 = 0x06;
pub const OP_PAINT_BOX: u32 = 0x07;
pub const OP_PAINT_RADIAL: u32 = 0x08;
pub const OP_PAINT_IMAGE: u32 = 0x09;
pub const OP_ANTI_ALIAS: u32 = 0x0A;
pub const OP_STROKE_WIDTH: u32 = 0x0C;
pub const OP_STROKE_COLOR: u32 = 0x0D;
pub const OP_STROKE_PAINT: u32 = 0x0E;
pub const OP_FILL_COLOR: u32 = 0x10;
pub const OP_FILL_PAINT: u32 = 0x11;
pub const OP_MITER_LIMIT: u32 = 0x14;
pub const OP_LINE_CAP: u32 = 0x15;
pub const OP_LINE_JOIN: u32 = 0x16;
pub const OP_GLOBAL_ALPHA: u32 = 0x17;
pub const OP_SCISSOR: u32 = 0x1B;
pub const OP_INTERSECT_SCISSOR: u32 = 0x1C;
pub const OP_RESET_SCISSOR: u32 = 0x1D;
pub const OP_PATH_BEGIN: u32 = 0x20;
pub const OP_PATH_MOVE_TO: u32 = 0x21;
pub const OP_PATH_LINE_TO: u32 = 0x22;
pub const OP_PATH_BEZIER_TO: u32 = 0x23;
pub const OP_PATH_QUADRATIC_TO: u32 = 0x24;
pub const OP_PATH_ARC_TO: u32 = 0x25;
pub const OP_PATH_CLOSE: u32 = 0x26;
pub const OP_PATH_WINDING: u32 = 0x27;
pub const OP_FILL: u32 = 0x29;
pub const OP_STROKE: u32 = 0x2A;
pub const OP_TRIANGLE: u32 = 0x2C;
pub const OP_ARC: u32 = 0x2D;
pub const OP_RECT: u32 = 0x2E;
pub const OP_ROUND_RECT: u32 = 0x2F;
pub const OP_ROUND_RECT_VAR: u32 = 0x30;
pub const OP_ELLIPSE: u32 = 0x31;
pub const OP_CIRCLE: u32 = 0x32;
pub const OP_SECTOR: u32 = 0x33;
pub const OP_TEXT: u32 = 0x34;
pub const OP_TX_RESET: u32 = 0x36;
pub const OP_TX_IDENTITY: u32 = 0x37;
pub const OP_TX_MATRIX: u32 = 0x38;
pub const OP_TX_TRANSLATE: u32 = 0x39;
pub const OP_TX_SCALE: u32 = 0x3A;
pub const OP_TX_ROTATE: u32 = 0x3B;
pub const OP_TX_SKEW_X: u32 = 0x3C;
pub const OP_TX_SKEW_Y: u32 = 0x3D;
pub const OP_FONT: u32 = 0x40;
pub const OP_FONT_BLUR: u32 = 0x41;
pub const OP_FONT_SIZE: u32 = 0x42;
pub const OP_TEXT_ALIGN: u32 = 0x43;
pub const OP_TEXT_HEIGHT: u32 = 0x44;
pub const OP_TERMINATE: u32 = 0xFF;

/// The backend's line-join and winding constants.
pub const NVG_ROUND: i32 = 1;
pub const NVG_BEVEL: i32 = 3;
pub const NVG_MITER: i32 = 4;
pub const NVG_SOLID: i32 = 1;
pub const NVG_HOLE: i32 = 2;

/// How deeply scripts may run one another.
pub const MAX_SCRIPT_DEPTH: u32 = 64;

/// A colour, one byte per channel.
#[derive(Clone, Copy, Debug, PartialEq, Eq, Structural)]
pub struct Rgba {
    pub r: u8,
    pub g: u8,
    pub b: u8,
    pub a: u8,
}

/// A gradient or image pattern. Geometry fields are `f32` bit patterns;
/// `B` holds the texture key as in `Event`.
#[derive(Debug)]
pub enum Paint<B> {
    Linear { start_x: u32, start_y: u32, end_x: u32, end_y: u32, start_color: Rgba, end_color: Rgba },
    Box {
        x: u32,
        y: u32,
        width: u32,
        height: u32,
        radius: u32,
        feather: u32,
        start_color: Rgba,
        end_color: Rgba,
    },
    Radial {
        center_x: u32,
        center_y: u32,
        inner_radius: u32,
        outer_radius: u32,
        start_color: Rgba,
        end_color: Rgba,
    },
    Image { origin_x: u32, origin_y: u32, width: u32, height: u32, angle: u32, alpha: u32, key: B },
}

impl View for Paint<Vec<u8>> {
    type V = Paint<Seq<u8>>;

    open spec fn view(&self) -> Paint<Seq<u8>> {
        match self {
            Paint::Linear { start_x, start_y, end_x, end_y, start_color, end_color } =>
                Paint::Linear {
                start_x: *start_x,
                start_y: *start_y,
                end_x: *end_x,
                end_y: *end_y,
                start_color: *start_color,
                end_color: *end_color,
            },
            Paint::Box { x, y, width, height, radius, feather, start_color, end_color } => Paint::Box {
                x: *x,
                y: *y,
                width: *width,
                height: *height,
                radius: *radius,
                feather: *feather,
                start_color: *start_color,
                end_color: *end_color,
            },
            Paint::Radial { center_x, center_y, inner_radius, outer_radius, start_color, end_color } =>
                Paint::Radial {
                center_x: *center_x,
                center_y: *center_y,
                inner_radius: *inner_radius,
                outer_radius: *outer_radius,
                start_color: *start_color,
                end_color: *end_color,
            },
            Paint::Image { origin_x, origin_y, width, height, angle, alpha, key } => Paint::Image {
                origin_x: *origin_x,
                origin_y: *origin_y,
                width: *width,
                height: *height,
                angle: *angle,
                alpha: *alpha,
                key: key@,
            },
        }
    }
}

/// One call into the vector-graphics backend. `W` holds operand words:
/// `Vec<u32>` in running code, `Seq<u32>` in its view.
#[derive(Debug)]
pub enum DrawOp<B, W> {
    /// The backend primitive of script opcode `op`, with its operand words in
    /// layout order (`f32` bit patterns, or `i32` for the integer operands).
    Call { op: u32, args: W },
    StrokeColor(Rgba),
    FillColor(Rgba),
    StrokePaint(Paint<B>),
    FillPaint(Paint<B>),
    /// Set the line join to this backend constant.
    LineJoin(i32),
    /// Set the winding of the current path to this backend constant.
    PathWinding(i32),
    /// Lay out and draw this text.
    Text(B),
    /// Select the loaded font of this name.
    FontFace(B),
}

impl View for DrawOp<Vec<u8>, Vec<u32>> {
    type V = DrawOp<Seq<u8>, Seq<u32>>;

    open spec fn view(&self) -> DrawOp<Seq<u8>, Seq<u32>> {
        match self {
            DrawOp::Call { op, args } => DrawOp::Call { op: *op, args: args@ },
            DrawOp::StrokeColor(c) => DrawOp::StrokeColor(*c),
            DrawOp::FillColor(c) => DrawOp::FillColor(*c),
            DrawOp::StrokePaint(p) => DrawOp::StrokePaint(p@),
            DrawOp::FillPaint(p) => DrawOp::FillPaint(p@),
            DrawOp::LineJoin(j) => DrawOp::LineJoin(*j),
            DrawOp::PathWinding(w) => DrawOp::PathWinding(*w),
            DrawOp::Text(t) => DrawOp::Text(t@),
            DrawOp::FontFace(f) => DrawOp::FontFace(f@),
        }
    }
}

pub type OpView = DrawOp<Seq<u8>, Seq<u32>>;

/// What the interpreter reads: the scripts, the loaded textures and fonts.
pub struct Env {
    pub scripts: Map<u32, Seq<u8>>,
    pub textures: Set<Seq<u8>>,
    pub fonts: Set<Seq<u8>>,
}

pub open spec fn env_of(w: &WindowData, c: &Context) -> Env {
    Env { scripts: w.script_map(), textures: c.texture_keys(), fonts: c.font_names() }
}

/// Where interpretation goes after one instruction.
pub enum Flow {
    /// On at this byte, with this paint visible to the next instruction.
    Next(int, Option<Paint<Seq<u8>>>),
    /// Run the script of this id, then go on at this byte with no paint.
    Sub(u32, int),
    /// This invocation ends successfully.
    Stop,
    /// This invocation fails.
    Fail(DecodeError),
}

/// One instruction's effect: where to go, and the call and event it makes.
pub struct Step {
    pub flow: Flow,
    pub op: Option<OpView>,
    pub event: Option<Event<Seq<u8>>>,
}

/// The number of operand words of the opcodes that map to one plain backend call.
pub open spec fn call_arity(op: u32) -> Option<nat> {
    if op == OP_PUSH_STATE || op == OP_POP_STATE || op == OP_RESET_STATE || op == OP_RESET_SCISSOR
        || op == OP_PATH_BEGIN || op == OP_PATH_CLOSE || op == OP_FILL || op == OP_STROKE || op
        == OP_TX_RESET {
        Some(0)
    } else if op == OP_ANTI_ALIAS || op == OP_STROKE_WIDTH || op == OP_MITER_LIMIT || op
        == OP_LINE_CAP || op == OP_GLOBAL_ALPHA || op == OP_CIRCLE || op == OP_TX_ROTATE || op
        == OP_TX_SKEW_X || op == OP_TX_SKEW_Y || op == OP_FONT_BLUR || op == OP_FONT_SIZE || op
        == OP_TEXT_ALIGN || op == OP_TEXT_HEIGHT {
        Some(1)
    } else if op == OP_SCISSOR || op == OP_INTERSECT_SCISSOR || op == OP_PATH_MOVE_TO || op
        == OP_PATH_LINE_TO || op == OP_RECT || op == OP_ELLIPSE || op == OP_TX_TRANSLATE || op
        == OP_TX_SCALE {
        Some(2)
    } else if op == OP_ARC || op == OP_ROUND_RECT || op == OP_SECTOR {
        Some(3)
    } else if op == OP_PATH_QUADRATIC_TO {
        Some(4)
    } else if op == OP_PATH_ARC_TO {
        Some(5)
    } else if op == OP_PATH_BEZIER_TO || op == OP_TRIANGLE || op == OP_TX_MATRIX {
        Some(6)
    } else {
        None
    }
}

/// The colour whose four channels are the words at `p`, each cut to a byte.
pub open spec fn rgba_at(e: Endian, s: Seq<u8>, p: int) -> Rgba {
    Rgba {
        r: (word_at(e, s, p) % 256) as u8,
        g: (word_at(e, s, p + 4) % 256) as u8,
        b: (word_at(e, s, p + 8) % 256) as u8,
        a: (word_at(e, s, p + 12) % 256) as u8,
    }
}

/// The backend's line join for a script's join code.
pub open spec fn join_value(code: i32) -> i32 {
    if code == 0 {
        NVG_MITER
    } else if code == 1 {
        NVG_ROUND
    } else if code == 2 {
        NVG_BEVEL
    } else {
        code
    }
}

/// The backend's winding for a script's flag.
pub open spec fn winding_value(w: u32) -> i32 {
    if w != 0 {
        NVG_SOLID
    } else {
        NVG_HOLE
    }
}

pub open spec fn linear_at(e: Endian, s: Seq<u8>, p: int) -> Paint<Seq<u8>> {
    Paint::Linear {
        start_x: word_at(e, s, p),
        start_y: word_at(e, s, p + 4),
        end_x: word_at(e, s, p + 8),
        end_y: word_at(e, s, p + 12),
        start_color: rgba_at(e, s, p + 16),
        end_color: rgba_at(e, s, p + 32),
    }
}

pub open spec fn box_at(e: Endian, s: Seq<u8>, p: int) -> Paint<Seq<u8>> {
    Paint::Box {
        x: word_at(e, s, p),
        y: word_at(e, s, p + 4),
        width: word_at(e, s, p + 8),
        height: word_at(e, s, p + 12),
        radius: word_at(e, s, p + 16),
        feather: word_at(e, s, p + 20),
        start_color: rgba_at(e, s, p + 24),
        end_color: rgba_at(e, s, p + 40),
    }
}

pub open spec fn radial_at(e: Endian, s: Seq<u8>, p: int) -> Paint<Seq<u8>> {
    Paint::Radial {
        center_x: word_at(e, s, p),
        center_y: word_at(e, s, p + 4),
        inner_radius: word_at(e, s, p + 8),
        outer_radius: word_at(e, s, p + 12),
        start_color: rgba_at(e, s, p + 16),
        end_color: rgba_at(e, s, p + 32),
    }
}

pub open spec fn image_at(e: Endian, s: Seq<u8>, p: int, key: Seq<u8>) -> Paint<Seq<u8>> {
    Paint::Image {
        origin_x: word_at(e, s, p),
        origin_y: word_at(e, s, p + 4),
        width: word_at(e, s, p + 8),
        height: word_at(e, s, p + 12),
        angle: word_at(e, s, p + 16),
        alpha: word_at(e, s, p + 20),
        key,
    }
}

/// The log line for an opcode that the interpreter does not know.
pub open spec fn unknown_script_text(op: u32) -> Seq<u8> {
    "!!!Unknown script command: ".spec_bytes() + dec_text(op as nat)
}

pub open spec fn next_step(
    np: int,
    paint: Option<Paint<Seq<u8>>>,
    op: Option<OpView>,
    event: Option<Event<Seq<u8>>>,
) -> Step {
    Step { flow: Flow::Next(np, paint), op, event }
}

pub open spec fn fail_step() -> Step {
    Step { flow: Flow::Fail(DecodeError::UnexpectedEof), op: None, event: None }
}

/// The effect of the instruction at byte `pos` of script `s`, where `paint`
/// is the paint that the previous instruction made.
#[verifier::opaque]
pub open spec fn step_at(
    env: Env,
    e: Endian,
    s: Seq<u8>,
    pos: int,
    paint: Option<Paint<Seq<u8>>>,
) -> Step {
    if pos + 4 > s.len() {
        fail_step()
    } else {
        let op = word_at(e, s, pos);
        let p = pos + 4;
        if op == OP_TERMINATE {
            Step { flow: Flow::Stop, op: None, event: None }
        } else if call_arity(op) is Some {
            let n = call_arity(op)->0;
            if p + 4 * n > s.len() {
                fail_step()
            } else {
                next_step(p + 4 * n, None, Some(DrawOp::Call { op, args: words_at(e, s, p, n) }), None)
            }
        } else if op == OP_ROUND_RECT_VAR || op == OP_TX_IDENTITY {
            next_step(p, None, None, None)
        } else if op == OP_STROKE_COLOR || op == OP_FILL_COLOR {
            if p + 16 > s.len() {
                fail_step()
            } else {
                let c = rgba_at(e, s, p);
                next_step(
                    p + 16,
                    None,
                    Some(
                        if op == OP_STROKE_COLOR {
                            DrawOp::StrokeColor(c)
                        } else {
                            DrawOp::FillColor(c)
                        },
                    ),
                    None,
                )
            }
        } else if op == OP_LINE_JOIN {
            if p + 4 > s.len() {
                fail_step()
            } else {
                next_step(
                    p + 4,
                    None,
                    Some(DrawOp::LineJoin(join_value(word_i32(word_at(e, s, p))))),
                    None,
                )
            }
        } else if op == OP_PATH_WINDING {
            if p + 4 > s.len() {
                fail_step()
            } else {
                next_step(p + 4, None, Some(DrawOp::PathWinding(winding_value(word_at(e, s, p)))), None)
            }
        } else if op == OP_STROKE_PAINT || op == OP_FILL_PAINT {
            let applied = match paint {
                Some(pt) => Some(
                    if op == OP_STROKE_PAINT {
                        DrawOp::StrokePaint(pt)
                    } else {
                        DrawOp::FillPaint(pt)
                    },
                ),
                None => None,
            };
            next_step(p, None, applied, None)
        } else if op == OP_PAINT_LINEAR || op == OP_PAINT_RADIAL {
            if p + 48 > s.len() {
                fail_step()
            } else {
                let pt = if op == OP_PAINT_LINEAR {
                    linear_at(e, s, p)
                } else {
                    radial_at(e, s, p)
                };
                next_step(p + 48, Some(pt), None, None)
            }
        } else if op == OP_PAINT_BOX {
            if p + 56 > s.len() {
                fail_step()
            } else {
                next_step(p + 56, Some(box_at(e, s, p)), None, None)
            }
        } else if op == OP_PAINT_IMAGE {
            if p + 28 > s.len() {
                fail_step()
            } else {
                let n = word_at(e, s, p + 24) as int;
                if string_field(s, p + 28, n) is Err {
                    Step { flow: Flow::Fail(string_field(s, p + 28, n)->Err_0), op: None, event: None }
                } else {
                    let key = string_field(s, p + 28, n)->Ok_0;
                    if env.textures.contains(key) {
                        next_step(p + 28 + n, Some(image_at(e, s, p, key)), None, None)
                    } else {
                        next_step(p + 28 + n, None, None, Some(Event::CacheMiss(key)))
                    }
                }
            }
        } else if op == OP_TEXT || op == OP_FONT {
            if p + 4 > s.len() {
                fail_step()
            } else {
                let n = word_at(e, s, p) as int;
                if p + 4 + n > s.len() {
                    fail_step()
                } else if op == OP_TEXT {
                    next_step(p + 4 + n, None, Some(DrawOp::Text(s.subrange(p + 4, p + 4 + n))), None)
                } else if string_field(s, p + 4, n) is Err {
                    Step { flow: Flow::Fail(string_field(s, p + 4, n)->Err_0), op: None, event: None }
                } else {
                    let name = string_field(s, p + 4, n)->Ok_0;
                    if env.fonts.contains(name) {
                        next_step(p + 4 + n, None, Some(DrawOp::FontFace(name)), None)
                    } else {
                        next_step(p + 4 + n, None, None, Some(Event::FontMiss(name)))
                    }
                }
            }
        } else if op == OP_RUN_SCRIPT {
            if p + 4 > s.len() {
                fail_step()
            } else {
                Step { flow: Flow::Sub(word_at(e, s, p), p + 4), op: None, event: None }
            }
        } else {
            Step { flow: Flow::Stop, op: None, event: Some(Event::Puts(unknown_script_text(op))) }
        }
    }
}

/// An instruction that runs another script makes no call and no event itself.
proof fn lemma_sub_step_silent(
    env: Env,
    e: Endian,
    s: Seq<u8>,
    pos: int,
    paint: Option<Paint<Seq<u8>>>,
)
    ensures
        step_at(env, e, s, pos, paint).flow is Sub ==> step_at(env, e, s, pos, paint).op is None
            && step_at(env, e, s, pos, paint).event is None,
{
    reveal(step_at);
}

/// The calls and events of an invocation, and how it ended.
pub struct Run {
    pub ops: Seq<OpView>,
    pub events: Seq<Event<Seq<u8>>>,
    pub result: Result<(), DecodeError>,
}

pub open spec fn opt_seq<T>(o: Option<T>) -> Seq<T> {
    match o {
        Some(x) => seq![x],
        None => Seq::empty(),
    }
}

/// `a`, then `b` if `a` succeeded.
pub open spec fn chain(a: Run, b: Run) -> Run {
    if a.result is Err {
        a
    } else {
        Run { ops: a.ops + b.ops, events: a.events + b.events, result: b.result }
    }
}

pub open spec fn step_run(st: Step, result: Result<(), DecodeError>) -> Run {
    Run { ops: opt_seq(st.op), events: opt_seq(st.event), result }
}

pub open spec fn empty_run() -> Run {
    Run { ops: Seq::empty(), events: Seq::empty(), result: Ok(()) }
}

/// Every instruction that goes on moves forward and stays inside the script,
/// so the bounds that `run_spec` tests for its termination always hold.
pub proof fn lemma_step_advances(
    env: Env,
    e: Endian,
    s: Seq<u8>,
    pos: int,
    paint: Option<Paint<Seq<u8>>>,
)
    requires
        0 <= pos,
    ensures
        step_at(env, e, s, pos, paint).flow matches Flow::Next(np, _) ==> pos < np <= s.len(),
        step_at(env, e, s, pos, paint).flow matches Flow::Sub(_, np) ==> pos < np <= s.len(),
{
    reveal(step_at);
}

/// Running script `s` from byte `pos` with incoming paint `paint`, where
/// scripts may still run others `depth` levels deep.
pub open spec fn run_spec(
    env: Env,
    e: Endian,
    s: Seq<u8>,
    pos: int,
    paint: Option<Paint<Seq<u8>>>,
    depth: nat,
) -> Run
    decreases depth, s.len() - pos,
{
    let st = step_at(env, e, s, pos, paint);
    match st.flow {
        Flow::Stop => step_run(st, Ok(())),
        Flow::Fail(err) => step_run(st, Err(err)),
        Flow::Next(np, next_paint) => if pos < np <= s.len() {
            chain(step_run(st, Ok(())), run_spec(env, e, s, np, next_paint, depth))
        } else {
            step_run(st, Ok(()))
        },
        Flow::Sub(id, np) => if depth == 0 {
            step_run(st, Err(DecodeError::NestingTooDeep))
        } else if pos < np <= s.len() {
            let sub = if env.scripts.contains_key(id) {
                run_spec(env, e, env.scripts[id], 0, None, (depth - 1) as nat)
            } else {
                empty_run()
            };
            chain(sub, run_spec(env, e, s, np, None, depth))
        } else {
            step_run(st, Ok(()))
        },
    }
}

} // verus!

verus! {

pub open spec fn paint_view(p: Option<Paint<Vec<u8>>>) -> Option<Paint<Seq<u8>>> {
    match p {
        Some(x) => Some(x@),
        None => None,
    }
}

pub open spec fn ops_view(v: Seq<DrawOp<Vec<u8>, Vec<u32>>>) -> Seq<OpView> {
    v.map_values(|o: DrawOp<Vec<u8>, Vec<u32>>| o@)
}

pub open spec fn events_view(v: Seq<Event<Vec<u8>>>) -> Seq<Event<Seq<u8>>> {
    v.map_values(|ev: Event<Vec<u8>>| ev@)
}

enum StepFlow {
    Next(usize, Option<Paint<Vec<u8>>>),
    Sub(u32, usize),
    Stop,
    Fail(DecodeError),
}

struct StepOut {
    flow: StepFlow,
    op: Option<DrawOp<Vec<u8>, Vec<u32>>>,
    event: Option<Event<Vec<u8>>>,
}

spec fn out_matches(o: StepOut, st: Step) -> bool {
    &&& match (o.flow, st.flow) {
        (StepFlow::Next(n, p), Flow::Next(m, q)) => n == m && paint_view(p) == q,
        (StepFlow::Sub(i, n), Flow::Sub(j, m)) => i == j && n == m,
        (StepFlow::Stop, Flow::Stop) => true,
        (StepFlow::Fail(a), Flow::Fail(b)) => a == b,
        _ => false,
    }
    &&& st.op == match o.op {
        Some(x) => Some(x@),
        None => None::<OpView>,
    }
    &&& st.event == match o.event {
        Some(x) => Some(x@),
        None => None::<Event<Seq<u8>>>,
    }
}

fn word(e: Endian, s: &[u8], p: usize) -> (r: u32)
    requires
        p + 4 <= s@.len(),
    ensures
        r == word_at(e, s@, p as int),
{
    match read_word(e, s, p) {
        Ok(w) => w,
        Err(_) => 0,
    }
}

fn read_rgba(e: Endian, s: &[u8], p: usize) -> (r: Rgba)
    requires
        p + 16 <= s@.len(),
    ensures
        r == rgba_at(e, s@, p as int),
{
    let _len = s.len();
    Rgba {
        r: (word(e, s, p) % 256) as u8,
        g: (word(e, s, p + 4) % 256) as u8,
        b: (word(e, s, p + 8) % 256) as u8,
        a: (word(e, s, p + 12) % 256) as u8,
    }
}

fn arity_of(op: u32) -> (r: Option<usize>)
    ensures
        r == (match call_arity(op) {
            Some(n) => Some(n as usize),
            None => None::<usize>,
        }),
{
    if op == OP_PUSH_STATE || op == OP_POP_STATE || op == OP_RESET_STATE || op == OP_RESET_SCISSOR
        || op == OP_PATH_BEGIN || op == OP_PATH_CLOSE || op == OP_FILL || op == OP_STROKE || op
        == OP_TX_RESET {
        Some(0)
    } else if op == OP_ANTI_ALIAS || op == OP_STROKE_WIDTH || op == OP_MITER_LIMIT || op
        == OP_LINE_CAP || op == OP_GLOBAL_ALPHA || op == OP_CIRCLE || op == OP_TX_ROTATE || op
        == OP_TX_SKEW_X || op == OP_TX_SKEW_Y || op == OP_FONT_BLUR || op == OP_FONT_SIZE || op
        == OP_TEXT_ALIGN || op == OP_TEXT_HEIGHT {
        Some(1)
    } else if op == OP_SCISSOR || op == OP_INTERSECT_SCISSOR || op == OP_PATH_MOVE_TO || op
        == OP_PATH_LINE_TO || op == OP_RECT || op == OP_ELLIPSE || op == OP_TX_TRANSLATE || op
        == OP_TX_SCALE {
        Some(2)
    } else if op == OP_ARC || op == OP_ROUND_RECT || op == OP_SECTOR {
        Some(3)
    } else if op == OP_PATH_QUADRATIC_TO {
        Some(4)
    } else if op == OP_PATH_ARC_TO {
        Some(5)
    } else if op == OP_PATH_BEZIER_TO || op == OP_TRIANGLE || op == OP_TX_MATRIX {
        Some(6)
    } else {
        None
    }
}

/// The backend's line join for a script's join code.
pub fn line_join(code: i32) -> (r: i32)
    ensures
        r == join_value(code),
{
    if code == 0 {
        NVG_MITER
    } else if code == 1 {
        NVG_ROUND
    } else if code == 2 {
        NVG_BEVEL
    } else {
        code
    }
}

/// The backend's winding for a script's flag.
pub fn path_winding(w: u32) -> (r: i32)
    ensures
        r == winding_value(w),
{
    if w != 0 {
        NVG_SOLID
    } else {
        NVG_HOLE
    }
}

fn paint_linear(e: Endian, s: &[u8], p: usize) -> (r: Paint<Vec<u8>>)
    requires
        p + 48 <= s@.len(),
    ensures
        r@ == linear_at(e, s@, p as int),
{
    let _len = s.len();
    Paint::Linear {
        start_x: word(e, s, p),
        start_y: word(e, s, p + 4),
        end_x: word(e, s, p + 8),
        end_y: word(e, s, p + 12),
        start_color: read_rgba(e, s, p + 16),
        end_color: read_rgba(e, s, p + 32),
    }
}

fn paint_box(e: Endian, s: &[u8], p: usize) -> (r: Paint<Vec<u8>>)
    requires
        p + 56 <= s@.len(),
    ensures
        r@ == box_at(e, s@, p as int),
{
    let _len = s.len();
    Paint::Box {
        x: word(e, s, p),
        y: word(e, s, p + 4),
        width: word(e, s, p + 8),
        height: word(e, s, p + 12),
        radius: word(e, s, p + 16),
        feather: word(e, s, p + 20),
        start_color: read_rgba(e, s, p + 24),
        end_color: read_rgba(e, s, p + 40),
    }
}

fn paint_radial(e: Endian, s: &[u8], p: usize) -> (r: Paint<Vec<u8>>)
    requires
        p + 48 <= s@.len(),
    ensures
        r@ == radial_at(e, s@, p as int),
{
    let _len = s.len();
    Paint::Radial {
        center_x: word(e, s, p),
        center_y: word(e, s, p + 4),
        inner_radius: word(e, s, p + 8),
        outer_radius: word(e, s, p + 12),
        start_color: read_rgba(e, s, p + 16),
        end_color: read_rgba(e, s, p + 32),
    }
}

fn fail_out() -> (r: StepOut)
    ensures
        out_matches(r, fail_step()),
{
    StepOut { flow: StepFlow::Fail(DecodeError::UnexpectedEof), op: None, event: None }
}

fn next_out(
    np: usize,
    paint: Option<Paint<Vec<u8>>>,
    op: Option<DrawOp<Vec<u8>, Vec<u32>>>,
    event: Option<Event<Vec<u8>>>,
) -> (r: StepOut)
    ensures
        r.flow == StepFlow::Next(np, paint),
        r.op == op,
        r.event == event,
{
    StepOut { flow: StepFlow::Next(np, paint), op, event }
}

/// The instruction at byte `pos`, carried out.
#[verifier::rlimit(60)]
fn step(
    window_data: &WindowData,
    ctx: &Context,
    e: Endian,
    s: &[u8],
    pos: usize,
    paint: Option<Paint<Vec<u8>>>,
) -> (r: StepOut)
    requires
        pos <= s@.len(),
    ensures
        out_matches(r, step_at(env_of(window_data, ctx), e, s@, pos as int, paint_view(paint))),
        r.flow matches StepFlow::Next(np, _) ==> pos < np <= s@.len(),
        r.flow matches StepFlow::Sub(_, np) ==> pos < np <= s@.len(),
{
    reveal(step_at);
    let len = s.len();
    if len - pos < 4 {
        return fail_out();
    }
    let op = word(e, s, pos);
    let p = pos + 4;
    if op == OP_TERMINATE {
        return StepOut { flow: StepFlow::Stop, op: None, event: None };
    }
    match arity_of(op) {
        Some(n) => {
            if len - p < 4 * n {
                return fail_out();
            }
            let args = read_words(e, s, p, n);
            return next_out(p + 4 * n, None, Some(DrawOp::Call { op, args }), None);
        },
        None => {},
    }
    if op == OP_ROUND_RECT_VAR || op == OP_TX_IDENTITY {
        next_out(p, None, None, None)
    } else if op == OP_STROKE_COLOR || op == OP_FILL_COLOR {
        if len - p < 16 {
            return fail_out();
        }
        let c = read_rgba(e, s, p);
        let d = if op == OP_STROKE_COLOR {
            DrawOp::StrokeColor(c)
        } else {
            DrawOp::FillColor(c)
        };
        next_out(p + 16, None, Some(d), None)
    } else if op == OP_LINE_JOIN {
        if len - p < 4 {
            return fail_out();
        }
        let j = line_join(word_to_i32(word(e, s, p)));
        next_out(p + 4, None, Some(DrawOp::LineJoin(j)), None)
    } else if op == OP_PATH_WINDING {
        if len - p < 4 {
            return fail_out();
        }
        let w = path_winding(word(e, s, p));
        next_out(p + 4, None, Some(DrawOp::PathWinding(w)), None)
    } else if op == OP_STROKE_PAINT || op == OP_FILL_PAINT {
        let applied = match paint {
            Some(pt) => Some(
                if op == OP_STROKE_PAINT {
                    DrawOp::StrokePaint(pt)
                } else {
                    DrawOp::FillPaint(pt)
                },
            ),
            None => None,
        };
        next_out(p, None, applied, None)
    } else if op == OP_PAINT_LINEAR || op == OP_PAINT_RADIAL {
        if len - p < 48 {
            return fail_out();
        }
        let pt = if op == OP_PAINT_LINEAR {
            paint_linear(e, s, p)
        } else {
            paint_radial(e, s, p)
        };
        next_out(p + 48, Some(pt), None, None)
    } else if op == OP_PAINT_BOX {
        if len - p < 56 {
            return fail_out();
        }
        next_out(p + 56, Some(paint_box(e, s, p)), None, None)
    } else if op == OP_PAINT_IMAGE {
        if len - p < 28 {
            return fail_out();
        }
        let n = word(e, s, p + 24) as usize;
        if len - p - 28 < n {
            return fail_out();
        }
        let key = match read_string(s, p + 28, n) {
            Ok(k) => k,
            Err(err) => return StepOut { flow: StepFlow::Fail(err), op: None, event: None },
        };
        if ctx.has_texture(key.as_slice()) {
            let pt = Paint::Image {
                origin_x: word(e, s, p),
                origin_y: word(e, s, p + 4),
                width: word(e, s, p + 8),
                height: word(e, s, p + 12),
                angle: word(e, s, p + 16),
                alpha: word(e, s, p + 20),
                key,
            };
            next_out(p + 28 + n, Some(pt), None, None)
        } else {
            next_out(p + 28 + n, None, None, Some(Event::CacheMiss(key)))
        }
    } else if op == OP_TEXT || op == OP_FONT {
        if len - p < 4 {
            return fail_out();
        }
        let n = word(e, s, p) as usize;
        if len - p - 4 < n {
            return fail_out();
        }
        if op == OP_TEXT {
            let b = match read_bytes(s, p + 4, n) {
                Ok(b) => b,
                Err(_) => return fail_out(),
            };
            next_out(p + 4 + n, None, Some(DrawOp::Text(b)), None)
        } else {
            let name = match read_string(s, p + 4, n) {
                Ok(b) => b,
                Err(err) => return StepOut { flow: StepFlow::Fail(err), op: None, event: None },
            };
            if ctx.has_font(name.as_slice()) {
                next_out(p + 4 + n, None, Some(DrawOp::FontFace(name)), None)
            } else {
                next_out(p + 4 + n, None, None, Some(Event::FontMiss(name)))
            }
        }
    } else if op == OP_RUN_SCRIPT {
        if len - p < 4 {
            return fail_out();
        }
        StepOut { flow: StepFlow::Sub(word(e, s, p), p + 4), op: None, event: None }
    } else {
        let mut b: Vec<u8> = Vec::new();
        push_str(&mut b, "!!!Unknown script command: ");
        push_dec(&mut b, op);
        assert(b@ =~= unknown_script_text(op));
        StepOut { flow: StepFlow::Stop, op: None, event: Some(Event::Puts(b)) }
    }
}

} // verus!

verus! {

/// Runs script `s` from its start with incoming paint `paint`, appending the
/// backend calls to `ops` and the events to `events`. Calls made before a
/// failure stay in `ops`.
fn run_script_internal(
    window_data: &WindowData,
    ctx: &Context,
    e: Endian,
    s: &[u8],
    paint: Option<Paint<Vec<u8>>>,
    depth: u32,
    ops: &mut Vec<DrawOp<Vec<u8>, Vec<u32>>>,
    events: &mut Vec<Event<Vec<u8>>>,
) -> (r: Result<(), DecodeError>)
    ensures
        ({
            let run = run_spec(
                env_of(window_data, ctx),
                e,
                s@,
                0,
                paint_view(paint),
                depth as nat,
            );
            &&& ops_view(final(ops)@) == ops_view(old(ops)@) + run.ops
            &&& events_view(final(events)@) == events_view(old(events)@) + run.events
            &&& r == run.result
        }),
    decreases depth,
{
    let ghost env = env_of(window_data, ctx);
    let ghost total = run_spec(env, e, s@, 0, paint_view(paint), depth as nat);
    let ghost ops0 = ops_view(ops@);
    let ghost events0 = events_view(events@);
    let ghost mut done_ops: Seq<OpView> = Seq::empty();
    let ghost mut done_events: Seq<Event<Seq<u8>>> = Seq::empty();
    let mut pos: usize = 0;
    let mut cur = paint;
    assert(ops0 + done_ops =~= ops0);
    assert(events0 + done_events =~= events0);
    loop
        invariant
            pos <= s@.len(),
            env == env_of(window_data, ctx),
            ops0 == ops_view(old(ops)@),
            events0 == events_view(old(events)@),
            total == run_spec(env, e, s@, 0, paint_view(paint), depth as nat),
            ops_view(ops@) == ops0 + done_ops,
            events_view(events@) == events0 + done_events,
            ({
                let rest = run_spec(env, e, s@, pos as int, paint_view(cur), depth as nat);
                total == Run {
                    ops: done_ops + rest.ops,
                    events: done_events + rest.events,
                    result: rest.result,
                }
            }),
        decreases s@.len() - pos,
    {
        let ghost st = step_at(env, e, s@, pos as int, paint_view(cur));
        let ghost here = pos as int;
        let out = step(window_data, ctx, e, s, pos, cur);
        let ghost rest = run_spec(env, e, s@, here, paint_view(cur), depth as nat);
        match out.op {
            Some(o) => {
                let ghost before = ops@;
                ops.push(o);
                assert(ops_view(ops@) =~= ops_view(before).push(o@));
            },
            None => {},
        }
        match out.event {
            Some(ev) => {
                let ghost before = events@;
                events.push(ev);
                assert(events_view(events@) =~= events_view(before).push(ev@));
            },
            None => {},
        }
        proof {
            done_ops = done_ops + opt_seq(st.op);
            done_events = done_events + opt_seq(st.event);
            assert(ops_view(ops@) =~= ops0 + done_ops);
            assert(events_view(events@) =~= events0 + done_events);
        }
        match out.flow {
            StepFlow::Stop => {
                assert(rest == step_run(st, Ok(())));
                assert(total.ops =~= done_ops);
                assert(total.events =~= done_events);
                return Ok(());
            },
            StepFlow::Fail(err) => {
                assert(total.ops =~= done_ops);
                assert(total.events =~= done_events);
                return Err(err);
            },
            StepFlow::Next(np, next_paint) => {
                let ghost later = run_spec(env, e, s@, np as int, paint_view(next_paint), depth as nat);
                assert(rest == chain(step_run(st, Ok(())), later));
                assert(total.ops =~= done_ops + later.ops);
                assert(total.events =~= done_events + later.events);
                pos = np;
                cur = next_paint;
            },
            StepFlow::Sub(id, np) => {
                if depth == 0 {
                    assert(total.ops =~= done_ops);
                    assert(total.events =~= done_events);
                    return Err(DecodeError::NestingTooDeep);
                }
                proof {
                    lemma_sub_step_silent(env, e, s@, here, paint_view(cur));
                }
                let ghost later = run_spec(env, e, s@, np as int, None, depth as nat);
                let ghost sub_run = if env.scripts.contains_key(id) {
                    run_spec(env, e, env.scripts[id], 0, None, (depth - 1) as nat)
                } else {
                    empty_run()
                };
                assert(rest == chain(sub_run, later));
                match window_data.get_script(id) {
                    Some(sub) => {
                        let ghost ops1 = ops_view(ops@);
                        let ghost events1 = events_view(events@);
                        let r = run_script_internal(
                            window_data,
                            ctx,
                            e,
                            sub.as_slice(),
                            None,
                            depth - 1,
                            ops,
                            events,
                        );
                        proof {
                            done_ops = done_ops + sub_run.ops;
                            done_events = done_events + sub_run.events;
                            assert(ops_view(ops@) =~= ops0 + done_ops);
                            assert(events_view(events@) =~= events0 + done_events);
                        }
                        if r.is_err() {
                            assert(rest == sub_run);
                            assert(total.ops =~= done_ops);
                            assert(total.events =~= done_events);
                            return r;
                        }
                    },
                    None => {},
                }
                assert(total.ops =~= done_ops + later.ops);
                assert(total.events =~= done_events + later.events);
                pos = np;
                cur = None;
            },
        }
    }
}

} // verus!

verus! {

/// The log line for a script invocation that failed.
pub open spec fn script_error_text(err: DecodeError) -> Seq<u8> {
    match err {
        DecodeError::UnexpectedEof => "Script aborted: unexpected end of script".spec_bytes(),
        DecodeError::NestingTooDeep => "Script aborted: scripts nested too deeply".spec_bytes(),
        DecodeError::InvalidUtf8 => "Script aborted: a name is not UTF-8".spec_bytes(),
    }
}

/// The backend calls and events of running the script stored under `id`;
/// a failed run ends with one log line that says why.
pub open spec fn script_output(env: Env, e: Endian, id: u32) -> (Seq<OpView>, Seq<Event<Seq<u8>>>) {
    if !env.scripts.contains_key(id) {
        (Seq::empty(), Seq::empty())
    } else {
        let run = run_spec(env, e, env.scripts[id], 0, None, MAX_SCRIPT_DEPTH as nat);
        (
            run.ops,
            run.events + match run.result {
                Err(err) => seq![Event::Puts(script_error_text(err))],
                Ok(_) => Seq::empty(),
            },
        )
    }
}

/// What one render pass draws: the root script, when the root id is positive.
pub open spec fn root_output(env: Env, e: Endian, root: i32) -> (Seq<OpView>, Seq<Event<Seq<u8>>>) {
    if root > 0 {
        script_output(env, e, root as u32)
    } else {
        (Seq::empty(), Seq::empty())
    }
}

fn error_event(err: DecodeError) -> (r: Event<Vec<u8>>)
    ensures
        r@ == Event::<Seq<u8>>::Puts(script_error_text(err)),
{
    let mut b: Vec<u8> = Vec::new();
    match err {
        DecodeError::UnexpectedEof => push_str(&mut b, "Script aborted: unexpected end of script"),
        DecodeError::NestingTooDeep => push_str(&mut b, "Script aborted: scripts nested too deeply"),
        DecodeError::InvalidUtf8 => push_str(&mut b, "Script aborted: a name is not UTF-8"),
    }
    assert(b@ =~= script_error_text(err));
    Event::Puts(b)
}

/// Runs the script stored under `script_id`, with no incoming paint.
pub fn run_scripts(window_data: &WindowData, ctx: &Context, e: Endian, script_id: u32) -> (r: (
    Vec<DrawOp<Vec<u8>, Vec<u32>>>,
    Vec<Event<Vec<u8>>>,
))
    ensures
        ops_view(r.0@) == script_output(env_of(window_data, ctx), e, script_id).0,
        events_view(r.1@) == script_output(env_of(window_data, ctx), e, script_id).1,
{
    let mut ops: Vec<DrawOp<Vec<u8>, Vec<u32>>> = Vec::new();
    let mut events: Vec<Event<Vec<u8>>> = Vec::new();
    assert(ops_view(ops@) =~= Seq::<OpView>::empty());
    assert(events_view(events@) =~= Seq::<Event<Seq<u8>>>::empty());
    match window_data.get_script(script_id) {
        Some(script) => {
            let r = run_script_internal(
                window_data,
                ctx,
                e,
                script.as_slice(),
                None,
                MAX_SCRIPT_DEPTH,
                &mut ops,
                &mut events,
            );
            match r {
                Err(err) => {
                    let ghost before = events@;
                    events.push(error_event(err));
                    assert(events_view(events@) =~= events_view(before).push(
                        Event::Puts(script_error_text(err)),
                    ));
                },
                Ok(_) => {},
            }
            assert(ops_view(ops@) =~= script_output(env_of(window_data, ctx), e, script_id).0);
            assert(events_view(events@) =~= script_output(env_of(window_data, ctx), e, script_id).1);
        },
        None => {},
    }
    (ops, events)
}

/// One render pass: runs the root script when the root id is positive.
pub fn render_root(window_data: &WindowData, ctx: &Context, e: Endian) -> (r: (
    Vec<DrawOp<Vec<u8>, Vec<u32>>>,
    Vec<Event<Vec<u8>>>,
))
    ensures
        ops_view(r.0@) == root_output(env_of(window_data, ctx), e, window_data.root_script).0,
        events_view(r.1@) == root_output(env_of(window_data, ctx), e, window_data.root_script).1,
{
    if window_data.root_script > 0 {
        run_scripts(window_data, ctx, e, window_data.root_script as u32)
    } else {
        let ops: Vec<DrawOp<Vec<u8>, Vec<u32>>> = Vec::new();
        let events: Vec<Event<Vec<u8>>> = Vec::new();
        assert(ops_view(ops@) =~= Seq::<OpView>::empty());
        assert(events_view(events@) =~= Seq::<Event<Seq<u8>>>::empty());
        (ops, events)
    }
}

} // verus!

verus! {

/// Opcodes that define a paint.
pub open spec fn is_paint_definition(op: u32) -> bool {
    op == OP_PAINT_LINEAR || op == OP_PAINT_BOX || op == OP_PAINT_RADIAL || op == OP_PAINT_IMAGE
}

/// Only a paint definition hands a paint on; any other instruction leaves
/// the next one without paint, so a paint lives for one instruction.
pub proof fn lemma_paint_lookahead(
    env: Env,
    e: Endian,
    s: Seq<u8>,
    pos: int,
    paint: Option<Paint<Seq<u8>>>,
)
    ensures
        step_at(env, e, s, pos, paint).flow matches Flow::Next(_, Some(_)) ==> is_paint_definition(
            word_at(e, s, pos),
        ),
{
    reveal(step_at);
}

/// A fill-paint or stroke-paint instruction applies exactly the paint that
/// the previous instruction made, and does nothing when there is none.
pub proof fn lemma_paint_applied(
    env: Env,
    e: Endian,
    s: Seq<u8>,
    pos: int,
    paint: Option<Paint<Seq<u8>>>,
)
    requires
        pos + 4 <= s.len(),
        word_at(e, s, pos) == OP_FILL_PAINT || word_at(e, s, pos) == OP_STROKE_PAINT,
    ensures
        step_at(env, e, s, pos, paint).flow == Flow::Next(pos + 4, None),
        step_at(env, e, s, pos, paint).event is None,
        paint is None ==> step_at(env, e, s, pos, paint).op is None,
        paint is Some && word_at(e, s, pos) == OP_FILL_PAINT ==> step_at(env, e, s, pos, paint).op
            == Some(DrawOp::<Seq<u8>, Seq<u32>>::FillPaint(paint->0)),
        paint is Some && word_at(e, s, pos) == OP_STROKE_PAINT ==> step_at(env, e, s, pos, paint).op
            == Some(DrawOp::<Seq<u8>, Seq<u32>>::StrokePaint(paint->0)),
{
    reveal(step_at);
}

/// A linear paint followed at once by a fill-paint instruction is applied to
/// the fill.
pub proof fn lemma_linear_then_fill_paint(
    env: Env,
    e: Endian,
    s: Seq<u8>,
    pos: int,
    paint: Option<Paint<Seq<u8>>>,
)
    requires
        0 <= pos,
        pos + 56 <= s.len(),
        word_at(e, s, pos) == OP_PAINT_LINEAR,
        word_at(e, s, pos + 52) == OP_FILL_PAINT,
    ensures
        step_at(env, e, s, pos, paint).flow == Flow::Next(pos + 52, Some(linear_at(e, s, pos + 4))),
        step_at(env, e, s, pos + 52, Some(linear_at(e, s, pos + 4))).op == Some(
            DrawOp::<Seq<u8>, Seq<u32>>::FillPaint(linear_at(e, s, pos + 4)),
        ),
{
    reveal(step_at);
}

/// With a fill-colour instruction between a linear paint and a fill-paint
/// instruction, the colour is applied and the paint is not: the fill-paint
/// instruction does nothing.
pub proof fn lemma_linear_color_fill_paint(
    env: Env,
    e: Endian,
    s: Seq<u8>,
    pos: int,
    paint: Option<Paint<Seq<u8>>>,
)
    requires
        0 <= pos,
        pos + 76 <= s.len(),
        word_at(e, s, pos) == OP_PAINT_LINEAR,
        word_at(e, s, pos + 52) == OP_FILL_COLOR,
        word_at(e, s, pos + 72) == OP_FILL_PAINT,
    ensures
        step_at(env, e, s, pos, paint).flow == Flow::Next(pos + 52, Some(linear_at(e, s, pos + 4))),
        step_at(env, e, s, pos + 52, Some(linear_at(e, s, pos + 4))).op == Some(
            DrawOp::<Seq<u8>, Seq<u32>>::FillColor(rgba_at(e, s, pos + 56)),
        ),
        step_at(env, e, s, pos + 52, Some(linear_at(e, s, pos + 4))).flow == Flow::Next(
            pos + 72,
            None,
        ),
        step_at(env, e, s, pos + 72, None).op is None,
{
    reveal(step_at);
}

/// An image paint whose key is not a loaded texture sends one cache-miss
/// event with the key and hands on no paint, so a fill-paint or stroke-paint
/// instruction right after it does nothing.
pub proof fn lemma_cache_miss(
    env: Env,
    e: Endian,
    s: Seq<u8>,
    pos: int,
    paint: Option<Paint<Seq<u8>>>,
)
    requires
        0 <= pos,
        pos + 32 <= s.len(),
        word_at(e, s, pos) == OP_PAINT_IMAGE,
        pos + 32 + word_at(e, s, pos + 28) <= s.len(),
        valid_utf8(trim_nul(s.subrange(pos + 32, pos + 32 + word_at(e, s, pos + 28)))),
        !env.textures.contains(
            trim_nul(s.subrange(pos + 32, pos + 32 + word_at(e, s, pos + 28))),
        ),
    ensures
        ({
            let np = pos + 32 + word_at(e, s, pos + 28);
            let key = trim_nul(s.subrange(pos + 32, np));
            &&& step_at(env, e, s, pos, paint) == next_step(
                np,
                None,
                None,
                Some(Event::CacheMiss(key)),
            )
            &&& np + 4 <= s.len() && (word_at(e, s, np) == OP_FILL_PAINT || word_at(e, s, np)
                == OP_STROKE_PAINT) ==> step_at(env, e, s, np, None).op is None
        }),
{
    reveal(step_at);
}

} // verus!
