//! The command dispatcher: one inbound frame in, the new state, whether a
//! redraw is due, and the actions for the window and the backend out.

use crate::commands::{
    decode_command, fixed_words, is_bare_command, is_pair_command, parse_command, Command,
    CMD_FREE_TX_ID, CMD_RENDER_GRAPH,
};
use crate::events::Event;
use crate::script::{root_output, script_output, Env, OpView};
use crate::text::{hex_text, push_hex, push_str};
use crate::types::{Context, WindowData};
use crate::wire::{word_at, DecodeError, Endian};
use vstd::prelude::*;
use vstd::slice::{slice_subrange, slice_to_vec};
use vstd::string::StringSliceAdditionalSpecFns;

verus! {

/// Work that the dispatcher hands to the window system and the backend, in
/// order. `B` holds byte strings as in `Event`.
#[derive(Debug)]
pub enum Action<B> {
    /// Send this event.
    Emit(Event<B>),
    /// Wake a blocked wait for window events.
    Wake,
    /// Set the backend's clear colour; components are 0 to 255.
    SetClearColor { r: u32, g: u32, b: u32, a: u32 },
    /// Read the window's geometry and flags and send them with these input flags.
    ReportStats { input_flags: u32 },
    SetSize { width: i32, height: i32 },
    SetPos { x: i32, y: i32 },
    Iconify,
    Restore,
    Show,
    Hide,
    /// Load the font file at `path` under `name`.
    LoadFontFile { name: B, path: B },
    /// Load the font held in `data` under `name`.
    LoadFontBlob { name: B, data: B },
    /// Decode the image in `data` and keep it under `name`, replacing any.
    LoadTexture { name: B, data: B },
    /// Drop the image kept under `name`.
    FreeTexture { name: B },
    /// Terminate the process with this status.
    Exit { code: i32 },
    /// Drain the backend's error queue, sending each error with this text.
    DrainErrors { context: B },
}

impl View for Action<Vec<u8>> {
    type V = Action<Seq<u8>>;

    open spec fn view(&self) -> Action<Seq<u8>> {
        match self {
            Action::Emit(ev) => Action::Emit(ev@),
            Action::Wake => Action::Wake,
            Action::SetClearColor { r, g, b, a } => Action::SetClearColor { r: *r, g: *g, b: *b, a: *a },
            Action::ReportStats { input_flags } => Action::ReportStats { input_flags: *input_flags },
            Action::SetSize { width, height } => Action::SetSize { width: *width, height: *height },
            Action::SetPos { x, y } => Action::SetPos { x: *x, y: *y },
            Action::Iconify => Action::Iconify,
            Action::Restore => Action::Restore,
            Action::Show => Action::Show,
            Action::Hide => Action::Hide,
            Action::LoadFontFile { name, path } => Action::LoadFontFile { name: name@, path: path@ },
            Action::LoadFontBlob { name, data } => Action::LoadFontBlob { name: name@, data: data@ },
            Action::LoadTexture { name, data } => Action::LoadTexture { name: name@, data: data@ },
            Action::FreeTexture { name } => Action::FreeTexture { name: name@ },
            Action::Exit { code } => Action::Exit { code: *code },
            Action::DrainErrors { context } => Action::DrainErrors { context: context@ },
        }
    }
}

/// What the dispatcher reads and changes.
pub struct Store {
    pub keep_going: bool,
    pub input_flags: u32,
    pub root_script: i32,
    pub scripts: Map<u32, Seq<u8>>,
    pub textures: Set<Seq<u8>>,
    pub fonts: Set<Seq<u8>>,
}

/// The result of handling one frame.
pub struct Outcome {
    pub store: Store,
    pub redraw: bool,
    pub actions: Seq<Action<Seq<u8>>>,
}

pub open spec fn store_of(w: &WindowData, c: &Context) -> Store {
    Store {
        keep_going: w.keep_going,
        input_flags: w.input_flags,
        root_script: w.root_script,
        scripts: w.script_map(),
        textures: c.texture_keys(),
        fonts: c.font_names(),
    }
}

/// The log line for an opcode that no handler takes.
pub open spec fn unknown_message_text(op: u32) -> Seq<u8> {
    "Unknown message: 0x".spec_bytes() + hex_text(op as nat)
}

/// The log line sent before a requested crash.
pub open spec fn crash_text() -> Seq<u8> {
    "receive_crash - exit".spec_bytes()
}

/// The log line for a frame whose fields run past its end.
pub open spec fn malformed_text() -> Seq<u8> {
    "Malformed message".spec_bytes()
}

/// The exit status of a requested crash.
pub const CRASH_EXIT_CODE: i32 = 1;

pub open spec fn outcome(store: Store, redraw: bool, actions: Seq<Action<Seq<u8>>>) -> Outcome {
    Outcome { store, redraw, actions }
}

/// The effect of one decoded command.
pub open spec fn apply_command(st: Store, c: Command<Seq<u8>>) -> Outcome {
    match c {
        Command::Quit => outcome(Store { keep_going: false, ..st }, false, seq![Action::Wake]),
        Command::RenderScript { id, script } => outcome(
            Store { scripts: st.scripts.insert(id, script), ..st },
            true,
            seq![Action::Emit(Event::DrawReady(id)), Action::Wake],
        ),
        Command::ClearScript { id } => outcome(
            Store { scripts: st.scripts.remove(id), ..st },
            true,
            seq![],
        ),
        Command::SetRoot { id } => outcome(
            Store { root_script: id, ..st },
            true,
            seq![Action::Wake],
        ),
        Command::ClearColor { r, g, b, a } => outcome(
            st,
            true,
            seq![Action::SetClearColor { r, g, b, a }],
        ),
        Command::Input { flags } => outcome(Store { input_flags: flags, ..st }, false, seq![]),
        Command::QueryStats => outcome(
            st,
            false,
            seq![Action::ReportStats { input_flags: st.input_flags }],
        ),
        Command::Reshape { width, height } => outcome(
            st,
            false,
            seq![Action::SetSize { width, height }],
        ),
        Command::Position { x, y } => outcome(st, false, seq![Action::SetPos { x, y }]),
        Command::Iconify => outcome(st, false, seq![Action::Iconify]),
        Command::Restore => outcome(st, false, seq![Action::Restore]),
        Command::Show => outcome(st, false, seq![Action::Show]),
        Command::Hide => outcome(st, false, seq![Action::Hide]),
        Command::LoadFontFile { name, path } => if st.fonts.contains(name) {
            outcome(st, true, seq![])
        } else {
            outcome(
                Store { fonts: st.fonts.insert(name), ..st },
                true,
                seq![Action::LoadFontFile { name, path }],
            )
        },
        Command::LoadFontBlob { name, data } => if st.fonts.contains(name) {
            outcome(st, true, seq![])
        } else {
            outcome(
                Store { fonts: st.fonts.insert(name), ..st },
                true,
                seq![Action::LoadFontBlob { name, data }],
            )
        },
        Command::PutTxBlob { name, data } => outcome(
            Store { textures: st.textures.insert(name), ..st },
            true,
            seq![Action::LoadTexture { name, data }],
        ),
        Command::FreeTx { name } => if st.textures.contains(name) {
            outcome(
                Store { textures: st.textures.remove(name), ..st },
                false,
                seq![Action::FreeTexture { name }],
            )
        } else {
            outcome(st, false, seq![])
        },
        Command::Crash => outcome(
            st,
            false,
            seq![Action::Emit(Event::Puts(crash_text())), Action::Exit { code: CRASH_EXIT_CODE }],
        ),
        Command::Unknown { op } => outcome(
            st,
            false,
            seq![Action::Emit(Event::Puts(unknown_message_text(op)))],
        ),
    }
}

/// The effect of one inbound frame `msg`. A frame whose fields run past
/// its end changes nothing and is reported in one log line; bytes left
/// after a command's fields go to the backend's error drain.
pub open spec fn dispatch_spec(st: Store, e: Endian, msg: Seq<u8>) -> Outcome {
    match parse_command(e, msg) {
        Err(_) => outcome(st, false, seq![Action::Emit(Event::Puts(malformed_text()))]),
        Ok((c, end)) => {
            let o = apply_command(st, c);
            if c is Quit || end >= msg.len() {
                o
            } else {
                outcome(
                    o.store,
                    o.redraw,
                    o.actions.push(Action::DrainErrors { context: msg.subrange(end, msg.len() as int) }),
                )
            }
        },
    }
}

fn text_event(s: &str) -> (r: Event<Vec<u8>>)
    ensures
        r@ == Event::<Seq<u8>>::Puts(s.spec_bytes()),
{
    let mut b: Vec<u8> = Vec::new();
    push_str(&mut b, s);
    assert(b@ =~= s.spec_bytes());
    Event::Puts(b)
}

/// Carries out one decoded command on the state.
pub fn apply(window_data: &mut WindowData, ctx: &mut Context, c: Command<Vec<u8>>) -> (r: (
    bool,
    Vec<Action<Vec<u8>>>,
))
    requires
        old(ctx).wf(),
    ensures
        final(ctx).wf(),
        store_of(final(window_data), final(ctx)) == apply_command(
            store_of(old(window_data), old(ctx)),
            c@,
        ).store,
        r.0 == apply_command(store_of(old(window_data), old(ctx)), c@).redraw,
        r.1@.map_values(|a: Action<Vec<u8>>| a@) == apply_command(
            store_of(old(window_data), old(ctx)),
            c@,
        ).actions,
        final(window_data).window_size == old(window_data).window_size,
        final(window_data).frame_size == old(window_data).frame_size,
        final(window_data).redraw == old(window_data).redraw,
{
    let ghost st = store_of(window_data, ctx);
    let ghost cv = c@;
    let (redraw, actions): (bool, Vec<Action<Vec<u8>>>) = match c {
        Command::Quit => {
            window_data.keep_going = false;
            (false, vec![Action::Wake])
        },
        Command::RenderScript { id, script } => {
            window_data.put_script(id, script);
            (true, vec![Action::Emit(Event::DrawReady(id)), Action::Wake])
        },
        Command::ClearScript { id } => {
            window_data.delete_script(id);
            (true, Vec::new())
        },
        Command::SetRoot { id } => {
            window_data.root_script = id;
            (true, vec![Action::Wake])
        },
        Command::ClearColor { r, g, b, a } => (true, vec![Action::SetClearColor { r, g, b, a }]),
        Command::Input { flags } => {
            window_data.input_flags = flags;
            (false, Vec::new())
        },
        Command::QueryStats => (
            false,
            vec![Action::ReportStats { input_flags: window_data.input_flags }],
        ),
        Command::Reshape { width, height } => (false, vec![Action::SetSize { width, height }]),
        Command::Position { x, y } => (false, vec![Action::SetPos { x, y }]),
        Command::Iconify => (false, vec![Action::Iconify]),
        Command::Restore => (false, vec![Action::Restore]),
        Command::Show => (false, vec![Action::Show]),
        Command::Hide => (false, vec![Action::Hide]),
        Command::LoadFontFile { name, path } => {
            if ctx.has_font(name.as_slice()) {
                (true, Vec::new())
            } else {
                let key = slice_to_vec(name.as_slice());
                ctx.put_font(key);
                (true, vec![Action::LoadFontFile { name, path }])
            }
        },
        Command::LoadFontBlob { name, data } => {
            if ctx.has_font(name.as_slice()) {
                (true, Vec::new())
            } else {
                let key = slice_to_vec(name.as_slice());
                ctx.put_font(key);
                (true, vec![Action::LoadFontBlob { name, data }])
            }
        },
        Command::PutTxBlob { name, data } => {
            let key = slice_to_vec(name.as_slice());
            ctx.put_tx(key);
            (true, vec![Action::LoadTexture { name, data }])
        },
        Command::FreeTx { name } => {
            if ctx.free_tx(name.as_slice()) {
                (false, vec![Action::FreeTexture { name }])
            } else {
                (false, Vec::new())
            }
        },
        Command::Crash => (
            false,
            vec![Action::Emit(text_event("receive_crash - exit")), Action::Exit { code: CRASH_EXIT_CODE }],
        ),
        Command::Unknown { op } => {
            let mut b: Vec<u8> = Vec::new();
            push_str(&mut b, "Unknown message: 0x");
            push_hex(&mut b, op);
            assert(b@ =~= unknown_message_text(op));
            (false, vec![Action::Emit(Event::Puts(b))])
        },
    };
    assert(actions@.map_values(|a: Action<Vec<u8>>| a@) =~= apply_command(st, cv).actions);
    let ghost want = apply_command(st, cv).store;
    assert(window_data.script_map() =~= want.scripts);
    assert(ctx.texture_keys() =~= want.textures);
    assert(ctx.font_names() =~= want.fonts);
    (redraw, actions)
}

/// Handles one inbound frame: decodes its command, carries it out, and
/// hands any bytes left after the command's fields to the error drain.
pub fn dispatch_message(
    window_data: &mut WindowData,
    ctx: &mut Context,
    e: Endian,
    msg: &[u8],
) -> (r: (bool, Vec<Action<Vec<u8>>>))
    requires
        old(ctx).wf(),
    ensures
        final(ctx).wf(),
        store_of(final(window_data), final(ctx)) == dispatch_spec(
            store_of(old(window_data), old(ctx)),
            e,
            msg@,
        ).store,
        r.0 == dispatch_spec(store_of(old(window_data), old(ctx)), e, msg@).redraw,
        r.1@.map_values(|a: Action<Vec<u8>>| a@) == dispatch_spec(
            store_of(old(window_data), old(ctx)),
            e,
            msg@,
        ).actions,
        final(window_data).window_size == old(window_data).window_size,
        final(window_data).frame_size == old(window_data).frame_size,
        final(window_data).redraw == old(window_data).redraw,
{
    match decode_command(e, msg) {
        Err(_) => (false, vec![Action::Emit(text_event("Malformed message"))]),
        Ok((c, end)) => {
            let is_quit = match c {
                Command::Quit => true,
                _ => false,
            };
            let (redraw, mut actions) = apply(window_data, ctx, c);
            if !is_quit && end < msg.len() {
                let rest = slice_to_vec(slice_subrange(msg, end, msg.len()));
                let ghost before = actions@;
                actions.push(Action::DrainErrors { context: rest });
                assert(actions@.map_values(|a: Action<Vec<u8>>| a@) =~= before.map_values(
                    |a: Action<Vec<u8>>| a@,
                ).push(Action::DrainErrors { context: msg@.subrange(end as int, msg@.len() as int) }));
            }
            (redraw, actions)
        },
    }
}

} // verus!

verus! {

/// The opcodes that the dispatcher has a handler for.
pub open spec fn known_command(op: u32) -> bool {
    is_bare_command(op) || op == CMD_RENDER_GRAPH || fixed_words(op) is Some || is_pair_command(op)
        || op == CMD_FREE_TX_ID
}

/// What the interpreter sees of a store.
pub open spec fn env_of_store(st: Store) -> Env {
    Env { scripts: st.scripts, textures: st.textures, fonts: st.fonts }
}

/// Freeing a texture a second time changes nothing, asks nothing of the
/// backend and reports no error: the key is simply absent already.
pub proof fn lemma_free_texture_idempotent(st: Store, e: Endian, msg: Seq<u8>, name: Seq<u8>)
    requires
        parse_command(e, msg) == Ok::<(Command<Seq<u8>>, int), DecodeError>(
            (Command::FreeTx { name }, msg.len() as int),
        ),
    ensures
        ({
            let first = dispatch_spec(st, e, msg);
            let second = dispatch_spec(first.store, e, msg);
            &&& !first.store.textures.contains(name)
            &&& second.store == first.store
            &&& second.actions == Seq::<Action<Seq<u8>>>::empty()
            &&& !second.redraw
        }),
{
}

/// Setting a root id that is not positive leaves nothing to draw: the next
/// render pass makes no backend call.
pub proof fn lemma_nonpositive_root_draws_nothing(st: Store, e: Endian, msg: Seq<u8>, id: i32)
    requires
        parse_command(e, msg) == Ok::<(Command<Seq<u8>>, int), DecodeError>(
            (Command::SetRoot { id }, msg.len() as int),
        ),
        id <= 0,
    ensures
        ({
            let after = dispatch_spec(st, e, msg).store;
            &&& after.root_script == id
            &&& root_output(env_of_store(after), e, after.root_script).0 == Seq::<OpView>::empty()
            &&& root_output(env_of_store(after), e, after.root_script).1 == Seq::<
                Event<Seq<u8>>,
            >::empty()
        }),
{
}

/// Storing a script and then clearing its id leaves no script under that
/// id: running it afterwards draws nothing.
pub proof fn lemma_render_then_clear(
    st: Store,
    e: Endian,
    store_msg: Seq<u8>,
    clear_msg: Seq<u8>,
    id: u32,
    script: Seq<u8>,
)
    requires
        parse_command(e, store_msg) == Ok::<(Command<Seq<u8>>, int), DecodeError>(
            (Command::RenderScript { id, script }, store_msg.len() as int),
        ),
        parse_command(e, clear_msg) == Ok::<(Command<Seq<u8>>, int), DecodeError>(
            (Command::ClearScript { id }, clear_msg.len() as int),
        ),
    ensures
        ({
            let stored = dispatch_spec(st, e, store_msg).store;
            let cleared = dispatch_spec(stored, e, clear_msg).store;
            &&& stored.scripts.contains_key(id)
            &&& stored.scripts[id] == script
            &&& !cleared.scripts.contains_key(id)
            &&& script_output(env_of_store(cleared), e, id).0 == Seq::<OpView>::empty()
            &&& script_output(env_of_store(cleared), e, id).1 == Seq::<Event<Seq<u8>>>::empty()
        }),
{
}

/// A frame with an opcode that no handler takes changes nothing, asks for
/// no redraw, and yields exactly one log line, which names the opcode in
/// hexadecimal; any bytes after the opcode go to the error drain.
pub proof fn lemma_unknown_command(st: Store, e: Endian, msg: Seq<u8>)
    requires
        msg.len() >= 4,
        !known_command(word_at(e, msg, 0)),
    ensures
        ({
            let o = dispatch_spec(st, e, msg);
            let op = word_at(e, msg, 0);
            &&& o.store == st
            &&& !o.redraw
            &&& o.actions[0] == Action::Emit(Event::Puts(unknown_message_text(op)))
            &&& unknown_message_text(op) == "Unknown message: 0x".spec_bytes() + hex_text(op as nat)
            &&& msg.len() == 4 ==> o.actions.len() == 1
            &&& msg.len() > 4 ==> o.actions == seq![
                Action::Emit(Event::Puts(unknown_message_text(op))),
                Action::DrainErrors { context: msg.subrange(4, msg.len() as int) },
            ]
        }),
{
    let o = dispatch_spec(st, e, msg);
    if msg.len() > 4 {
        assert(o.actions =~= seq![
            Action::Emit(Event::Puts(unknown_message_text(word_at(e, msg, 0)))),
            Action::DrainErrors { context: msg.subrange(4, msg.len() as int) },
        ]);
    }
}

} // verus!
