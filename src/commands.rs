//! Inbound commands: the opcode space and the layout of each command's
//! fields after its opcode.

use crate::text::{read_bytes, read_string, string_field};
use crate::wire::{read_word, word_at, word_i32, word_to_i32, DecodeError, Endian};
use vstd::prelude::*;

verus! {

pub const CMD_RENDER_GRAPH: u32 = 0x01;
pub const CMD_CLEAR_GRAPH: u32 = 0x02;
pub const CMD_SET_ROOT: u32 = 0x03;
pub const CMD_CLEAR_COLOR: u32 = 0x05;
pub const CMD_INPUT: u32 = 0x0A;
pub const CMD_QUIT: u32 = 0x20;
pub const CMD_QUERY_STATS: u32 = 0x21;
pub const CMD_RESHAPE: u32 = 0x22;
pub const CMD_POSITION: u32 = 0x23;
pub const CMD_ICONIFY: u32 = 0x25;
pub const CMD_RESTORE: u32 = 0x27;
pub const CMD_SHOW: u32 = 0x28;
pub const CMD_HIDE: u32 = 0x29;
pub const CMD_FREE_TX_ID: u32 = 0x33;
pub const CMD_PUT_TX_BLOB: u32 = 0x34;
pub const CMD_LOAD_FONT_FILE: u32 = 0x37;
pub const CMD_LOAD_FONT_BLOB: u32 = 0x38;
pub const CMD_CRASH: u32 = 0xFE;

/// A decoded inbound frame. `B` holds byte strings: `Vec<u8>` in running
/// code, `Seq<u8>` in its view. Names and paths are UTF-8 without NUL padding.
#[derive(Debug)]
#[allow(inconsistent_fields)]
pub enum Command<B> {
    Quit,
    RenderScript { id: u32, script: B },
    ClearScript { id: u32 },
    SetRoot { id: i32 },
    ClearColor { r: u32, g: u32, b: u32, a: u32 },
    Input { flags: u32 },
    QueryStats,
    Reshape { width: i32, height: i32 },
    Position { x: i32, y: i32 },
    Iconify,
    Restore,
    Show,
    Hide,
    LoadFontFile { name: B, path: B },
    LoadFontBlob { name: B, data: B },
    PutTxBlob { name: B, data: B },
    FreeTx { name: B },
    Crash,
    Unknown { op: u32 },
}

impl View for Command<Vec<u8>> {
    type V = Command<Seq<u8>>;

    open spec fn view(&self) -> Command<Seq<u8>> {
        match self {
            Command::Quit => Command::Quit,
            Command::RenderScript { id, script } => Command::RenderScript { id: *id, script: script@ },
            Command::ClearScript { id } => Command::ClearScript { id: *id },
            Command::SetRoot { id } => Command::SetRoot { id: *id },
            Command::ClearColor { r, g, b, a } => Command::ClearColor { r: *r, g: *g, b: *b, a: *a },
            Command::Input { flags } => Command::Input { flags: *flags },
            Command::QueryStats => Command::QueryStats,
            Command::Reshape { width, height } => Command::Reshape { width: *width, height: *height },
            Command::Position { x, y } => Command::Position { x: *x, y: *y },
            Command::Iconify => Command::Iconify,
            Command::Restore => Command::Restore,
            Command::Show => Command::Show,
            Command::Hide => Command::Hide,
            Command::LoadFontFile { name, path } => Command::LoadFontFile { name: name@, path: path@ },
            Command::LoadFontBlob { name, data } => Command::LoadFontBlob { name: name@, data: data@ },
            Command::PutTxBlob { name, data } => Command::PutTxBlob { name: name@, data: data@ },
            Command::FreeTx { name } => Command::FreeTx { name: name@ },
            Command::Crash => Command::Crash,
            Command::Unknown { op } => Command::Unknown { op: *op },
        }
    }
}

/// Commands whose frame holds the opcode alone.
pub open spec fn is_bare_command(op: u32) -> bool {
    op == CMD_QUIT || op == CMD_QUERY_STATS || op == CMD_ICONIFY || op == CMD_RESTORE || op
        == CMD_SHOW || op == CMD_HIDE || op == CMD_CRASH
}

/// Commands whose frame holds two lengths, then a name and a second string.
pub open spec fn is_pair_command(op: u32) -> bool {
    op == CMD_LOAD_FONT_FILE || op == CMD_LOAD_FONT_BLOB || op == CMD_PUT_TX_BLOB
}

/// Commands whose frame holds a fixed number of words after the opcode.
pub open spec fn fixed_words(op: u32) -> Option<nat> {
    if op == CMD_CLEAR_GRAPH || op == CMD_SET_ROOT || op == CMD_INPUT {
        Some(1)
    } else if op == CMD_RESHAPE || op == CMD_POSITION {
        Some(2)
    } else if op == CMD_CLEAR_COLOR {
        Some(4)
    } else {
        None
    }
}

/// The command and the number of bytes it takes, from the start of `s`.
pub open spec fn parse_command(e: Endian, s: Seq<u8>) -> Result<
    (Command<Seq<u8>>, int),
    DecodeError,
> {
    if s.len() < 4 {
        Err(DecodeError::UnexpectedEof)
    } else {
        let op = word_at(e, s, 0);
        if is_bare_command(op) {
            let c = if op == CMD_QUIT {
                Command::Quit
            } else if op == CMD_QUERY_STATS {
                Command::QueryStats
            } else if op == CMD_ICONIFY {
                Command::Iconify
            } else if op == CMD_RESTORE {
                Command::Restore
            } else if op == CMD_SHOW {
                Command::Show
            } else if op == CMD_HIDE {
                Command::Hide
            } else {
                Command::Crash
            };
            Ok((c, 4))
        } else if op == CMD_RENDER_GRAPH {
            if s.len() < 8 {
                Err(DecodeError::UnexpectedEof)
            } else {
                Ok(
                    (
                        Command::RenderScript {
                            id: word_at(e, s, 4),
                            script: s.subrange(8, s.len() as int),
                        },
                        s.len() as int,
                    ),
                )
            }
        } else if fixed_words(op) is Some {
            let n = fixed_words(op)->0;
            if s.len() < 4 + 4 * n {
                Err(DecodeError::UnexpectedEof)
            } else {
                let w1 = word_at(e, s, 4);
                let c = if op == CMD_CLEAR_GRAPH {
                    Command::ClearScript { id: w1 }
                } else if op == CMD_SET_ROOT {
                    Command::SetRoot { id: word_i32(w1) }
                } else if op == CMD_INPUT {
                    Command::Input { flags: w1 }
                } else if op == CMD_RESHAPE {
                    Command::Reshape { width: word_i32(w1), height: word_i32(word_at(e, s, 8)) }
                } else if op == CMD_POSITION {
                    Command::Position { x: word_i32(w1), y: word_i32(word_at(e, s, 8)) }
                } else {
                    Command::ClearColor {
                        r: w1,
                        g: word_at(e, s, 8),
                        b: word_at(e, s, 12),
                        a: word_at(e, s, 16),
                    }
                };
                Ok((c, 4 + 4 * n as int))
            }
        } else if is_pair_command(op) {
            if s.len() < 12 {
                Err(DecodeError::UnexpectedEof)
            } else {
                let n1 = word_at(e, s, 4) as int;
                let n2 = word_at(e, s, 8) as int;
                if s.len() < 12 + n1 + n2 {
                    Err(DecodeError::UnexpectedEof)
                } else if string_field(s, 12, n1) is Err {
                    Err(string_field(s, 12, n1)->Err_0)
                } else if op == CMD_LOAD_FONT_FILE && string_field(s, 12 + n1, n2) is Err {
                    Err(string_field(s, 12 + n1, n2)->Err_0)
                } else {
                    let name = string_field(s, 12, n1)->Ok_0;
                    let second = s.subrange(12 + n1, 12 + n1 + n2);
                    let c = if op == CMD_LOAD_FONT_FILE {
                        Command::LoadFontFile { name, path: string_field(s, 12 + n1, n2)->Ok_0 }
                    } else if op == CMD_LOAD_FONT_BLOB {
                        Command::LoadFontBlob { name, data: second }
                    } else {
                        Command::PutTxBlob { name, data: second }
                    };
                    Ok((c, 12 + n1 + n2))
                }
            }
        } else if op == CMD_FREE_TX_ID {
            if s.len() < 8 {
                Err(DecodeError::UnexpectedEof)
            } else {
                let n = word_at(e, s, 4) as int;
                match string_field(s, 8, n) {
                    Err(err) => Err(err),
                    Ok(name) => Ok((Command::FreeTx { name }, 8 + n)),
                }
            }
        } else {
            Ok((Command::Unknown { op }, 4))
        }
    }
}

/// Decodes the command at the start of `s`, with the number of bytes it takes.
pub fn decode_command(e: Endian, s: &[u8]) -> (r: Result<(Command<Vec<u8>>, usize), DecodeError>)
    ensures
        match r {
            Ok((c, n)) => parse_command(e, s@) == Ok::<(Command<Seq<u8>>, int), DecodeError>(
                (c@, n as int),
            ),
            Err(err) => parse_command(e, s@) == Err::<(Command<Seq<u8>>, int), DecodeError>(err),
        },
{
    let op = read_word(e, s, 0)?;
    if op == CMD_QUIT || op == CMD_QUERY_STATS || op == CMD_ICONIFY || op == CMD_RESTORE || op
        == CMD_SHOW || op == CMD_HIDE || op == CMD_CRASH {
        let c = if op == CMD_QUIT {
            Command::Quit
        } else if op == CMD_QUERY_STATS {
            Command::QueryStats
        } else if op == CMD_ICONIFY {
            Command::Iconify
        } else if op == CMD_RESTORE {
            Command::Restore
        } else if op == CMD_SHOW {
            Command::Show
        } else if op == CMD_HIDE {
            Command::Hide
        } else {
            Command::Crash
        };
        Ok((c, 4))
    } else if op == CMD_RENDER_GRAPH {
        let id = read_word(e, s, 4)?;
        let script = read_bytes(s, 8, s.len() - 8)?;
        Ok((Command::RenderScript { id, script }, s.len()))
    } else if op == CMD_CLEAR_GRAPH || op == CMD_SET_ROOT || op == CMD_INPUT {
        let w1 = read_word(e, s, 4)?;
        let c = if op == CMD_CLEAR_GRAPH {
            Command::ClearScript { id: w1 }
        } else if op == CMD_SET_ROOT {
            Command::SetRoot { id: word_to_i32(w1) }
        } else {
            Command::Input { flags: w1 }
        };
        Ok((c, 8))
    } else if op == CMD_RESHAPE || op == CMD_POSITION {
        if s.len() < 12 {
            return Err(DecodeError::UnexpectedEof);
        }
        let w1 = read_word(e, s, 4)?;
        let w2 = read_word(e, s, 8)?;
        let c = if op == CMD_RESHAPE {
            Command::Reshape { width: word_to_i32(w1), height: word_to_i32(w2) }
        } else {
            Command::Position { x: word_to_i32(w1), y: word_to_i32(w2) }
        };
        Ok((c, 12))
    } else if op == CMD_CLEAR_COLOR {
        if s.len() < 20 {
            return Err(DecodeError::UnexpectedEof);
        }
        let r = read_word(e, s, 4)?;
        let g = read_word(e, s, 8)?;
        let b = read_word(e, s, 12)?;
        let a = read_word(e, s, 16)?;
        Ok((Command::ClearColor { r, g, b, a }, 20))
    } else if op == CMD_LOAD_FONT_FILE || op == CMD_LOAD_FONT_BLOB || op == CMD_PUT_TX_BLOB {
        if s.len() < 12 {
            return Err(DecodeError::UnexpectedEof);
        }
        let n1 = read_word(e, s, 4)? as usize;
        let n2 = read_word(e, s, 8)? as usize;
        if s.len() - 12 < n1 || s.len() - 12 - n1 < n2 {
            return Err(DecodeError::UnexpectedEof);
        }
        let name = read_string(s, 12, n1)?;
        let c = if op == CMD_LOAD_FONT_FILE {
            let path = read_string(s, 12 + n1, n2)?;
            Command::LoadFontFile { name, path }
        } else if op == CMD_LOAD_FONT_BLOB {
            let data = read_bytes(s, 12 + n1, n2)?;
            Command::LoadFontBlob { name, data }
        } else {
            let data = read_bytes(s, 12 + n1, n2)?;
            Command::PutTxBlob { name, data }
        };
        Ok((c, 12 + n1 + n2))
    } else if op == CMD_FREE_TX_ID {
        let n = read_word(e, s, 4)? as usize;
        if s.len() - 8 < n {
            return Err(DecodeError::UnexpectedEof);
        }
        let name = read_string(s, 8, n)?;
        Ok((Command::FreeTx { name }, 8 + n))
    } else {
        Ok((Command::Unknown { op }, 4))
    }
}

} // verus!
