use vstd::prelude::*;

verus! {

/// A key press as the editor understands it. The byte decoder never produces `Enter`
/// (a carriage return decodes as `Ctrl(b'M')`); it stands for a line break requested
/// by the caller.
#[derive(Clone, Copy, Debug, PartialEq, Eq, Structural)]
pub enum EditorKey {
    Char(u8),
    Ctrl(u8),
    Function(u8),
    Escape,
    ArrowUp,
    ArrowLeft,
    ArrowDown,
    ArrowRight,
    PageUp,
    PageDown,
    Home,
    End,
    Insert,
    Delete,
    BackSpace,
    Enter,
    Null,
    Undefined,
}

/// Where the decoder stands inside an escape sequence, waiting for its next byte.
#[derive(Clone, Copy, Debug, PartialEq, Eq, Structural)]
pub enum KeyStage {
    /// An escape byte was read.
    Escape,
    /// `ESC [` was read.
    Csi,
    /// `ESC [` and a byte that opens a function-key code were read.
    FunctionKey,
}

/// The outcome of feeding one byte to the decoder: a finished key, or the stage that
/// needs one more byte.
#[derive(Clone, Copy, Debug, PartialEq, Eq, Structural)]
pub enum KeyStep {
    Done(EditorKey),
    Pending(KeyStage),
}

/// The first byte of a key press.
pub open spec fn first_byte_step(b: u8) -> KeyStep {
    if b == 0x00 {
        KeyStep::Done(EditorKey::Null)
    } else if b == 0x08 {
        KeyStep::Done(EditorKey::BackSpace)
    } else if b == 0x1b {
        KeyStep::Pending(KeyStage::Escape)
    } else if b < 0x20 {
        KeyStep::Done(EditorKey::Ctrl((b + 64) as u8))
    } else if b <= 0x7e {
        KeyStep::Done(EditorKey::Char(b))
    } else if b == 0x7f {
        KeyStep::Done(EditorKey::Delete)
    } else {
        KeyStep::Done(EditorKey::Undefined)
    }
}

/// The byte after an escape byte.
pub open spec fn escape_step(b: u8) -> KeyStep {
    if b == 0x5b {
        KeyStep::Pending(KeyStage::Csi)
    } else {
        KeyStep::Done(EditorKey::Undefined)
    }
}

/// The byte after `ESC [`.
pub open spec fn csi_step(b: u8) -> KeyStep {
    if b == 0x41 {
        KeyStep::Done(EditorKey::ArrowUp)
    } else if b == 0x42 {
        KeyStep::Done(EditorKey::ArrowDown)
    } else if b == 0x43 {
        KeyStep::Done(EditorKey::ArrowRight)
    } else if b == 0x44 {
        KeyStep::Done(EditorKey::ArrowLeft)
    } else if b == 0x48 {
        KeyStep::Done(EditorKey::Home)
    } else if b == 0x46 {
        KeyStep::Done(EditorKey::End)
    } else if b == 0x4f || b == 0x31 || b == 0x32 {
        KeyStep::Pending(KeyStage::FunctionKey)
    } else if b == 0x33 {
        KeyStep::Done(EditorKey::Delete)
    } else if b == 0x35 {
        KeyStep::Done(EditorKey::PageUp)
    } else if b == 0x36 {
        KeyStep::Done(EditorKey::PageDown)
    } else {
        KeyStep::Done(EditorKey::Undefined)
    }
}

/// The function key named by the last byte of a function-key sequence
/// (`P Q R S 5 7 8 9 0 1 3 4` are F1 to F12).
pub open spec fn function_key(b: u8) -> EditorKey {
    if b == 0x50 {
        EditorKey::Function(1)
    } else if b == 0x51 {
        EditorKey::Function(2)
    } else if b == 0x52 {
        EditorKey::Function(3)
    } else if b == 0x53 {
        EditorKey::Function(4)
    } else if b == 0x35 {
        EditorKey::Function(5)
    } else if b == 0x37 {
        EditorKey::Function(6)
    } else if b == 0x38 {
        EditorKey::Function(7)
    } else if b == 0x39 {
        EditorKey::Function(8)
    } else if b == 0x30 {
        EditorKey::Function(9)
    } else if b == 0x31 {
        EditorKey::Function(10)
    } else if b == 0x33 {
        EditorKey::Function(11)
    } else if b == 0x34 {
        EditorKey::Function(12)
    } else {
        EditorKey::Undefined
    }
}

/// One step of the decoder from a given stage.
pub open spec fn stage_step(stage: KeyStage, b: u8) -> KeyStep {
    match stage {
        KeyStage::Escape => escape_step(b),
        KeyStage::Csi => csi_step(b),
        KeyStage::FunctionKey => KeyStep::Done(function_key(b)),
    }
}

/// Decodes the first byte of a key press: control bytes become `Ctrl` of the matching
/// capital letter or symbol, printable ASCII becomes `Char`, an escape byte asks for more.
pub fn parse_input(b: u8) -> (r: KeyStep)
    ensures
        r == first_byte_step(b),
{
    if b == 0x00 {
        KeyStep::Done(EditorKey::Null)
    } else if 0x01 <= b && b <= 0x07 {
        KeyStep::Done(EditorKey::Ctrl(b + 64))
    } else if b == 0x08 {
        KeyStep::Done(EditorKey::BackSpace)
    } else if 0x09 <= b && b <= 0x1a {
        KeyStep::Done(EditorKey::Ctrl(b + 64))
    } else if b == 0x1b {
        KeyStep::Pending(KeyStage::Escape)
    } else if 0x1c <= b && b <= 0x1f {
        KeyStep::Done(EditorKey::Ctrl(b + 64))
    } else if 0x20 <= b && b <= 0x7e {
        KeyStep::Done(EditorKey::Char(b))
    } else if b == 0x7f {
        KeyStep::Done(EditorKey::Delete)
    } else {
        KeyStep::Done(EditorKey::Undefined)
    }
}

/// Decodes the byte that follows an escape byte: only `[` opens a sequence.
pub fn parse_escape_sequence(b: u8) -> (r: KeyStep)
    ensures
        r == escape_step(b),
{
    if b == 0x5b {
        KeyStep::Pending(KeyStage::Csi)
    } else {
        KeyStep::Done(EditorKey::Undefined)
    }
}

/// Decodes the byte that follows `ESC [`.
pub fn parse_csi(b: u8) -> (r: KeyStep)
    ensures
        r == csi_step(b),
{
    if b == 0x41 {
        KeyStep::Done(EditorKey::ArrowUp)
    } else if b == 0x42 {
        KeyStep::Done(EditorKey::ArrowDown)
    } else if b == 0x43 {
        KeyStep::Done(EditorKey::ArrowRight)
    } else if b == 0x44 {
        KeyStep::Done(EditorKey::ArrowLeft)
    } else if b == 0x48 {
        KeyStep::Done(EditorKey::Home)
    } else if b == 0x46 {
        KeyStep::Done(EditorKey::End)
    } else if b == 0x4f || b == 0x31 || b == 0x32 {
        KeyStep::Pending(KeyStage::FunctionKey)
    } else if b == 0x33 {
        KeyStep::Done(EditorKey::Delete)
    } else if b == 0x35 {
        KeyStep::Done(EditorKey::PageUp)
    } else if b == 0x36 {
        KeyStep::Done(EditorKey::PageDown)
    } else {
        KeyStep::Done(EditorKey::Undefined)
    }
}

/// Decodes the last byte of a function-key sequence.
pub fn parse_function_key(b: u8) -> (r: EditorKey)
    ensures
        r == function_key(b),
{
    if b == 0x50 {
        EditorKey::Function(1)
    } else if b == 0x51 {
        EditorKey::Function(2)
    } else if b == 0x52 {
        EditorKey::Function(3)
    } else if b == 0x53 {
        EditorKey::Function(4)
    } else if b == 0x35 {
        EditorKey::Function(5)
    } else if b == 0x37 {
        EditorKey::Function(6)
    } else if b == 0x38 {
        EditorKey::Function(7)
    } else if b == 0x39 {
        EditorKey::Function(8)
    } else if b == 0x30 {
        EditorKey::Function(9)
    } else if b == 0x31 {
        EditorKey::Function(10)
    } else if b == 0x33 {
        EditorKey::Function(11)
    } else if b == 0x34 {
        EditorKey::Function(12)
    } else {
        EditorKey::Undefined
    }
}

/// Feeds the next byte of an escape sequence to the decoder.
pub fn parse_next(stage: KeyStage, b: u8) -> (r: KeyStep)
    ensures
        r == stage_step(stage, b),
{
    match stage {
        KeyStage::Escape => parse_escape_sequence(b),
        KeyStage::Csi => parse_csi(b),
        KeyStage::FunctionKey => KeyStep::Done(parse_function_key(b)),
    }
}

/// The key that a control combination with `c` is taken to be: the character with all
/// but its low five bits cleared.
pub fn ctrl(c: char) -> (k: EditorKey)
    ensures
        k == EditorKey::Char(((c as u32) % 32) as u8),
{
    let v: u32 = c as u32;
    let b: u8 = (v % 256) as u8;
    assert((v % 256) as u8 & 31u8 == (v % 32) as u8) by (bit_vector);
    EditorKey::Char(b & 31)
}

} // verus!
