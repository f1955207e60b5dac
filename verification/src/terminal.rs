use vstd::prelude::*;

verus! {

/// The parts of a terminal's settings that raw mode changes: the four flag words and the
/// two read-control characters (minimum byte count and timeout in tenths of a second).
#[derive(Clone, Copy, Debug, PartialEq, Eq, Structural)]
pub struct TerminalModes {
    pub input_flags: u32,
    pub output_flags: u32,
    pub control_flags: u32,
    pub local_flags: u32,
    pub min_bytes: u8,
    pub read_timeout: u8,
}

/// The flag bits that raw mode clears or sets, as the platform defines them.
#[derive(Clone, Copy, Debug, PartialEq, Eq, Structural)]
pub struct ModeFlags {
    /// Local: echo input.
    pub echo: u32,
    /// Local: canonical (line-by-line) input.
    pub icanon: u32,
    /// Local: signals from Ctrl-C and Ctrl-Z.
    pub isig: u32,
    /// Local: Ctrl-V literal input.
    pub iexten: u32,
    /// Input: Ctrl-S / Ctrl-Q flow control.
    pub ixon: u32,
    /// Input: carriage return read as newline.
    pub icrnl: u32,
    /// Input: break condition sends a signal.
    pub brkint: u32,
    /// Input: parity checking.
    pub inpck: u32,
    /// Input: stripping of the eighth bit.
    pub istrip: u32,
    /// Output: output post-processing.
    pub opost: u32,
    /// Control: eight-bit characters.
    pub cs8: u32,
}

/// The settings of raw mode derived from `m`: echo, canonical input, signals, literal
/// input, flow control, CR translation, break signals, parity checks, eighth-bit stripping
/// and output processing are off, characters are eight bits wide, and a read returns
/// after a tenth of a second even when no byte arrived.
pub open spec fn raw_modes(m: TerminalModes, f: ModeFlags) -> TerminalModes {
    TerminalModes {
        input_flags: m.input_flags & !f.ixon & !f.icrnl & !f.brkint & !f.inpck & !f.istrip,
        output_flags: m.output_flags & !f.opost,
        control_flags: m.control_flags | f.cs8,
        local_flags: m.local_flags & !f.echo & !f.icanon & !f.isig & !f.iexten,
        min_bytes: 0,
        read_timeout: 1,
    }
}

/// Turns a terminal's settings into raw-mode settings.
pub fn raw_mode(modes: TerminalModes, flags: &ModeFlags) -> (raw: TerminalModes)
    ensures
        raw == raw_modes(modes, *flags),
{
    let mut t = modes;
    t.local_flags = t.local_flags & !(flags.echo);
    t.local_flags = t.local_flags & !(flags.icanon);
    t.local_flags = t.local_flags & !(flags.isig);
    t.input_flags = t.input_flags & !(flags.ixon);
    t.local_flags = t.local_flags & !(flags.iexten);
    t.input_flags = t.input_flags & !(flags.icrnl);
    t.output_flags = t.output_flags & !(flags.opost);
    t.input_flags = t.input_flags & !(flags.brkint);
    t.input_flags = t.input_flags & !(flags.inpck);
    t.input_flags = t.input_flags & !(flags.istrip);
    t.control_flags = t.control_flags | flags.cs8;
    t.min_bytes = 0;
    t.read_timeout = 1;
    t
}

/// Raw mode is stable: applying it to settings that are already raw changes nothing.
pub proof fn lemma_raw_mode_idempotent(m: TerminalModes, f: ModeFlags)
    ensures
        raw_modes(raw_modes(m, f), f) == raw_modes(m, f),
{
    let r = raw_modes(m, f);
    let (i, ixon, icrnl, brkint, inpck, istrip) = (m.input_flags, f.ixon, f.icrnl, f.brkint, f.inpck, f.istrip);
    assert(i & !ixon & !icrnl & !brkint & !inpck & !istrip & !ixon & !icrnl & !brkint & !inpck
        & !istrip == i & !ixon & !icrnl & !brkint & !inpck & !istrip) by (bit_vector);
    let (o, opost) = (m.output_flags, f.opost);
    assert(o & !opost & !opost == o & !opost) by (bit_vector);
    let (c, cs8) = (m.control_flags, f.cs8);
    assert((c | cs8) | cs8 == c | cs8) by (bit_vector);
    let (l, echo, icanon, isig, iexten) = (m.local_flags, f.echo, f.icanon, f.isig, f.iexten);
    assert(l & !echo & !icanon & !isig & !iexten & !echo & !icanon & !isig & !iexten == l & !echo
        & !icanon & !isig & !iexten) by (bit_vector);
}

/// Raw mode leaves alone every bit that it is not told to change.
pub proof fn lemma_raw_mode_keeps_other_bits(m: TerminalModes, f: ModeFlags, bit: u32)
    requires
        bit & (f.echo | f.icanon | f.isig | f.iexten) == 0,
    ensures
        raw_modes(m, f).local_flags & bit == m.local_flags & bit,
{
    let (l, echo, icanon, isig, iexten) = (m.local_flags, f.echo, f.icanon, f.isig, f.iexten);
    assert(bit & (echo | icanon | isig | iexten) == 0 ==> (l & !echo & !icanon & !isig & !iexten)
        & bit == l & bit) by (bit_vector);
}

} // verus!
