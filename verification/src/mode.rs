use nix::sys::termios::ControlFlags;
use nix::sys::termios::InputFlags;
use nix::sys::termios::LocalFlags;
use nix::sys::termios::SpecialCharacterIndices;
use vstd::prelude::*;

verus! {

/// Number of control-character slots a terminal mode carries.
pub const CONTROL_SLOTS: usize = 32;

/// A snapshot of a terminal's control block, held as plain values so that it
/// can be stored and re-applied verbatim.
#[derive(Debug, Clone, Copy, PartialEq, Eq)]
pub struct TerminalMode {
    pub input_flags: u64,
    pub output_flags: u64,
    pub control_flags: u64,
    pub local_flags: u64,
    pub line_discipline: u8,
    pub control_chars: [u8; 32],
    pub input_speed: u64,
    pub output_speed: u64,
}

/// Where the host keeps the flags and control slots that raw mode touches:
/// one bit mask per flag, one index per control slot.
#[derive(Debug, Clone, Copy, PartialEq, Eq)]
pub struct ModeLayout {
    /// Input flag: a break condition raises the interrupt signal.
    pub brkint: u64,
    /// Input flag: carriage return is translated to newline.
    pub icrnl: u64,
    /// Input flag: parity checking.
    pub inpck: u64,
    /// Input flag: the eighth bit is stripped.
    pub istrip: u64,
    /// Input flag: software flow control.
    pub ixon: u64,
    /// Control flag: eight-bit characters.
    pub cs8: u64,
    /// Local flag: typed characters are echoed.
    pub echo: u64,
    /// Local flag: canonical, line-buffered input.
    pub icanon: u64,
    /// Local flag: extended input processing.
    pub iexten: u64,
    /// Local flag: control characters generate interrupt and quit signals.
    pub isig: u64,
    /// Control slot: minimum number of bytes per read.
    pub vmin: usize,
    /// Control slot: read timeout.
    pub vtime: usize,
}

impl ModeLayout {
    /// The input flags that raw mode always clears.
    pub open spec fn input_cleared(&self) -> u64 {
        self.brkint | self.icrnl | self.inpck | self.istrip | self.ixon
    }

    /// The local flags that raw mode clears; signal generation is among them
    /// only when signals are not allowed.
    pub open spec fn local_cleared(&self, allow_signals: bool) -> u64 {
        if allow_signals {
            self.echo | self.icanon | self.iexten
        } else {
            self.echo | self.icanon | self.iexten | self.isig
        }
    }

    /// Both control slots lie inside the control-character array.
    pub open spec fn slots_exist(&self) -> bool {
        self.vmin < CONTROL_SLOTS && self.vtime < CONTROL_SLOTS
    }

    /// A layout is well formed when both control slots exist and differ, and
    /// the signal flag shares no bit with the local flags that are always
    /// cleared.
    pub open spec fn wf(&self) -> bool {
        &&& self.slots_exist()
        &&& self.vmin != self.vtime
        &&& self.isig & (self.echo | self.icanon | self.iexten) == 0
    }

    /// Every flag but extended input processing has at least one bit. (A
    /// host may lack extended input processing and give it no bit.)
    pub open spec fn populated(&self) -> bool {
        &&& self.brkint != 0
        &&& self.icrnl != 0
        &&& self.inpck != 0
        &&& self.istrip != 0
        &&& self.ixon != 0
        &&& self.cs8 != 0
        &&& self.echo != 0
        &&& self.icanon != 0
        &&& self.isig != 0
    }

    /// Decides whether both control slots exist.
    pub fn has_slots(&self) -> (ok: bool)
        ensures
            ok == self.slots_exist(),
    {
        self.vmin < CONTROL_SLOTS && self.vtime < CONTROL_SLOTS
    }

    /// Decides well-formedness of a layout.
    pub fn is_well_formed(&self) -> (ok: bool)
        ensures
            ok == self.wf(),
    {
        self.vmin < CONTROL_SLOTS && self.vtime < CONTROL_SLOTS && self.vmin != self.vtime
            && self.isig & (self.echo | self.icanon | self.iexten) == 0
    }
}

/// `raw` is the raw mode derived from `base`: the listed input and local
/// flags cleared, eight-bit characters forced, single-byte blocking reads
/// configured, and everything else carried over untouched.
pub open spec fn is_raw_of(
    raw: TerminalMode,
    base: TerminalMode,
    layout: ModeLayout,
    allow_signals: bool,
) -> bool {
    &&& raw.input_flags == base.input_flags & !layout.input_cleared()
    &&& raw.output_flags == base.output_flags
    &&& raw.control_flags == base.control_flags | layout.cs8
    &&& raw.local_flags == base.local_flags & !layout.local_cleared(allow_signals)
    &&& raw.line_discipline == base.line_discipline
    &&& raw.control_chars@ == base.control_chars@.update(layout.vmin as int, 1u8).update(
        layout.vtime as int,
        0u8,
    )
    &&& raw.input_speed == base.input_speed
    &&& raw.output_speed == base.output_speed
}

/// The bit masks and slot indices of the host, as `nix::sys::termios` names
/// them (`InputFlags`, `ControlFlags`, `LocalFlags`, `SpecialCharacterIndices`).
/// Trusted: the two slot indices are distinct and below the slot count, the
/// signal flag is a bit apart from echo, canonical and extended input, and
/// every flag but extended input processing has a bit.
#[verifier::external_body]
fn host_layout() -> (layout: ModeLayout)
    ensures
        layout.wf(),
        layout.populated(),
{
    ModeLayout {
        brkint: InputFlags::BRKINT.bits() as u64,
        icrnl: InputFlags::ICRNL.bits() as u64,
        inpck: InputFlags::INPCK.bits() as u64,
        istrip: InputFlags::ISTRIP.bits() as u64,
        ixon: InputFlags::IXON.bits() as u64,
        cs8: ControlFlags::CS8.bits() as u64,
        echo: LocalFlags::ECHO.bits() as u64,
        icanon: LocalFlags::ICANON.bits() as u64,
        iexten: LocalFlags::IEXTEN.bits() as u64,
        isig: LocalFlags::ISIG.bits() as u64,
        vmin: SpecialCharacterIndices::VMIN as usize,
        vtime: SpecialCharacterIndices::VTIME as usize,
    }
}

impl ModeLayout {
    /// The layout of the host this process runs on.
    pub fn host() -> (layout: ModeLayout)
        ensures
            layout.wf(),
            layout.populated(),
    {
        host_layout()
    }
}

/// Derives the raw mode from `base` under a given layout. The layout only
/// has to name control slots that exist; what holds of the signal flag and
/// of the two slots under a well-formed layout is stated besides.
pub fn raw_mode_with(base: TerminalMode, layout: &ModeLayout, allow_signals: bool) -> (raw:
    TerminalMode)
    requires
        layout.slots_exist(),
    ensures
        is_raw_of(raw, base, *layout, allow_signals),
        allow_signals && layout.wf() ==> raw.local_flags & layout.isig == base.local_flags
            & layout.isig,
        !allow_signals ==> raw.local_flags & layout.isig == 0,
        layout.vmin != layout.vtime ==> raw.control_chars[layout.vmin as int] == 1,
        raw.control_chars[layout.vtime as int] == 0,
{
    let mut raw = base;
    raw.input_flags = raw.input_flags & !(layout.brkint | layout.icrnl | layout.inpck
        | layout.istrip | layout.ixon);
    raw.control_flags = raw.control_flags | layout.cs8;
    raw.local_flags = raw.local_flags & !(layout.echo | layout.icanon | layout.iexten);
    if !allow_signals {
        raw.local_flags = raw.local_flags & !layout.isig;
    }
    let mut chars = raw.control_chars;
    chars[layout.vmin] = 1;
    chars[layout.vtime] = 0;
    raw.control_chars = chars;
    proof {
        let b = base.local_flags;
        let e = layout.echo;
        let c = layout.icanon;
        let x = layout.iexten;
        let s = layout.isig;
        assert((b & !(e | c | x)) & !s == b & !(e | c | x | s)) by (bit_vector);
        lemma_signal_flag(base, raw, *layout, allow_signals);
    }
    raw
}

/// Derives the raw mode from `base` under the host's layout.
pub fn raw_mode(base: TerminalMode, allow_signals: bool) -> (raw: TerminalMode)
    ensures
        exists|layout: ModeLayout|
            layout.wf() && layout.populated() && #[trigger] is_raw_of(
                raw,
                base,
                layout,
                allow_signals,
            ),
{
    let layout = host_layout();
    raw_mode_with(base, &layout, allow_signals)
}

/// The raw mode of a base is unique: two modes derived from one base under
/// one layout are equal in every field and every control slot.
pub proof fn lemma_raw_mode_unique(
    first: TerminalMode,
    second: TerminalMode,
    base: TerminalMode,
    layout: ModeLayout,
    allow_signals: bool,
)
    requires
        is_raw_of(first, base, layout, allow_signals),
        is_raw_of(second, base, layout, allow_signals),
    ensures
        first == second,
{
    assert(first.control_chars@ == second.control_chars@);
    assert(first.control_chars =~= second.control_chars);
}

/// With signals allowed and the signal flag apart from the flags that are
/// always cleared, a raw mode keeps the base's signal-generation flag as it
/// was; with signals not allowed the flag is off.
pub proof fn lemma_signal_flag(
    base: TerminalMode,
    raw: TerminalMode,
    layout: ModeLayout,
    allow_signals: bool,
)
    requires
        is_raw_of(raw, base, layout, allow_signals),
    ensures
        allow_signals && layout.wf() ==> raw.local_flags & layout.isig == base.local_flags
            & layout.isig,
        !allow_signals ==> raw.local_flags & layout.isig == 0,
{
    let b = base.local_flags;
    let r = raw.local_flags;
    let e = layout.echo;
    let c = layout.icanon;
    let x = layout.iexten;
    let s = layout.isig;
    if allow_signals {
        if layout.wf() {
            assert(r & s == b & s) by (bit_vector)
                requires
                    r == b & !(e | c | x),
                    s & (e | c | x) == 0,
            ;
        }
    } else {
        assert(r & s == 0) by (bit_vector)
            requires
                r == b & !(e | c | x | s),
        ;
    }
}

} // verus!
