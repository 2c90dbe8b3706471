//! Terminal attributes as plain values, and the raw mode derived from them.
//!
//! [`TerminalAttributes`] mirrors the public part of a `termios` structure.
//! Which bit of a flag word means what, and which control-character slot holds
//! the read threshold and the read timeout, differs between platforms, so the
//! derivation takes them from an [`AttributeLayout`].

use vstd::prelude::*;

verus! {

/// Minimum number of bytes a raw-mode read waits for: none, so that a read
/// returns even when no key was pressed.
pub const RAW_MIN_BYTES: u8 = 0;

/// Raw-mode read timeout, in tenths of a second.
pub const RAW_READ_TIMEOUT: u8 = 1;

/// No platform keeps the read threshold or the read timeout in a slot as high
/// as this one: attributes with this many control characters have both slots
/// wherever they come from.
pub const READ_SLOT_LIMIT: usize = 18;

/// A terminal configuration: the four flag words, each thirty-two bits wide,
/// and the control characters.
#[derive(Debug, PartialEq, Eq)]
pub struct TerminalAttributes {
    pub input_flags: u32,
    pub output_flags: u32,
    pub control_flags: u32,
    pub local_flags: u32,
    pub control_chars: Vec<u8>,
}

/// The mathematical value of a [`TerminalAttributes`].
pub struct AttributesModel {
    pub input_flags: u32,
    pub output_flags: u32,
    pub control_flags: u32,
    pub local_flags: u32,
    pub control_chars: Seq<u8>,
}

impl View for TerminalAttributes {
    type V = AttributesModel;

    open spec fn view(&self) -> AttributesModel {
        AttributesModel {
            input_flags: self.input_flags,
            output_flags: self.output_flags,
            control_flags: self.control_flags,
            local_flags: self.local_flags,
            control_chars: self.control_chars@,
        }
    }
}

impl Clone for TerminalAttributes {
    fn clone(&self) -> (copy: Self)
        ensures
            copy@ == self@,
    {
        TerminalAttributes {
            input_flags: self.input_flags,
            output_flags: self.output_flags,
            control_flags: self.control_flags,
            local_flags: self.local_flags,
            control_chars: self.control_chars.clone(),
        }
    }
}

/// Where a platform keeps what raw mode touches: one mask per flag, and the
/// slots of the two control characters that govern a read.
#[derive(Clone, Copy, Debug, PartialEq, Eq, Structural)]
pub struct AttributeLayout {
    /// Input flag: a break condition raises an interrupt signal.
    pub break_interrupt: u32,
    /// Input flag: carriage return is turned into newline.
    pub carriage_return_to_newline: u32,
    /// Input flag: parity checking.
    pub parity_check: u32,
    /// Input flag: the eighth bit of each input byte is stripped.
    pub strip_eighth_bit: u32,
    /// Input flag: software flow control on output.
    pub flow_control: u32,
    /// Output flag: output post-processing.
    pub output_processing: u32,
    /// Control flag: eight bits per character.
    pub eight_bit_chars: u32,
    /// Local flag: typed characters are echoed.
    pub echo: u32,
    /// Local flag: canonical, line-buffered input.
    pub canonical: u32,
    /// Local flag: extended input processing.
    pub extended_input: u32,
    /// Local flag: control keys generate signals.
    pub signals: u32,
    /// Slot of the control character that holds the minimum number of bytes
    /// for a read.
    pub min_slot: usize,
    /// Slot of the control character that holds the read timeout.
    pub timeout_slot: usize,
}

impl AttributeLayout {
    /// The input flags that raw mode switches off.
    pub open spec fn input_mask(self) -> u32 {
        self.break_interrupt | self.carriage_return_to_newline | self.parity_check
            | self.strip_eighth_bit | self.flow_control
    }

    /// The local flags that raw mode switches off.
    pub open spec fn local_mask(self) -> u32 {
        self.echo | self.canonical | self.extended_input | self.signals
    }

    /// Both control-character slots exist in `attributes`.
    pub open spec fn fits(self, attributes: AttributesModel) -> bool {
        &&& self.min_slot < attributes.control_chars.len()
        &&& self.timeout_slot < attributes.control_chars.len()
    }

    /// Decides [`Self::fits`].
    pub fn fits_attributes(&self, attributes: &TerminalAttributes) -> (fits: bool)
        ensures
            fits == self.fits(attributes@),
    {
        self.min_slot < attributes.control_chars.len() && self.timeout_slot
            < attributes.control_chars.len()
    }
}

/// The layout of the platform this crate was built for.
///
/// Trusted: the body copies thirteen constants of the `termios` crate
/// (`BRKINT`, `ICRNL`, `INPCK`, `ISTRIP`, `IXON`, `OPOST`, `CS8`, `ECHO`,
/// `ICANON`, `IEXTEN`, `ISIG`, `VMIN`, `VTIME`) into the fields named after
/// them. Their values differ from platform to platform, so nothing is claimed
/// of the flag bits. Of the two slots it is claimed that they lie below
/// [`READ_SLOT_LIMIT`]: on each platform that `termios` knows, `VMIN` and
/// `VTIME` are 4 and 5, or 6 and 5, or 16 and 17.
#[verifier::external_body]
pub(crate) fn platform_layout() -> (layout: AttributeLayout)
    ensures
        layout.min_slot < READ_SLOT_LIMIT,
        layout.timeout_slot < READ_SLOT_LIMIT,
{
    AttributeLayout {
        break_interrupt: termios::BRKINT,
        carriage_return_to_newline: termios::ICRNL,
        parity_check: termios::INPCK,
        strip_eighth_bit: termios::ISTRIP,
        flow_control: termios::IXON,
        output_processing: termios::OPOST,
        eight_bit_chars: termios::CS8,
        echo: termios::ECHO,
        canonical: termios::ICANON,
        extended_input: termios::IEXTEN,
        signals: termios::ISIG,
        min_slot: termios::VMIN,
        timeout_slot: termios::VTIME,
    }
}

/// Raw mode derived from `saved` on a platform with the given layout.
///
/// Software flow control and the other processing of input, output
/// post-processing, echo, canonical input, signal keys and extended input
/// processing are switched off; characters are eight bits wide; a read waits
/// for no byte and for at most [`RAW_READ_TIMEOUT`] tenths of a second.
/// Every other bit and control character is that of `saved`.
pub open spec fn raw_mode_model(saved: AttributesModel, layout: AttributeLayout) -> AttributesModel {
    AttributesModel {
        input_flags: saved.input_flags & !layout.input_mask(),
        output_flags: saved.output_flags & !layout.output_processing,
        control_flags: saved.control_flags | layout.eight_bit_chars,
        local_flags: saved.local_flags & !layout.local_mask(),
        control_chars: saved.control_chars.update(layout.min_slot as int, RAW_MIN_BYTES).update(
            layout.timeout_slot as int,
            RAW_READ_TIMEOUT,
        ),
    }
}

/// Computes [`raw_mode_model`].
pub(crate) fn raw_mode_attributes(saved: &TerminalAttributes, layout: &AttributeLayout) -> (raw:
    TerminalAttributes)
    requires
        layout.fits(saved@),
    ensures
        raw@ == raw_mode_model(saved@, *layout),
{
    let input_mask: u32 = layout.break_interrupt | layout.carriage_return_to_newline
        | layout.parity_check | layout.strip_eighth_bit | layout.flow_control;
    let local_mask: u32 = layout.echo | layout.canonical | layout.extended_input | layout.signals;
    let mut control_chars = saved.control_chars.clone();
    control_chars[layout.min_slot] = RAW_MIN_BYTES;
    control_chars[layout.timeout_slot] = RAW_READ_TIMEOUT;
    TerminalAttributes {
        input_flags: saved.input_flags & !input_mask,
        output_flags: saved.output_flags & !layout.output_processing,
        control_flags: saved.control_flags | layout.eight_bit_chars,
        local_flags: saved.local_flags & !local_mask,
        control_chars,
    }
}

/// Raw mode has every flag it names switched off, eight-bit characters
/// switched on, and the two read parameters set.
pub proof fn lemma_raw_mode_sets_what_it_names(saved: AttributesModel, layout: AttributeLayout)
    requires
        layout.fits(saved),
    ensures
        ({
            let raw = raw_mode_model(saved, layout);
            &&& raw.input_flags & layout.break_interrupt == 0
            &&& raw.input_flags & layout.carriage_return_to_newline == 0
            &&& raw.input_flags & layout.parity_check == 0
            &&& raw.input_flags & layout.strip_eighth_bit == 0
            &&& raw.input_flags & layout.flow_control == 0
            &&& raw.output_flags & layout.output_processing == 0
            &&& raw.control_flags & layout.eight_bit_chars == layout.eight_bit_chars
            &&& raw.local_flags & layout.echo == 0
            &&& raw.local_flags & layout.canonical == 0
            &&& raw.local_flags & layout.extended_input == 0
            &&& raw.local_flags & layout.signals == 0
            &&& raw.control_chars.len() == saved.control_chars.len()
            &&& raw.control_chars[layout.timeout_slot as int] == RAW_READ_TIMEOUT
            &&& layout.min_slot != layout.timeout_slot ==> raw.control_chars[layout.min_slot as int]
                == RAW_MIN_BYTES
        }),
{
    let i = saved.input_flags;
    let (a, b, c, d, e) = (
        layout.break_interrupt,
        layout.carriage_return_to_newline,
        layout.parity_check,
        layout.strip_eighth_bit,
        layout.flow_control,
    );
    assert({
        let r = i & !(a | b | c | d | e);
        r & a == 0 && r & b == 0 && r & c == 0 && r & d == 0 && r & e == 0
    }) by (bit_vector);
    let o = saved.output_flags;
    let p = layout.output_processing;
    assert((o & !p) & p == 0) by (bit_vector);
    let k = saved.control_flags;
    let w = layout.eight_bit_chars;
    assert((k | w) & w == w) by (bit_vector);
    let l = saved.local_flags;
    let (f, g, h, j) = (layout.echo, layout.canonical, layout.extended_input, layout.signals);
    assert({
        let r = l & !(f | g | h | j);
        r & f == 0 && r & g == 0 && r & h == 0 && r & j == 0
    }) by (bit_vector);
}

/// Raw mode leaves alone every flag bit and every control character that it
/// does not name.
pub proof fn lemma_raw_mode_keeps_the_rest(
    saved: AttributesModel,
    layout: AttributeLayout,
    bits: u32,
    slot: int,
)
    requires
        layout.fits(saved),
    ensures
        ({
            let raw = raw_mode_model(saved, layout);
            &&& bits & layout.input_mask() == 0 ==> raw.input_flags & bits == saved.input_flags
                & bits
            &&& bits & layout.output_processing == 0 ==> raw.output_flags & bits
                == saved.output_flags & bits
            &&& bits & layout.eight_bit_chars == 0 ==> raw.control_flags & bits
                == saved.control_flags & bits
            &&& bits & layout.local_mask() == 0 ==> raw.local_flags & bits == saved.local_flags
                & bits
            &&& 0 <= slot < saved.control_chars.len() && slot != layout.min_slot && slot
                != layout.timeout_slot ==> raw.control_chars[slot] == saved.control_chars[slot]
        }),
{
    let im = layout.input_mask();
    let i = saved.input_flags;
    assert(bits & im == 0 ==> (i & !im) & bits == i & bits) by (bit_vector);
    let o = saved.output_flags;
    let p = layout.output_processing;
    assert(bits & p == 0 ==> (o & !p) & bits == o & bits) by (bit_vector);
    let k = saved.control_flags;
    let w = layout.eight_bit_chars;
    assert(bits & w == 0 ==> (k | w) & bits == k & bits) by (bit_vector);
    let lm = layout.local_mask();
    let l = saved.local_flags;
    assert(bits & lm == 0 ==> (l & !lm) & bits == l & bits) by (bit_vector);
}

/// Deriving raw mode from attributes that are already raw changes nothing.
pub proof fn lemma_raw_mode_is_idempotent(saved: AttributesModel, layout: AttributeLayout)
    requires
        layout.fits(saved),
    ensures
        raw_mode_model(raw_mode_model(saved, layout), layout) == raw_mode_model(saved, layout),
{
    let once = raw_mode_model(saved, layout);
    let twice = raw_mode_model(once, layout);
    let im = layout.input_mask();
    let i = saved.input_flags;
    assert((i & !im) & !im == i & !im) by (bit_vector);
    let o = saved.output_flags;
    let p = layout.output_processing;
    assert((o & !p) & !p == o & !p) by (bit_vector);
    let k = saved.control_flags;
    let w = layout.eight_bit_chars;
    assert((k | w) | w == k | w) by (bit_vector);
    let lm = layout.local_mask();
    let l = saved.local_flags;
    assert((l & !lm) & !lm == l & !lm) by (bit_vector);
    assert(twice.control_chars =~= once.control_chars);
}

} // verus!
