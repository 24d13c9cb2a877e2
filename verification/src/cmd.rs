//! The command model: validated actions, transition effects, and the exact
//! wire encoding of a command line.

use vstd::prelude::*;

verus! {

/// Nanoseconds per millisecond; durations cross this API as whole
/// nanosecond counts, the finest grain the device protocol cares about.
pub const NANOS_PER_MILLI: u128 = 1_000_000;

/// The smallest duration a smooth transition may have, in nanoseconds
/// (30 milliseconds): shorter requests are raised to this floor.
pub const SMOOTH_FLOOR_NANOS: u128 = 30_000_000;

/// The lowest color temperature the device supports, in kelvins.
pub const CT_MIN_KELVIN: u16 = 1700;

/// The highest color temperature the device supports, in kelvins.
pub const CT_MAX_KELVIN: u16 = 6500;

/// The change a command asks of the lamp, as contracts see it.
pub enum ActionView {
    /// Set the color temperature to this many kelvins.
    SetCtAbx { kelvin: u16 },
    /// Set the color to this 24-bit packed RGB value
    /// (red in bits 16–23, green in bits 8–15, blue in bits 0–7).
    SetRgb { rgb: u32 },
}

/// The change done by a command, with its data.
///
/// A newtype over a private enum: values exist only through the checked
/// constructors, so an out-of-range color temperature or a packed color
/// wider than 24 bits can never be carried.
#[derive(Clone, Copy, Debug, PartialEq, Eq, Structural)]
pub struct Action(InnerAction);

#[derive(Clone, Copy, Debug, PartialEq, Eq, Structural)]
enum InnerAction {
    SetCtAbx(u16),
    SetRgb(u32),
}

impl View for Action {
    type V = ActionView;

    closed spec fn view(&self) -> ActionView {
        match self.0 {
            InnerAction::SetCtAbx(kelvin) => ActionView::SetCtAbx { kelvin },
            InnerAction::SetRgb(rgb) => ActionView::SetRgb { rgb },
        }
    }
}

/// The 24-bit packed form of three 8-bit channels: red, then green, then
/// blue, most significant first.
pub open spec fn pack_rgb(r: u8, g: u8, b: u8) -> u32 {
    ((r as u32) << 16) | ((g as u32) << 8) | (b as u32)
}

impl Action {
    /// A color-temperature change. Rejects a temperature outside the
    /// device-supported range `[1700, 6500]` kelvins.
    pub fn new_ct(ct: u16) -> (r: Option<Action>)
        ensures
            r is Some <==> CT_MIN_KELVIN <= ct <= CT_MAX_KELVIN,
            r matches Some(a) ==> a@ == (ActionView::SetCtAbx { kelvin: ct }),
    {
        if ct < CT_MIN_KELVIN || ct > CT_MAX_KELVIN {
            None
        } else {
            Some(Action(InnerAction::SetCtAbx(ct)))
        }
    }

    /// A color change from a packed integer. Never fails: bits above the
    /// low 24 are silently discarded, unlike the strict kelvin path.
    pub fn new_rgb_from_int(rgb: u32) -> (r: Option<Action>)
        ensures
            r matches Some(a) && a@ == (ActionView::SetRgb { rgb: rgb & 0xFFFFFF }),
    {
        if rgb > 0xFFFFFF {
            Some(Action(InnerAction::SetRgb(rgb & 0x00FFFFFF)))
        } else {
            proof {
                assert(rgb & 0xFFFFFF == rgb) by (bit_vector)
                    requires rgb <= 0xFFFFFF;
            }
            Some(Action(InnerAction::SetRgb(rgb)))
        }
    }

    /// A color change from the three channel values. Always in range by
    /// construction: the packed value's top byte is zero.
    pub fn new_rgb_from_parts(r: u8, g: u8, b: u8) -> (res: Option<Action>)
        ensures
            res matches Some(a) && a@ == (ActionView::SetRgb { rgb: pack_rgb(r, g, b) }),
    {
        let rgb: u32 = ((r as u32) << 16) | ((g as u32) << 8) | (b as u32);
        Some(Action(InnerAction::SetRgb(rgb)))
    }
}

/// The duration of a smooth transition, held in nanoseconds.
///
/// A newtype so that the 30 ms floor is enforced at construction: a value
/// below the floor can never exist.
#[derive(Clone, Copy, Debug, PartialEq, Eq, Structural)]
pub struct SmoothDuration(u128);

impl View for SmoothDuration {
    type V = u128;

    closed spec fn view(&self) -> u128 {
        self.0
    }
}

/// A raw duration raised to the smooth-transition floor.
pub open spec fn clamp_nanos(nanos: u128) -> u128 {
    if nanos < SMOOTH_FLOOR_NANOS {
        SMOOTH_FLOOR_NANOS
    } else {
        nanos
    }
}

impl SmoothDuration {
    #[verifier::type_invariant]
    closed spec fn wf(self) -> bool {
        self.0 >= SMOOTH_FLOOR_NANOS
    }

    /// Build from a raw duration in nanoseconds; anything whose whole
    /// milliseconds fall short of 30 is raised to exactly 30 ms, never
    /// rejected.
    pub fn from_nanos(nanos: u128) -> (d: SmoothDuration)
        ensures
            d@ == clamp_nanos(nanos),
    {
        if nanos < SMOOTH_FLOOR_NANOS {
            SmoothDuration(SMOOTH_FLOOR_NANOS)
        } else {
            SmoothDuration(nanos)
        }
    }

    /// The whole milliseconds of this duration: the number written on the
    /// wire. Never below 30, whatever the value was built from: that is
    /// the type's invariant speaking.
    pub fn as_millis(&self) -> (ms: u128)
        ensures
            ms == self@ / NANOS_PER_MILLI,
            ms >= 30,
    {
        proof {
            use_type_invariant(*self);
        }
        self.0 / NANOS_PER_MILLI
    }

    /// The raw duration in nanoseconds. Never below the 30 ms floor,
    /// whatever the value was built from: that is the type's invariant
    /// speaking.
    pub fn as_nanos(&self) -> (n: u128)
        ensures
            n == self@,
            n >= SMOOTH_FLOOR_NANOS,
    {
        proof {
            use_type_invariant(*self);
        }
        self.0
    }
}

/// The transition between the lamp's current and new state, as contracts
/// see it: either sudden, or smooth over this many nanoseconds.
pub enum EffectView {
    Sudden,
    Smooth { nanos: u128 },
}

/// The transition between the lamp's current and new state.
#[derive(Clone, Copy, Debug, PartialEq, Eq, Structural)]
pub enum Effect {
    /// Change to the new state immediately.
    Sudden,
    /// Fade into the new state over a [`SmoothDuration`].
    Smooth(SmoothDuration),
}

impl View for Effect {
    type V = EffectView;

    open spec fn view(&self) -> EffectView {
        match *self {
            Effect::Sudden => EffectView::Sudden,
            Effect::Smooth(d) => EffectView::Smooth { nanos: d@ },
        }
    }
}

/// The conversion rule from a raw duration in nanoseconds: a zero duration
/// means a sudden transition; any non-zero one means a smooth transition
/// with the 30 ms floor applied.
pub open spec fn effect_of_nanos(nanos: u128) -> EffectView {
    if nanos == 0 {
        EffectView::Sudden
    } else {
        EffectView::Smooth { nanos: clamp_nanos(nanos) }
    }
}

impl Effect {
    /// An instantaneous transition.
    pub fn sudden() -> (e: Effect)
        ensures
            e == Effect::Sudden,
    {
        Effect::Sudden
    }

    /// A fading transition over the given duration in nanoseconds, raised
    /// to the 30 ms floor. Unlike [`Effect::from_nanos`], even a zero
    /// duration yields a smooth transition (of exactly 30 ms).
    pub fn smooth(nanos: u128) -> (e: Effect)
        ensures
            e@ == (EffectView::Smooth { nanos: clamp_nanos(nanos) }),
    {
        Effect::Smooth(SmoothDuration::from_nanos(nanos))
    }

    /// Conversion from a raw duration in nanoseconds, following
    /// [`effect_of_nanos`]: zero is sudden, anything else smooth with the
    /// floor applied.
    pub fn from_nanos(nanos: u128) -> (e: Effect)
        ensures
            e@ == effect_of_nanos(nanos),
    {
        if nanos == 0 {
            Effect::Sudden
        } else {
            Effect::Smooth(SmoothDuration::from_nanos(nanos))
        }
    }
}

/// Law: the two color construction paths agree. Packing three channels
/// always yields a value within 24 bits, so the mask that the
/// packed-integer path applies changes nothing: for every channel triple,
/// building from the parts equals building from their packed combination.
pub proof fn lemma_rgb_paths_agree(r: u8, g: u8, b: u8)
    ensures
        pack_rgb(r, g, b) <= 0xFFFFFF,
        pack_rgb(r, g, b) & 0xFFFFFF == pack_rgb(r, g, b),
{
    assert((((r as u32) << 16) | ((g as u32) << 8) | (b as u32)) <= 0xFFFFFF)
        by (bit_vector);
    assert(((((r as u32) << 16) | ((g as u32) << 8) | (b as u32)) & 0xFFFFFF)
        == (((r as u32) << 16) | ((g as u32) << 8) | (b as u32))) by (bit_vector);
}

/// The unit of work sent to a device: what to change, how to transition,
/// and a caller-assigned id to correlate the device's reply.
#[derive(Clone, Copy, Debug)]
pub struct Command {
    /// The change done by the command, with its data.
    pub action: Action,
    /// The transition (sudden or smooth) accompanying the change.
    pub eff: Effect,
    /// An integer used to distinguish between requests.
    pub id: u8,
}

/// A command as contracts see it.
pub struct CommandView {
    pub action: ActionView,
    pub eff: EffectView,
    pub id: u8,
}

impl View for Command {
    type V = CommandView;

    open spec fn view(&self) -> CommandView {
        CommandView { action: self.action@, eff: self.eff@, id: self.id }
    }
}

/// One decimal digit as a character.
pub open spec fn digit_char(d: nat) -> char {
    if d == 0 {
        '0'
    } else if d == 1 {
        '1'
    } else if d == 2 {
        '2'
    } else if d == 3 {
        '3'
    } else if d == 4 {
        '4'
    } else if d == 5 {
        '5'
    } else if d == 6 {
        '6'
    } else if d == 7 {
        '7'
    } else if d == 8 {
        '8'
    } else {
        '9'
    }
}

/// The decimal numeral of `n`: most significant digit first, no sign, no
/// padding, and a single `0` for zero.
pub open spec fn dec_digits(n: nat) -> Seq<char>
    decreases n,
{
    if n < 10 {
        seq![digit_char(n)]
    } else {
        dec_digits(n / 10).push(digit_char(n % 10))
    }
}

/// The protocol name of the method that performs the action.
pub open spec fn method_name(a: ActionView) -> Seq<char> {
    match a {
        ActionView::SetCtAbx { .. } => "set_ct_abx"@,
        ActionView::SetRgb { .. } => "set_rgb"@,
    }
}

/// The leading parameter of the action: the kelvin value, or the full
/// 24-bit packed color as one decimal number.
pub open spec fn action_param(a: ActionView) -> nat {
    match a {
        ActionView::SetCtAbx { kelvin } => kelvin as nat,
        ActionView::SetRgb { rgb } => rgb as nat,
    }
}

/// The trailing effect parameters, with the comma that separates them
/// from the action's: the literal `"sudden"`, or `"smooth"` followed by
/// the duration in whole milliseconds.
pub open spec fn effect_params(e: EffectView) -> Seq<char> {
    match e {
        EffectView::Sudden => ",\"sudden\""@,
        EffectView::Smooth { nanos } => ",\"smooth\","@ + dec_digits((nanos / NANOS_PER_MILLI) as nat),
    }
}

/// The exact wire line for a command, terminator excluded.
pub open spec fn request_line(c: CommandView) -> Seq<char> {
    "{\"id\":"@ + dec_digits(c.id as nat) + ",\"method\":\""@ + method_name(c.action)
        + "\",\"params\":["@ + dec_digits(action_param(c.action)) + effect_params(c.eff) + "]}"@
}

/// The line terminator the protocol requires after each request.
pub open spec fn crlf() -> Seq<char> {
    "\r\n"@
}

/// The single-character string for one decimal digit.
fn digit_str(d: u128) -> (s: &'static str)
    requires
        d < 10,
    ensures
        s@ == seq![digit_char(d as nat)],
{
    proof {
        reveal_strlit("0");
        reveal_strlit("1");
        reveal_strlit("2");
        reveal_strlit("3");
        reveal_strlit("4");
        reveal_strlit("5");
        reveal_strlit("6");
        reveal_strlit("7");
        reveal_strlit("8");
        reveal_strlit("9");
    }
    let s: &'static str = if d == 0 {
        "0"
    } else if d == 1 {
        "1"
    } else if d == 2 {
        "2"
    } else if d == 3 {
        "3"
    } else if d == 4 {
        "4"
    } else if d == 5 {
        "5"
    } else if d == 6 {
        "6"
    } else if d == 7 {
        "7"
    } else if d == 8 {
        "8"
    } else {
        "9"
    };
    proof {
        assert(s@ =~= seq![digit_char(d as nat)]);
    }
    s
}

/// Appends the decimal numeral of `n` to `out`.
fn append_decimal(out: &mut String, n: u128)
    ensures
        final(out)@ == old(out)@ + dec_digits(n as nat),
    decreases n,
{
    if n >= 10 {
        append_decimal(out, n / 10);
    }
    let d = digit_str(n % 10);
    out.append(d);
    proof {
        if n < 10 {
            assert(final(out)@ =~= old(out)@ + dec_digits(n as nat));
        } else {
            assert((n / 10) as nat == (n as nat) / 10);
            assert((n % 10) as nat == (n as nat) % 10);
            assert(final(out)@ =~= old(out)@ + dec_digits(n as nat));
        }
    }
}

impl Command {
    /// The exact wire line that performs this command, as
    /// [`request_line`] spells it out; the `\r\n` terminator is not
    /// included. Pure and total: it cannot fail for any command.
    pub fn to_request(&self) -> (r: String)
        ensures
            r@ == request_line(self@),
    {
        let mut line = String::new();
        line.append("{\"id\":");
        append_decimal(&mut line, self.id as u128);
        line.append(",\"method\":\"");
        match self.action.0 {
            InnerAction::SetCtAbx(ct) => {
                line.append("set_ct_abx");
                line.append("\",\"params\":[");
                append_decimal(&mut line, ct as u128);
            },
            InnerAction::SetRgb(rgb) => {
                line.append("set_rgb");
                line.append("\",\"params\":[");
                append_decimal(&mut line, rgb as u128);
            },
        }
        match self.eff {
            Effect::Sudden => {
                line.append(",\"sudden\"");
            },
            Effect::Smooth(d) => {
                line.append(",\"smooth\",");
                append_decimal(&mut line, d.as_millis());
            },
        }
        line.append("]}");
        proof {
            assert(line@ =~= request_line(self@));
        }
        line
    }

    /// The wire line with the `\r\n` terminator appended: exactly the
    /// bytes written to the stream for this command.
    pub fn to_wire_line(&self) -> (r: String)
        ensures
            r@ == request_line(self@) + crlf(),
    {
        let mut line = self.to_request();
        line.append("\r\n");
        line
    }
}

/// True when `needle` occurs in `hay` as a contiguous run starting at
/// position `i`.
pub open spec fn occurs_at(hay: Seq<char>, needle: Seq<char>, i: int) -> bool {
    0 <= i && i + needle.len() <= hay.len() && hay.subrange(i, i + needle.len()) == needle
}

/// True when `needle` occurs somewhere in `hay`.
pub open spec fn has_substring(hay: Seq<char>, needle: Seq<char>) -> bool {
    exists|i: int| occurs_at(hay, needle, i)
}

/// Law: a color-temperature command round-trips through the wire
/// encoding: for every supported kelvin value, whatever the effect and
/// the id, the line carries `"set_ct_abx","params":[` followed by that
/// kelvin value in decimal. (That the constructor succeeds on exactly
/// this range is [`Action::new_ct`]'s own contract.)
pub proof fn lemma_ct_request_marks_kelvin(kelvin: u16, eff: EffectView, id: u8)
    requires
        CT_MIN_KELVIN <= kelvin <= CT_MAX_KELVIN,
    ensures
        has_substring(
            request_line(CommandView { action: ActionView::SetCtAbx { kelvin }, eff, id }),
            "\"set_ct_abx\",\"params\":["@ + dec_digits(kelvin as nat),
        ),
{
    reveal_strlit("{\"id\":");
    reveal_strlit(",\"method\":\"");
    reveal_strlit("set_ct_abx");
    reveal_strlit("\",\"params\":[");
    reveal_strlit("\"set_ct_abx\",\"params\":[");
    let c = CommandView { action: ActionView::SetCtAbx { kelvin }, eff, id };
    let line = request_line(c);
    let needle = "\"set_ct_abx\",\"params\":["@ + dec_digits(kelvin as nat);
    let head = "{\"id\":"@ + dec_digits(id as nat) + ",\"method\":\""@.subrange(0, 10);
    let tail = effect_params(eff) + "]}"@;
    assert(",\"method\":\""@ =~= ",\"method\":\""@.subrange(0, 10) + ",\"method\":\""@.subrange(
        10,
        11,
    ));
    assert(needle =~= ",\"method\":\""@.subrange(10, 11) + "set_ct_abx"@ + "\",\"params\":["@
        + dec_digits(kelvin as nat));
    assert(line =~= head + needle + tail);
    assert(line.subrange(head.len() as int, head.len() as int + needle.len() as int) =~= needle);
    assert(occurs_at(line, needle, head.len() as int));
}

} // verus!
