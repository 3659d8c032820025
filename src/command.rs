use vstd::prelude::*;
use crate::digits::{decimal_digits, push_decimal, lemma_u32_digits_len, lemma_u8_digits_len};
use crate::temperature::{Temperature, temperature_text, push_temperature, lemma_temperature_text_len};

verus! {

/// Length of every command frame written to the appliance.
pub const COMMAND_LEN: usize = 19;

/// A new running time for the active timer.
#[derive(Debug, Clone, Copy, PartialEq, Eq, Structural)]
pub enum Delay {
    Minutes(u32),
    MinutesSeconds(u32, u8),
}

/// A command understood by the appliance.
#[derive(Debug, Clone, Copy, PartialEq, Eq, Structural)]
pub enum GrainfatherCommand {
    Reset,
    GetFirmwareVersion,
    GetVoltageAndUnits,
    GetBoilTemperature,
    ToggleHeatActive,
    SetHeatActive(bool),
    TogglePumpActive,
    SetPumpActive(bool),
    /// The minutes count is one more than the whole minutes that run: `{2, 0}` runs
    /// for one minute, `{2, 30}` for ninety seconds, `{1, 30}` and `{0, 30}` for thirty.
    EnableDelayedHeatTimer { minutes: u32, seconds: u8 },
    CancelActiveTimer,
    UpdateActiveTimer(Delay),
    PauseOrResumeActiveTimer,
    IncrementTargetTemperature,
    DecrementTargetTemperature,
    SetTargetTemperature(Temperature),
    SetLocalBoilTemperature(Temperature),
    DismissBoilAdditionAlert,
    CancelOrFinishSession,
    PressSet,
    DisableSpargeWaterAlert,
    ResetRecipeInterrupted,
    SetSpargeCounterActive(bool),
    SetBoilControlActive(bool),
    SetManualPowerControlActive(bool),
    SetSpargeAlertModeActive(bool),
}

/// `'1'` for true, `'0'` for false.
pub open spec fn flag_byte(b: bool) -> u8 {
    if b {
        49u8
    } else {
        48u8
    }
}

/// A one-character tag followed by a flag.
pub open spec fn tag_flag(tag: u8, b: bool) -> Seq<u8> {
    seq![tag, flag_byte(b)]
}

/// A tag followed by minutes and seconds, comma-separated.
pub open spec fn tag_minutes_seconds(tag: u8, minutes: u32, seconds: u8) -> Seq<u8> {
    seq![tag] + decimal_digits(minutes as nat) + seq![44u8] + decimal_digits(seconds as nat)
}

/// The content of a command frame, before padding.
pub open spec fn command_text(c: GrainfatherCommand) -> Seq<u8> {
    match c {
        GrainfatherCommand::Reset => seq![90u8],  // Z
        GrainfatherCommand::GetFirmwareVersion => seq![88u8],  // X
        GrainfatherCommand::GetVoltageAndUnits => seq![103u8],  // g
        GrainfatherCommand::GetBoilTemperature => seq![77u8],  // M
        GrainfatherCommand::ToggleHeatActive => seq![72u8],  // H
        GrainfatherCommand::SetHeatActive(b) => tag_flag(75u8, b),  // K
        GrainfatherCommand::TogglePumpActive => seq![80u8],  // P
        GrainfatherCommand::SetPumpActive(b) => tag_flag(76u8, b),  // L
        GrainfatherCommand::EnableDelayedHeatTimer { minutes, seconds } => tag_minutes_seconds(
            66u8,
            minutes,
            seconds,
        ),  // B
        GrainfatherCommand::CancelActiveTimer => seq![67u8],  // C
        GrainfatherCommand::UpdateActiveTimer(Delay::MinutesSeconds(m, s)) => tag_minutes_seconds(
            87u8,
            m,
            s,
        ),  // W
        GrainfatherCommand::UpdateActiveTimer(Delay::Minutes(m)) => seq![83u8] + decimal_digits(
            m as nat,
        ),  // S
        GrainfatherCommand::PauseOrResumeActiveTimer => seq![71u8],  // G
        GrainfatherCommand::IncrementTargetTemperature => seq![85u8],  // U
        GrainfatherCommand::DecrementTargetTemperature => seq![68u8],  // D
        GrainfatherCommand::SetTargetTemperature(t) => seq![36u8] + temperature_text(t),  // $
        GrainfatherCommand::SetLocalBoilTemperature(t) => seq![69u8] + temperature_text(t),  // E
        GrainfatherCommand::DismissBoilAdditionAlert => seq![65u8],  // A
        GrainfatherCommand::CancelOrFinishSession => seq![70u8],  // F
        GrainfatherCommand::PressSet => seq![84u8],  // T
        GrainfatherCommand::DisableSpargeWaterAlert => seq![86u8],  // V
        GrainfatherCommand::ResetRecipeInterrupted => seq![33u8],  // !
        GrainfatherCommand::SetSpargeCounterActive(b) => tag_flag(100u8, b),  // d
        GrainfatherCommand::SetBoilControlActive(b) => tag_flag(101u8, b),  // e
        GrainfatherCommand::SetManualPowerControlActive(b) => tag_flag(102u8, b),  // f
        GrainfatherCommand::SetSpargeAlertModeActive(b) => tag_flag(104u8, b),  // h
    }
}

/// `n` space bytes.
pub open spec fn spaces(n: nat) -> Seq<u8> {
    Seq::new(n, |i: int| 32u8)
}

/// A full command frame: the content, then spaces up to the frame length.
pub open spec fn command_frame(c: GrainfatherCommand) -> Seq<u8> {
    command_text(c) + spaces((COMMAND_LEN - command_text(c).len()) as nat)
}

/// The content of every command fits in a frame.
pub proof fn lemma_command_text_fits(c: GrainfatherCommand)
    ensures
        1 <= command_text(c).len() <= COMMAND_LEN,
{
    match c {
        GrainfatherCommand::EnableDelayedHeatTimer { minutes, seconds } => {
            lemma_u32_digits_len(minutes);
            lemma_u8_digits_len(seconds);
        },
        GrainfatherCommand::UpdateActiveTimer(Delay::MinutesSeconds(m, s)) => {
            lemma_u32_digits_len(m);
            lemma_u8_digits_len(s);
        },
        GrainfatherCommand::UpdateActiveTimer(Delay::Minutes(m)) => {
            lemma_u32_digits_len(m);
        },
        GrainfatherCommand::SetTargetTemperature(t) => {
            lemma_temperature_text_len(t);
        },
        GrainfatherCommand::SetLocalBoilTemperature(t) => {
            lemma_temperature_text_len(t);
        },
        _ => {},
    }
}

/// Every frame is exactly one frame length long.
pub proof fn lemma_command_frame_len(c: GrainfatherCommand)
    ensures
        command_frame(c).len() == COMMAND_LEN,
{
    lemma_command_text_fits(c);
}

fn push_tag_flag(out: &mut Vec<u8>, tag: u8, b: bool)
    ensures
        final(out)@ == old(out)@ + tag_flag(tag, b),
{
    out.push(tag);
    if b {
        out.push(49u8);
    } else {
        out.push(48u8);
    }
    assert(final(out)@ =~= old(out)@ + tag_flag(tag, b));
}

fn push_tag_minutes_seconds(out: &mut Vec<u8>, tag: u8, minutes: u32, seconds: u8)
    ensures
        final(out)@ == old(out)@ + tag_minutes_seconds(tag, minutes, seconds),
{
    out.push(tag);
    push_decimal(out, minutes as u64);
    out.push(44u8);
    push_decimal(out, seconds as u64);
    assert(final(out)@ =~= old(out)@ + tag_minutes_seconds(tag, minutes, seconds));
}

impl GrainfatherCommand {
    /// Serialises the command into its frame: the tag and parameters, padded with
    /// spaces to exactly nineteen bytes.
    pub fn to_vec(&self) -> (r: Vec<u8>)
        ensures
            r@ == command_frame(*self),
            r@.len() == COMMAND_LEN,
            r@.subrange(0, command_text(*self).len() as int) == command_text(*self),
            forall|i: int|
                command_text(*self).len() <= i < COMMAND_LEN ==> #[trigger] r@[i] == 32u8,
    {
        let mut out: Vec<u8> = Vec::with_capacity(COMMAND_LEN);
        match self {
            GrainfatherCommand::Reset => out.push(90u8),
            GrainfatherCommand::GetFirmwareVersion => out.push(88u8),
            GrainfatherCommand::GetVoltageAndUnits => out.push(103u8),
            GrainfatherCommand::GetBoilTemperature => out.push(77u8),
            GrainfatherCommand::ToggleHeatActive => out.push(72u8),
            GrainfatherCommand::SetHeatActive(b) => push_tag_flag(&mut out, 75u8, *b),
            GrainfatherCommand::TogglePumpActive => out.push(80u8),
            GrainfatherCommand::SetPumpActive(b) => push_tag_flag(&mut out, 76u8, *b),
            GrainfatherCommand::EnableDelayedHeatTimer { minutes, seconds } => {
                push_tag_minutes_seconds(&mut out, 66u8, *minutes, *seconds)
            },
            GrainfatherCommand::CancelActiveTimer => out.push(67u8),
            GrainfatherCommand::UpdateActiveTimer(Delay::MinutesSeconds(m, s)) => {
                push_tag_minutes_seconds(&mut out, 87u8, *m, *s)
            },
            GrainfatherCommand::UpdateActiveTimer(Delay::Minutes(m)) => {
                out.push(83u8);
                push_decimal(&mut out, *m as u64);
            },
            GrainfatherCommand::PauseOrResumeActiveTimer => out.push(71u8),
            GrainfatherCommand::IncrementTargetTemperature => out.push(85u8),
            GrainfatherCommand::DecrementTargetTemperature => out.push(68u8),
            GrainfatherCommand::SetTargetTemperature(t) => {
                out.push(36u8);
                push_temperature(&mut out, *t);
            },
            GrainfatherCommand::SetLocalBoilTemperature(t) => {
                out.push(69u8);
                push_temperature(&mut out, *t);
            },
            GrainfatherCommand::DismissBoilAdditionAlert => out.push(65u8),
            GrainfatherCommand::CancelOrFinishSession => out.push(70u8),
            GrainfatherCommand::PressSet => out.push(84u8),
            GrainfatherCommand::DisableSpargeWaterAlert => out.push(86u8),
            GrainfatherCommand::ResetRecipeInterrupted => out.push(33u8),
            GrainfatherCommand::SetSpargeCounterActive(b) => push_tag_flag(&mut out, 100u8, *b),
            GrainfatherCommand::SetBoilControlActive(b) => push_tag_flag(&mut out, 101u8, *b),
            GrainfatherCommand::SetManualPowerControlActive(b) => {
                push_tag_flag(&mut out, 102u8, *b)
            },
            GrainfatherCommand::SetSpargeAlertModeActive(b) => push_tag_flag(&mut out, 104u8, *b),
        }
        assert(out@ =~= command_text(*self));
        proof {
            lemma_command_text_fits(*self);
        }
        let ghost text = out@;
        while out.len() < COMMAND_LEN
            invariant
                text.len() <= out@.len() <= COMMAND_LEN,
                out@.subrange(0, text.len() as int) == text,
                forall|i: int| text.len() <= i < out@.len() ==> #[trigger] out@[i] == 32u8,
            decreases COMMAND_LEN - out@.len(),
        {
            out.push(32u8);
        }
        assert(out@ =~= command_frame(*self));
        out
    }
}

} // verus!
