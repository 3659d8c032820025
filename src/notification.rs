use vstd::prelude::*;
use vstd::utf8::{valid_utf8, decode_utf8};
use crate::temperature::Temperature;
use crate::text::{
    fields, parse_tenths, parse_tenths_prefix, parse_uint, parse_uint_prefix, split_fields,
    trim_padding, trimmed_len,
};

verus! {

/// Length of every notification record sent by the appliance.
pub const NOTIFICATION_LEN: usize = 17;

/// Code of the prompt the appliance shows while it waits for the user.
pub type InteractionCode = u8;

/// Mains voltage the appliance is built for.
#[derive(Debug, Clone, Copy, PartialEq, Eq, Structural)]
pub enum Voltage {
    V110,
    V230,
}

/// Temperature units the appliance displays and reports.
#[derive(Debug, Clone, Copy, PartialEq, Eq, Structural)]
pub enum Units {
    Fahrenheit,
    Celsius,
}

/// A state change reported by the appliance.
#[derive(Debug, Clone, PartialEq, Eq)]
pub enum GrainfatherNotification {
    Temp { desired: Temperature, current: Temperature },
    /// `remaining_minutes` and `total_start_time` are zero while the timer is off, and
    /// otherwise one more than the whole minutes they stand for.
    DelayedHeatTimer {
        active: bool,
        remaining_minutes: u32,
        remaining_seconds: u32,
        total_start_time: u32,
    },
    Status1 {
        heat_active: bool,
        pump_active: bool,
        auto_mode_active: bool,
        stage_ramp_active: bool,
        interaction_mode_active: bool,
        interaction_code: InteractionCode,
        stage_number: u8,
        delayed_heat_mode_active: bool,
    },
    Status2 {
        heat_power_output_percentage: u8,
        timer_paused: bool,
        step_mash_mode: bool,
        recipe_interrupted: bool,
        manual_power_mode: bool,
        sparge_water_alert_displayed: bool,
    },
    Interaction { interaction_code: InteractionCode },
    Boil { boil_temperature: Temperature },
    VoltageAndUnits { voltage: Voltage, units: Units },
    FirmwareVersion { firmware_version: String },
    Other(char, String),
}

/// Why a record could not be decoded. Either failure concerns that record alone.
#[derive(Debug, Clone, Copy, PartialEq, Eq, Structural)]
pub enum GrainfatherNotificationConvertError {
    /// The record is not well-formed UTF-8.
    InvalidUtf8,
    /// A field is missing, or is not a number where the schema asks for one.
    MalformedField,
}

/// A notification with its strings seen as character sequences.
pub enum NotificationView {
    Temp { desired: Temperature, current: Temperature },
    DelayedHeatTimer {
        active: bool,
        remaining_minutes: u32,
        remaining_seconds: u32,
        total_start_time: u32,
    },
    Status1 {
        heat_active: bool,
        pump_active: bool,
        auto_mode_active: bool,
        stage_ramp_active: bool,
        interaction_mode_active: bool,
        interaction_code: u8,
        stage_number: u8,
        delayed_heat_mode_active: bool,
    },
    Status2 {
        heat_power_output_percentage: u8,
        timer_paused: bool,
        step_mash_mode: bool,
        recipe_interrupted: bool,
        manual_power_mode: bool,
        sparge_water_alert_displayed: bool,
    },
    Interaction { interaction_code: u8 },
    Boil { boil_temperature: Temperature },
    VoltageAndUnits { voltage: Voltage, units: Units },
    FirmwareVersion { firmware_version: Seq<char> },
    Other(char, Seq<char>),
}

impl View for GrainfatherNotification {
    type V = NotificationView;

    open spec fn view(&self) -> NotificationView {
        match self {
            GrainfatherNotification::Temp { desired, current } => NotificationView::Temp {
                desired: *desired,
                current: *current,
            },
            GrainfatherNotification::DelayedHeatTimer {
                active,
                remaining_minutes,
                remaining_seconds,
                total_start_time,
            } => NotificationView::DelayedHeatTimer {
                active: *active,
                remaining_minutes: *remaining_minutes,
                remaining_seconds: *remaining_seconds,
                total_start_time: *total_start_time,
            },
            GrainfatherNotification::Status1 {
                heat_active,
                pump_active,
                auto_mode_active,
                stage_ramp_active,
                interaction_mode_active,
                interaction_code,
                stage_number,
                delayed_heat_mode_active,
            } => NotificationView::Status1 {
                heat_active: *heat_active,
                pump_active: *pump_active,
                auto_mode_active: *auto_mode_active,
                stage_ramp_active: *stage_ramp_active,
                interaction_mode_active: *interaction_mode_active,
                interaction_code: *interaction_code,
                stage_number: *stage_number,
                delayed_heat_mode_active: *delayed_heat_mode_active,
            },
            GrainfatherNotification::Status2 {
                heat_power_output_percentage,
                timer_paused,
                step_mash_mode,
                recipe_interrupted,
                manual_power_mode,
                sparge_water_alert_displayed,
            } => NotificationView::Status2 {
                heat_power_output_percentage: *heat_power_output_percentage,
                timer_paused: *timer_paused,
                step_mash_mode: *step_mash_mode,
                recipe_interrupted: *recipe_interrupted,
                manual_power_mode: *manual_power_mode,
                sparge_water_alert_displayed: *sparge_water_alert_displayed,
            },
            GrainfatherNotification::Interaction { interaction_code } => {
                NotificationView::Interaction { interaction_code: *interaction_code }
            },
            GrainfatherNotification::Boil { boil_temperature } => NotificationView::Boil {
                boil_temperature: *boil_temperature,
            },
            GrainfatherNotification::VoltageAndUnits { voltage, units } => {
                NotificationView::VoltageAndUnits { voltage: *voltage, units: *units }
            },
            GrainfatherNotification::FirmwareVersion { firmware_version } => {
                NotificationView::FirmwareVersion { firmware_version: firmware_version@ }
            },
            GrainfatherNotification::Other(tag, rest) => NotificationView::Other(*tag, rest@),
        }
    }
}

/// A decode result with the notification seen through its view.
pub open spec fn result_view(
    r: Result<GrainfatherNotification, GrainfatherNotificationConvertError>,
) -> Result<NotificationView, GrainfatherNotificationConvertError> {
    match r {
        Ok(n) => Ok(n@),
        Err(e) => Err(e),
    }
}

/// Field `i` read as an unsigned number no larger than `max`.
pub open spec fn uint_at(fs: Seq<Seq<char>>, i: int, max: nat) -> Option<nat> {
    if 0 <= i < fs.len() {
        parse_uint(fs[i], max)
    } else {
        None
    }
}

/// Field `i` read as a flag: a byte-sized number, true exactly when it is one.
pub open spec fn flag_at(fs: Seq<Seq<char>>, i: int) -> Option<bool> {
    match uint_at(fs, i, 255) {
        Some(v) => Some(v == 1),
        None => None,
    }
}

/// Field `i` read as a temperature.
pub open spec fn temperature_at(fs: Seq<Seq<char>>, i: int) -> Option<Temperature> {
    if 0 <= i < fs.len() {
        match parse_tenths(fs[i]) {
            Some(v) => Some(Temperature { tenths: v as u32 }),
            None => None,
        }
    } else {
        None
    }
}

/// The notification that the text of one record stands for. The first character is
/// the tag; trailing spaces are padding, and what follows the tag up to the padding
/// is split at commas into the fields that the tag's schema reads in order. Fields
/// beyond the schema are ignored. An unknown tag, a space included, keeps the text
/// after it, padding left out. Only the empty text has no tag.
pub open spec fn notification_of(text: Seq<char>) -> Result<
    NotificationView,
    GrainfatherNotificationConvertError,
> {
    let t = trim_padding(text);
    let rest = if t.len() == 0 {
        Seq::empty()
    } else {
        t.drop_first()
    };
    let fs = fields(rest);
    let bad = Err(GrainfatherNotificationConvertError::MalformedField);
    if text.len() == 0 {
        bad
    } else if text[0] == 'X' {
        if temperature_at(fs, 0) is Some && temperature_at(fs, 1) is Some {
            Ok(
                NotificationView::Temp {
                    desired: temperature_at(fs, 0)->0,
                    current: temperature_at(fs, 1)->0,
                },
            )
        } else {
            bad
        }
    } else if text[0] == 'T' {
        if flag_at(fs, 0) is Some && uint_at(fs, 1, u32::MAX as nat) is Some && uint_at(
            fs,
            2,
            u32::MAX as nat,
        ) is Some && uint_at(fs, 3, u32::MAX as nat) is Some {
            Ok(
                NotificationView::DelayedHeatTimer {
                    active: flag_at(fs, 0)->0,
                    remaining_minutes: uint_at(fs, 1, u32::MAX as nat)->0 as u32,
                    total_start_time: uint_at(fs, 2, u32::MAX as nat)->0 as u32,
                    remaining_seconds: uint_at(fs, 3, u32::MAX as nat)->0 as u32,
                },
            )
        } else {
            bad
        }
    } else if text[0] == 'Y' {
        if flag_at(fs, 0) is Some && flag_at(fs, 1) is Some && flag_at(fs, 2) is Some && flag_at(
            fs,
            3,
        ) is Some && flag_at(fs, 4) is Some && uint_at(fs, 5, 255) is Some && uint_at(fs, 6, 255)
            is Some && flag_at(fs, 7) is Some {
            Ok(
                NotificationView::Status1 {
                    heat_active: flag_at(fs, 0)->0,
                    pump_active: flag_at(fs, 1)->0,
                    auto_mode_active: flag_at(fs, 2)->0,
                    stage_ramp_active: flag_at(fs, 3)->0,
                    interaction_mode_active: flag_at(fs, 4)->0,
                    interaction_code: uint_at(fs, 5, 255)->0 as u8,
                    stage_number: uint_at(fs, 6, 255)->0 as u8,
                    delayed_heat_mode_active: flag_at(fs, 7)->0,
                },
            )
        } else {
            bad
        }
    } else if text[0] == 'W' {
        if uint_at(fs, 0, 255) is Some && flag_at(fs, 1) is Some && flag_at(fs, 2) is Some
            && flag_at(fs, 3) is Some && flag_at(fs, 4) is Some && flag_at(fs, 5) is Some {
            Ok(
                NotificationView::Status2 {
                    heat_power_output_percentage: uint_at(fs, 0, 255)->0 as u8,
                    timer_paused: flag_at(fs, 1)->0,
                    step_mash_mode: flag_at(fs, 2)->0,
                    recipe_interrupted: flag_at(fs, 3)->0,
                    manual_power_mode: flag_at(fs, 4)->0,
                    sparge_water_alert_displayed: flag_at(fs, 5)->0,
                },
            )
        } else {
            bad
        }
    } else if text[0] == 'I' {
        if uint_at(fs, 0, 255) is Some {
            Ok(NotificationView::Interaction { interaction_code: uint_at(fs, 0, 255)->0 as u8 })
        } else {
            bad
        }
    } else if text[0] == 'C' {
        if temperature_at(fs, 0) is Some {
            Ok(NotificationView::Boil { boil_temperature: temperature_at(fs, 0)->0 })
        } else {
            bad
        }
    } else if text[0] == 'F' {
        Ok(NotificationView::FirmwareVersion { firmware_version: rest })
    } else if text[0] == 'V' {
        if flag_at(fs, 0) is Some && flag_at(fs, 1) is Some {
            Ok(
                NotificationView::VoltageAndUnits {
                    voltage: if flag_at(fs, 0)->0 {
                        Voltage::V110
                    } else {
                        Voltage::V230
                    },
                    units: if flag_at(fs, 1)->0 {
                        Units::Celsius
                    } else {
                        Units::Fahrenheit
                    },
                },
            )
        } else {
            bad
        }
    } else {
        Ok(NotificationView::Other(text[0], rest))
    }
}

/// The outcome of decoding a raw record: a failure when the bytes are not UTF-8,
/// otherwise the notification their text stands for.
pub open spec fn decode_record(bytes: Seq<u8>) -> Result<
    NotificationView,
    GrainfatherNotificationConvertError,
> {
    if valid_utf8(bytes) {
        notification_of(decode_utf8(bytes))
    } else {
        Err(GrainfatherNotificationConvertError::InvalidUtf8)
    }
}

/// Relies on `std::str::from_utf8`, which accepts exactly the well-formed UTF-8 byte
/// strings, and on `str::chars`, which yields the characters those bytes encode.
#[verifier::external_body]
fn utf8_chars(bytes: &[u8]) -> (r: Option<Vec<char>>)
    ensures
        r is Some <==> valid_utf8(bytes@),
        r matches Some(cs) ==> cs@ == decode_utf8(bytes@),
{
    match std::str::from_utf8(bytes) {
        Ok(s) => Some(s.chars().collect()),
        Err(_) => None,
    }
}

/// Relies on `String`'s `FromIterator<char>`: the string holds the characters in order.
#[verifier::external_body]
fn string_of(chars: &[char]) -> (r: String)
    ensures
        r@ == chars@,
{
    chars.iter().collect()
}

fn uint_field(fs: &Vec<Vec<char>>, i: usize, max: u32) -> (r: Result<
    u32,
    GrainfatherNotificationConvertError,
>)
    ensures
        r matches Ok(v) ==> uint_at(fs.deep_view(), i as int, max as nat) == Some(v as nat),
        r matches Err(e) ==> uint_at(fs.deep_view(), i as int, max as nat) is None
            && e == GrainfatherNotificationConvertError::MalformedField,
{
    if i >= fs.len() {
        return Err(GrainfatherNotificationConvertError::MalformedField);
    }
    let f = fs[i].as_slice();
    assert(fs.deep_view()[i as int] =~= f@);
    assert(f@.take(f@.len() as int) =~= f@);
    match parse_uint_prefix(f, f.len(), max) {
        Some(v) => Ok(v),
        None => Err(GrainfatherNotificationConvertError::MalformedField),
    }
}

fn flag_field(fs: &Vec<Vec<char>>, i: usize) -> (r: Result<
    bool,
    GrainfatherNotificationConvertError,
>)
    ensures
        r matches Ok(v) ==> flag_at(fs.deep_view(), i as int) == Some(v),
        r matches Err(e) ==> flag_at(fs.deep_view(), i as int) is None
            && e == GrainfatherNotificationConvertError::MalformedField,
{
    let v = uint_field(fs, i, 255)?;
    Ok(v == 1)
}

fn byte_field(fs: &Vec<Vec<char>>, i: usize) -> (r: Result<
    u8,
    GrainfatherNotificationConvertError,
>)
    ensures
        r matches Ok(v) ==> uint_at(fs.deep_view(), i as int, 255) == Some(v as nat),
        r matches Err(e) ==> uint_at(fs.deep_view(), i as int, 255) is None
            && e == GrainfatherNotificationConvertError::MalformedField,
{
    let v = uint_field(fs, i, 255)?;
    Ok(v as u8)
}

fn temperature_field(fs: &Vec<Vec<char>>, i: usize) -> (r: Result<
    Temperature,
    GrainfatherNotificationConvertError,
>)
    ensures
        r matches Ok(v) ==> temperature_at(fs.deep_view(), i as int) == Some(v),
        r matches Err(e) ==> temperature_at(fs.deep_view(), i as int) is None
            && e == GrainfatherNotificationConvertError::MalformedField,
{
    if i >= fs.len() {
        return Err(GrainfatherNotificationConvertError::MalformedField);
    }
    let f = fs[i].as_slice();
    assert(fs.deep_view()[i as int] =~= f@);
    assert(f@.take(f@.len() as int) =~= f@);
    match parse_tenths_prefix(f, f.len()) {
        Some(v) => Ok(Temperature { tenths: v }),
        None => Err(GrainfatherNotificationConvertError::MalformedField),
    }
}

impl GrainfatherNotification {
    /// Decodes the text of one record (see `notification_of`).
    pub fn from_text(text: &[char]) -> (r: Result<Self, GrainfatherNotificationConvertError>)
        ensures
            result_view(r) == notification_of(text@),
    {
        if text.len() == 0 {
            return Err(GrainfatherNotificationConvertError::MalformedField);
        }
        let tag = text[0];
        let end = trimmed_len(text);
        let ghost t = text@.take(end as int);
        let mut rest: Vec<char> = Vec::new();
        if end == 0 {
            proof {
                crate::text::lemma_trim_padding_spaces(text@, 0);
            }
            assert(rest@ =~= Seq::<char>::empty());
            return Ok(GrainfatherNotification::Other(tag, string_of(rest.as_slice())));
        }
        let mut i: usize = 1;
        while i < end
            invariant
                1 <= i <= end <= text@.len(),
                rest@ == text@.subrange(1, i as int),
            decreases end - i,
        {
            rest.push(text[i]);
            i = i + 1;
            assert(rest@ =~= text@.subrange(1, i as int));
        }
        assert(rest@ =~= t.drop_first());
        let fs = split_fields(rest.as_slice());
        let ghost fv = fs.deep_view();
        if tag == 'X' {
            let desired = temperature_field(&fs, 0)?;
            let current = temperature_field(&fs, 1)?;
            Ok(GrainfatherNotification::Temp { desired, current })
        } else if tag == 'T' {
            let active = flag_field(&fs, 0)?;
            let remaining_minutes = uint_field(&fs, 1, 4294967295)?;
            let total_start_time = uint_field(&fs, 2, 4294967295)?;
            let remaining_seconds = uint_field(&fs, 3, 4294967295)?;
            Ok(
                GrainfatherNotification::DelayedHeatTimer {
                    active,
                    remaining_minutes,
                    remaining_seconds,
                    total_start_time,
                },
            )
        } else if tag == 'Y' {
            let heat_active = flag_field(&fs, 0)?;
            let pump_active = flag_field(&fs, 1)?;
            let auto_mode_active = flag_field(&fs, 2)?;
            let stage_ramp_active = flag_field(&fs, 3)?;
            let interaction_mode_active = flag_field(&fs, 4)?;
            let interaction_code = byte_field(&fs, 5)?;
            let stage_number = byte_field(&fs, 6)?;
            let delayed_heat_mode_active = flag_field(&fs, 7)?;
            Ok(
                GrainfatherNotification::Status1 {
                    heat_active,
                    pump_active,
                    auto_mode_active,
                    stage_ramp_active,
                    interaction_mode_active,
                    interaction_code,
                    stage_number,
                    delayed_heat_mode_active,
                },
            )
        } else if tag == 'W' {
            let heat_power_output_percentage = byte_field(&fs, 0)?;
            let timer_paused = flag_field(&fs, 1)?;
            let step_mash_mode = flag_field(&fs, 2)?;
            let recipe_interrupted = flag_field(&fs, 3)?;
            let manual_power_mode = flag_field(&fs, 4)?;
            let sparge_water_alert_displayed = flag_field(&fs, 5)?;
            Ok(
                GrainfatherNotification::Status2 {
                    heat_power_output_percentage,
                    timer_paused,
                    step_mash_mode,
                    recipe_interrupted,
                    manual_power_mode,
                    sparge_water_alert_displayed,
                },
            )
        } else if tag == 'I' {
            let interaction_code = byte_field(&fs, 0)?;
            Ok(GrainfatherNotification::Interaction { interaction_code })
        } else if tag == 'C' {
            let boil_temperature = temperature_field(&fs, 0)?;
            Ok(GrainfatherNotification::Boil { boil_temperature })
        } else if tag == 'F' {
            let firmware_version = string_of(rest.as_slice());
            Ok(GrainfatherNotification::FirmwareVersion { firmware_version })
        } else if tag == 'V' {
            let voltage_is_110 = flag_field(&fs, 0)?;
            let units_are_celsius = flag_field(&fs, 1)?;
            let voltage = if voltage_is_110 {
                Voltage::V110
            } else {
                Voltage::V230
            };
            let units = if units_are_celsius {
                Units::Celsius
            } else {
                Units::Fahrenheit
            };
            Ok(GrainfatherNotification::VoltageAndUnits { voltage, units })
        } else {
            Ok(GrainfatherNotification::Other(tag, string_of(rest.as_slice())))
        }
    }

    /// Decodes one raw record. A record that is not UTF-8 fails with `InvalidUtf8`;
    /// any other record decodes as its text does.
    pub fn try_from(message: &[u8]) -> (r: Result<Self, GrainfatherNotificationConvertError>)
        ensures
            result_view(r) == decode_record(message@),
    {
        match utf8_chars(message) {
            Some(chars) => Self::from_text(chars.as_slice()),
            None => Err(GrainfatherNotificationConvertError::InvalidUtf8),
        }
    }
}

} // verus!
