//! The static registry: which (class prefix, name suffix) pairs are
//! recognised, and the typed variant each resolves to.
//!
//! Each feature class has one suffix table, written as a single chain of
//! exact, case-sensitive comparisons; the top-level lookup maps a class
//! prefix to its table. The tables here are the one source of truth for
//! the recognised names.

use vstd::prelude::*;

use crate::strutil::str_eq;

use crate::types::{Fan, Pwm, Temperature, Voltage, Current, Power, Energy, Humidity, Intrusion, SubfeatureType};

verus! {

/// The suffix table of the `fan` class.
pub open spec fn spec_fan_suffix(s: Seq<char>) -> Option<SubfeatureType> {
    if s == "input"@ {
        Some(SubfeatureType::Fan(Fan::Input))
    } else if s == "min"@ {
        Some(SubfeatureType::Fan(Fan::Min))
    } else if s == "max"@ {
        Some(SubfeatureType::Fan(Fan::Max))
    } else if s == "div"@ {
        Some(SubfeatureType::Fan(Fan::Div))
    } else if s == "pulses"@ {
        Some(SubfeatureType::Fan(Fan::Pulses))
    } else if s == "target"@ {
        Some(SubfeatureType::Fan(Fan::Target))
    } else if s == "label"@ {
        Some(SubfeatureType::Fan(Fan::Label))
    } else if s == "enable"@ {
        Some(SubfeatureType::Fan(Fan::Enable))
    } else if s == "alarm"@ {
        Some(SubfeatureType::Fan(Fan::Alarm))
    } else if s == "min_alarm"@ {
        Some(SubfeatureType::Fan(Fan::Min_Alarm))
    } else if s == "max_alarm"@ {
        Some(SubfeatureType::Fan(Fan::Max_Alarm))
    } else if s == "fault"@ {
        Some(SubfeatureType::Fan(Fan::Fault))
    } else if s == "beep"@ {
        Some(SubfeatureType::Fan(Fan::Beep))
    } else {
        None
    }
}

pub(crate) fn fan_suffix(s: &str) -> (r: Option<SubfeatureType>)
    ensures
        r == spec_fan_suffix(s@),
{
    if str_eq(s, "input") {
        Some(SubfeatureType::Fan(Fan::Input))
    } else if str_eq(s, "min") {
        Some(SubfeatureType::Fan(Fan::Min))
    } else if str_eq(s, "max") {
        Some(SubfeatureType::Fan(Fan::Max))
    } else if str_eq(s, "div") {
        Some(SubfeatureType::Fan(Fan::Div))
    } else if str_eq(s, "pulses") {
        Some(SubfeatureType::Fan(Fan::Pulses))
    } else if str_eq(s, "target") {
        Some(SubfeatureType::Fan(Fan::Target))
    } else if str_eq(s, "label") {
        Some(SubfeatureType::Fan(Fan::Label))
    } else if str_eq(s, "enable") {
        Some(SubfeatureType::Fan(Fan::Enable))
    } else if str_eq(s, "alarm") {
        Some(SubfeatureType::Fan(Fan::Alarm))
    } else if str_eq(s, "min_alarm") {
        Some(SubfeatureType::Fan(Fan::Min_Alarm))
    } else if str_eq(s, "max_alarm") {
        Some(SubfeatureType::Fan(Fan::Max_Alarm))
    } else if str_eq(s, "fault") {
        Some(SubfeatureType::Fan(Fan::Fault))
    } else if str_eq(s, "beep") {
        Some(SubfeatureType::Fan(Fan::Beep))
    } else {
        None
    }
}

/// The suffix table of the `pwm` class.
pub open spec fn spec_pwm_suffix(s: Seq<char>) -> Option<SubfeatureType> {
    if s == ""@ {
        Some(SubfeatureType::Pwm(Pwm::Pwm))
    } else if s == "enable"@ {
        Some(SubfeatureType::Pwm(Pwm::Enable))
    } else if s == "mode"@ {
        Some(SubfeatureType::Pwm(Pwm::Mode))
    } else if s == "freq"@ {
        Some(SubfeatureType::Pwm(Pwm::Freq))
    } else {
        None
    }
}

pub(crate) fn pwm_suffix(s: &str) -> (r: Option<SubfeatureType>)
    ensures
        r == spec_pwm_suffix(s@),
{
    if str_eq(s, "") {
        Some(SubfeatureType::Pwm(Pwm::Pwm))
    } else if str_eq(s, "enable") {
        Some(SubfeatureType::Pwm(Pwm::Enable))
    } else if str_eq(s, "mode") {
        Some(SubfeatureType::Pwm(Pwm::Mode))
    } else if str_eq(s, "freq") {
        Some(SubfeatureType::Pwm(Pwm::Freq))
    } else {
        None
    }
}

/// The suffix table of the `temp` class.
pub open spec fn spec_temperature_suffix(s: Seq<char>) -> Option<SubfeatureType> {
    if s == "input"@ {
        Some(SubfeatureType::Temperature(Temperature::Input))
    } else if s == "max"@ {
        Some(SubfeatureType::Temperature(Temperature::Max))
    } else if s == "max_hyst"@ {
        Some(SubfeatureType::Temperature(Temperature::Max_Hyst))
    } else if s == "min"@ {
        Some(SubfeatureType::Temperature(Temperature::Min))
    } else if s == "min_hyst"@ {
        Some(SubfeatureType::Temperature(Temperature::Min_Hyst))
    } else if s == "crit"@ {
        Some(SubfeatureType::Temperature(Temperature::Crit_Max))
    } else if s == "crit_hyst"@ {
        Some(SubfeatureType::Temperature(Temperature::Crit_Max_Hyst))
    } else if s == "lcrit"@ {
        Some(SubfeatureType::Temperature(Temperature::Crit_Min))
    } else if s == "lcrit_hyst"@ {
        Some(SubfeatureType::Temperature(Temperature::Crit_Min_Hyst))
    } else if s == "emergency"@ {
        Some(SubfeatureType::Temperature(Temperature::Emergency))
    } else if s == "emergency_hyst"@ {
        Some(SubfeatureType::Temperature(Temperature::Emergency_Hyst))
    } else if s == "lowest"@ {
        Some(SubfeatureType::Temperature(Temperature::Lowest))
    } else if s == "highest"@ {
        Some(SubfeatureType::Temperature(Temperature::Highest))
    } else if s == "offset"@ {
        Some(SubfeatureType::Temperature(Temperature::Offset))
    } else if s == "type"@ {
        Some(SubfeatureType::Temperature(Temperature::Type))
    } else if s == "alarm"@ {
        Some(SubfeatureType::Temperature(Temperature::Alarm))
    } else if s == "max_alarm"@ {
        Some(SubfeatureType::Temperature(Temperature::Max_Alarm))
    } else if s == "min_alarm"@ {
        Some(SubfeatureType::Temperature(Temperature::Min_Alarm))
    } else if s == "emergency_alarm"@ {
        Some(SubfeatureType::Temperature(Temperature::Emergency_Alarm))
    } else if s == "crit_alarm"@ {
        Some(SubfeatureType::Temperature(Temperature::Crit_Max_Alarm))
    } else if s == "lcrit_alarm"@ {
        Some(SubfeatureType::Temperature(Temperature::Crit_Min_Alarm))
    } else if s == "fault"@ {
        Some(SubfeatureType::Temperature(Temperature::Fault))
    } else if s == "beep"@ {
        Some(SubfeatureType::Temperature(Temperature::Beep))
    } else {
        None
    }
}

pub(crate) fn temperature_suffix(s: &str) -> (r: Option<SubfeatureType>)
    ensures
        r == spec_temperature_suffix(s@),
{
    if str_eq(s, "input") {
        Some(SubfeatureType::Temperature(Temperature::Input))
    } else if str_eq(s, "max") {
        Some(SubfeatureType::Temperature(Temperature::Max))
    } else if str_eq(s, "max_hyst") {
        Some(SubfeatureType::Temperature(Temperature::Max_Hyst))
    } else if str_eq(s, "min") {
        Some(SubfeatureType::Temperature(Temperature::Min))
    } else if str_eq(s, "min_hyst") {
        Some(SubfeatureType::Temperature(Temperature::Min_Hyst))
    } else if str_eq(s, "crit") {
        Some(SubfeatureType::Temperature(Temperature::Crit_Max))
    } else if str_eq(s, "crit_hyst") {
        Some(SubfeatureType::Temperature(Temperature::Crit_Max_Hyst))
    } else if str_eq(s, "lcrit") {
        Some(SubfeatureType::Temperature(Temperature::Crit_Min))
    } else if str_eq(s, "lcrit_hyst") {
        Some(SubfeatureType::Temperature(Temperature::Crit_Min_Hyst))
    } else if str_eq(s, "emergency") {
        Some(SubfeatureType::Temperature(Temperature::Emergency))
    } else if str_eq(s, "emergency_hyst") {
        Some(SubfeatureType::Temperature(Temperature::Emergency_Hyst))
    } else if str_eq(s, "lowest") {
        Some(SubfeatureType::Temperature(Temperature::Lowest))
    } else if str_eq(s, "highest") {
        Some(SubfeatureType::Temperature(Temperature::Highest))
    } else if str_eq(s, "offset") {
        Some(SubfeatureType::Temperature(Temperature::Offset))
    } else if str_eq(s, "type") {
        Some(SubfeatureType::Temperature(Temperature::Type))
    } else if str_eq(s, "alarm") {
        Some(SubfeatureType::Temperature(Temperature::Alarm))
    } else if str_eq(s, "max_alarm") {
        Some(SubfeatureType::Temperature(Temperature::Max_Alarm))
    } else if str_eq(s, "min_alarm") {
        Some(SubfeatureType::Temperature(Temperature::Min_Alarm))
    } else if str_eq(s, "emergency_alarm") {
        Some(SubfeatureType::Temperature(Temperature::Emergency_Alarm))
    } else if str_eq(s, "crit_alarm") {
        Some(SubfeatureType::Temperature(Temperature::Crit_Max_Alarm))
    } else if str_eq(s, "lcrit_alarm") {
        Some(SubfeatureType::Temperature(Temperature::Crit_Min_Alarm))
    } else if str_eq(s, "fault") {
        Some(SubfeatureType::Temperature(Temperature::Fault))
    } else if str_eq(s, "beep") {
        Some(SubfeatureType::Temperature(Temperature::Beep))
    } else {
        None
    }
}

/// The suffix table of the `in` class.
pub open spec fn spec_voltage_suffix(s: Seq<char>) -> Option<SubfeatureType> {
    if s == "input"@ {
        Some(SubfeatureType::Voltage(Voltage::Input))
    } else if s == "max"@ {
        Some(SubfeatureType::Voltage(Voltage::Max))
    } else if s == "min"@ {
        Some(SubfeatureType::Voltage(Voltage::Min))
    } else if s == "crit"@ {
        Some(SubfeatureType::Voltage(Voltage::Crit_Max))
    } else if s == "lcrit"@ {
        Some(SubfeatureType::Voltage(Voltage::Crit_Min))
    } else if s == "average"@ {
        Some(SubfeatureType::Voltage(Voltage::Average))
    } else if s == "highest"@ {
        Some(SubfeatureType::Voltage(Voltage::Highest))
    } else if s == "lowest"@ {
        Some(SubfeatureType::Voltage(Voltage::Lowest))
    } else if s == "alarm"@ {
        Some(SubfeatureType::Voltage(Voltage::Alarm))
    } else if s == "max_alarm"@ {
        Some(SubfeatureType::Voltage(Voltage::Max_Alarm))
    } else if s == "min_alarm"@ {
        Some(SubfeatureType::Voltage(Voltage::Min_Alarm))
    } else if s == "crit_alarm"@ {
        Some(SubfeatureType::Voltage(Voltage::Crit_Max_Alarm))
    } else if s == "lcrit_alarm"@ {
        Some(SubfeatureType::Voltage(Voltage::Crit_Min_Alarm))
    } else if s == "beep"@ {
        Some(SubfeatureType::Voltage(Voltage::Beep))
    } else {
        None
    }
}

pub(crate) fn voltage_suffix(s: &str) -> (r: Option<SubfeatureType>)
    ensures
        r == spec_voltage_suffix(s@),
{
    if str_eq(s, "input") {
        Some(SubfeatureType::Voltage(Voltage::Input))
    } else if str_eq(s, "max") {
        Some(SubfeatureType::Voltage(Voltage::Max))
    } else if str_eq(s, "min") {
        Some(SubfeatureType::Voltage(Voltage::Min))
    } else if str_eq(s, "crit") {
        Some(SubfeatureType::Voltage(Voltage::Crit_Max))
    } else if str_eq(s, "lcrit") {
        Some(SubfeatureType::Voltage(Voltage::Crit_Min))
    } else if str_eq(s, "average") {
        Some(SubfeatureType::Voltage(Voltage::Average))
    } else if str_eq(s, "highest") {
        Some(SubfeatureType::Voltage(Voltage::Highest))
    } else if str_eq(s, "lowest") {
        Some(SubfeatureType::Voltage(Voltage::Lowest))
    } else if str_eq(s, "alarm") {
        Some(SubfeatureType::Voltage(Voltage::Alarm))
    } else if str_eq(s, "max_alarm") {
        Some(SubfeatureType::Voltage(Voltage::Max_Alarm))
    } else if str_eq(s, "min_alarm") {
        Some(SubfeatureType::Voltage(Voltage::Min_Alarm))
    } else if str_eq(s, "crit_alarm") {
        Some(SubfeatureType::Voltage(Voltage::Crit_Max_Alarm))
    } else if str_eq(s, "lcrit_alarm") {
        Some(SubfeatureType::Voltage(Voltage::Crit_Min_Alarm))
    } else if str_eq(s, "beep") {
        Some(SubfeatureType::Voltage(Voltage::Beep))
    } else {
        None
    }
}

/// The suffix table of the `curr` class.
pub open spec fn spec_current_suffix(s: Seq<char>) -> Option<SubfeatureType> {
    if s == "input"@ {
        Some(SubfeatureType::Current(Current::Input))
    } else if s == "max"@ {
        Some(SubfeatureType::Current(Current::Max))
    } else if s == "min"@ {
        Some(SubfeatureType::Current(Current::Min))
    } else if s == "crit"@ {
        Some(SubfeatureType::Current(Current::Crit_Max))
    } else if s == "lcrit"@ {
        Some(SubfeatureType::Current(Current::Crit_Min))
    } else if s == "average"@ {
        Some(SubfeatureType::Current(Current::Average))
    } else if s == "highest"@ {
        Some(SubfeatureType::Current(Current::Highest))
    } else if s == "lowest"@ {
        Some(SubfeatureType::Current(Current::Lowest))
    } else if s == "alarm"@ {
        Some(SubfeatureType::Current(Current::Alarm))
    } else if s == "max_alarm"@ {
        Some(SubfeatureType::Current(Current::Max_Alarm))
    } else if s == "min_alarm"@ {
        Some(SubfeatureType::Current(Current::Min_Alarm))
    } else if s == "crit_alarm"@ {
        Some(SubfeatureType::Current(Current::Crit_Max_Alarm))
    } else if s == "lcrit_alarm"@ {
        Some(SubfeatureType::Current(Current::Crit_Min_Alarm))
    } else if s == "beep"@ {
        Some(SubfeatureType::Current(Current::Beep))
    } else {
        None
    }
}

pub(crate) fn current_suffix(s: &str) -> (r: Option<SubfeatureType>)
    ensures
        r == spec_current_suffix(s@),
{
    if str_eq(s, "input") {
        Some(SubfeatureType::Current(Current::Input))
    } else if str_eq(s, "max") {
        Some(SubfeatureType::Current(Current::Max))
    } else if str_eq(s, "min") {
        Some(SubfeatureType::Current(Current::Min))
    } else if str_eq(s, "crit") {
        Some(SubfeatureType::Current(Current::Crit_Max))
    } else if str_eq(s, "lcrit") {
        Some(SubfeatureType::Current(Current::Crit_Min))
    } else if str_eq(s, "average") {
        Some(SubfeatureType::Current(Current::Average))
    } else if str_eq(s, "highest") {
        Some(SubfeatureType::Current(Current::Highest))
    } else if str_eq(s, "lowest") {
        Some(SubfeatureType::Current(Current::Lowest))
    } else if str_eq(s, "alarm") {
        Some(SubfeatureType::Current(Current::Alarm))
    } else if str_eq(s, "max_alarm") {
        Some(SubfeatureType::Current(Current::Max_Alarm))
    } else if str_eq(s, "min_alarm") {
        Some(SubfeatureType::Current(Current::Min_Alarm))
    } else if str_eq(s, "crit_alarm") {
        Some(SubfeatureType::Current(Current::Crit_Max_Alarm))
    } else if str_eq(s, "lcrit_alarm") {
        Some(SubfeatureType::Current(Current::Crit_Min_Alarm))
    } else if str_eq(s, "beep") {
        Some(SubfeatureType::Current(Current::Beep))
    } else {
        None
    }
}

/// The suffix table of the `power` class.
pub open spec fn spec_power_suffix(s: Seq<char>) -> Option<SubfeatureType> {
    if s == "average"@ {
        Some(SubfeatureType::Power(Power::Average))
    } else if s == "average_highest"@ {
        Some(SubfeatureType::Power(Power::Average_Highest))
    } else if s == "average_lowest"@ {
        Some(SubfeatureType::Power(Power::Average_Lowest))
    } else if s == "input"@ {
        Some(SubfeatureType::Power(Power::Input))
    } else if s == "input_highest"@ {
        Some(SubfeatureType::Power(Power::Input_Highest))
    } else if s == "input_lowest"@ {
        Some(SubfeatureType::Power(Power::Input_Lowest))
    } else if s == "cap"@ {
        Some(SubfeatureType::Power(Power::Cap))
    } else if s == "cap_max"@ {
        Some(SubfeatureType::Power(Power::Cap_Max))
    } else if s == "cap_min"@ {
        Some(SubfeatureType::Power(Power::Cap_Min))
    } else if s == "cap_hyst"@ {
        Some(SubfeatureType::Power(Power::Cap_Hyst))
    } else if s == "max"@ {
        Some(SubfeatureType::Power(Power::Max))
    } else if s == "min"@ {
        Some(SubfeatureType::Power(Power::Min))
    } else if s == "crit"@ {
        Some(SubfeatureType::Power(Power::Crit_Max))
    } else if s == "lcrit"@ {
        Some(SubfeatureType::Power(Power::Crit_Min))
    } else if s == "average_interval"@ {
        Some(SubfeatureType::Power(Power::Average_Interval))
    } else if s == "average_interval_max"@ {
        Some(SubfeatureType::Power(Power::Average_Interval_Max))
    } else if s == "average_interval_min"@ {
        Some(SubfeatureType::Power(Power::Average_Interval_Min))
    } else if s == "accuracy"@ {
        Some(SubfeatureType::Power(Power::Accuracy))
    } else if s == "alarm"@ {
        Some(SubfeatureType::Power(Power::Alarm))
    } else if s == "cap_alarm"@ {
        Some(SubfeatureType::Power(Power::Cap_Alarm))
    } else if s == "max_alarm"@ {
        Some(SubfeatureType::Power(Power::Max_Alarm))
    } else if s == "min_alarm"@ {
        Some(SubfeatureType::Power(Power::Min_Alarm))
    } else if s == "crit_alarm"@ {
        Some(SubfeatureType::Power(Power::Crit_Max_Alarm))
    } else if s == "lcrit_alarm"@ {
        Some(SubfeatureType::Power(Power::Crit_Min_Alarm))
    } else {
        None
    }
}

pub(crate) fn power_suffix(s: &str) -> (r: Option<SubfeatureType>)
    ensures
        r == spec_power_suffix(s@),
{
    if str_eq(s, "average") {
        Some(SubfeatureType::Power(Power::Average))
    } else if str_eq(s, "average_highest") {
        Some(SubfeatureType::Power(Power::Average_Highest))
    } else if str_eq(s, "average_lowest") {
        Some(SubfeatureType::Power(Power::Average_Lowest))
    } else if str_eq(s, "input") {
        Some(SubfeatureType::Power(Power::Input))
    } else if str_eq(s, "input_highest") {
        Some(SubfeatureType::Power(Power::Input_Highest))
    } else if str_eq(s, "input_lowest") {
        Some(SubfeatureType::Power(Power::Input_Lowest))
    } else if str_eq(s, "cap") {
        Some(SubfeatureType::Power(Power::Cap))
    } else if str_eq(s, "cap_max") {
        Some(SubfeatureType::Power(Power::Cap_Max))
    } else if str_eq(s, "cap_min") {
        Some(SubfeatureType::Power(Power::Cap_Min))
    } else if str_eq(s, "cap_hyst") {
        Some(SubfeatureType::Power(Power::Cap_Hyst))
    } else if str_eq(s, "max") {
        Some(SubfeatureType::Power(Power::Max))
    } else if str_eq(s, "min") {
        Some(SubfeatureType::Power(Power::Min))
    } else if str_eq(s, "crit") {
        Some(SubfeatureType::Power(Power::Crit_Max))
    } else if str_eq(s, "lcrit") {
        Some(SubfeatureType::Power(Power::Crit_Min))
    } else if str_eq(s, "average_interval") {
        Some(SubfeatureType::Power(Power::Average_Interval))
    } else if str_eq(s, "average_interval_max") {
        Some(SubfeatureType::Power(Power::Average_Interval_Max))
    } else if str_eq(s, "average_interval_min") {
        Some(SubfeatureType::Power(Power::Average_Interval_Min))
    } else if str_eq(s, "accuracy") {
        Some(SubfeatureType::Power(Power::Accuracy))
    } else if str_eq(s, "alarm") {
        Some(SubfeatureType::Power(Power::Alarm))
    } else if str_eq(s, "cap_alarm") {
        Some(SubfeatureType::Power(Power::Cap_Alarm))
    } else if str_eq(s, "max_alarm") {
        Some(SubfeatureType::Power(Power::Max_Alarm))
    } else if str_eq(s, "min_alarm") {
        Some(SubfeatureType::Power(Power::Min_Alarm))
    } else if str_eq(s, "crit_alarm") {
        Some(SubfeatureType::Power(Power::Crit_Max_Alarm))
    } else if str_eq(s, "lcrit_alarm") {
        Some(SubfeatureType::Power(Power::Crit_Min_Alarm))
    } else {
        None
    }
}

/// The suffix table of the `energy` class.
pub open spec fn spec_energy_suffix(s: Seq<char>) -> Option<SubfeatureType> {
    if s == "input"@ {
        Some(SubfeatureType::Energy(Energy::Input))
    } else {
        None
    }
}

pub(crate) fn energy_suffix(s: &str) -> (r: Option<SubfeatureType>)
    ensures
        r == spec_energy_suffix(s@),
{
    if str_eq(s, "input") {
        Some(SubfeatureType::Energy(Energy::Input))
    } else {
        None
    }
}

/// The suffix table of the `humidity` class.
pub open spec fn spec_humidity_suffix(s: Seq<char>) -> Option<SubfeatureType> {
    if s == "input"@ {
        Some(SubfeatureType::Humidity(Humidity::Input))
    } else {
        None
    }
}

pub(crate) fn humidity_suffix(s: &str) -> (r: Option<SubfeatureType>)
    ensures
        r == spec_humidity_suffix(s@),
{
    if str_eq(s, "input") {
        Some(SubfeatureType::Humidity(Humidity::Input))
    } else {
        None
    }
}

/// The suffix table of the `intrusion` class.
pub open spec fn spec_intrusion_suffix(s: Seq<char>) -> Option<SubfeatureType> {
    if s == "alarm"@ {
        Some(SubfeatureType::Intrusion(Intrusion::Alarm))
    } else if s == "beep"@ {
        Some(SubfeatureType::Intrusion(Intrusion::Beep))
    } else {
        None
    }
}

pub(crate) fn intrusion_suffix(s: &str) -> (r: Option<SubfeatureType>)
    ensures
        r == spec_intrusion_suffix(s@),
{
    if str_eq(s, "alarm") {
        Some(SubfeatureType::Intrusion(Intrusion::Alarm))
    } else if str_eq(s, "beep") {
        Some(SubfeatureType::Intrusion(Intrusion::Beep))
    } else {
        None
    }
}

/// The suffix table of the `cpu` class.
pub open spec fn spec_cpu_suffix(s: Seq<char>) -> Option<SubfeatureType> {
    if s == "vid"@ {
        Some(SubfeatureType::Cpu)
    } else {
        None
    }
}

pub(crate) fn cpu_suffix(s: &str) -> (r: Option<SubfeatureType>)
    ensures
        r == spec_cpu_suffix(s@),
{
    if str_eq(s, "vid") {
        Some(SubfeatureType::Cpu)
    } else {
        None
    }
}

/// Whether a class prefix has a registered suffix table.
pub open spec fn spec_prefix_registered(prefix: Seq<char>) -> bool {
    prefix == "temp"@ || prefix == "in"@ || prefix == "fan"@ || prefix == "pwm"@ || prefix == "cpu"@ || prefix == "power"@ || prefix == "curr"@ || prefix == "energy"@ || prefix == "intrusion"@ || prefix == "humidity"@
}

/// Resolve a (class prefix, name suffix) pair against the registry.
pub open spec fn spec_lookup(prefix: Seq<char>, suffix: Seq<char>) -> Option<SubfeatureType> {
    if prefix == "temp"@ {
        spec_temperature_suffix(suffix)
    } else if prefix == "in"@ {
        spec_voltage_suffix(suffix)
    } else if prefix == "fan"@ {
        spec_fan_suffix(suffix)
    } else if prefix == "pwm"@ {
        spec_pwm_suffix(suffix)
    } else if prefix == "cpu"@ {
        spec_cpu_suffix(suffix)
    } else if prefix == "power"@ {
        spec_power_suffix(suffix)
    } else if prefix == "curr"@ {
        spec_current_suffix(suffix)
    } else if prefix == "energy"@ {
        spec_energy_suffix(suffix)
    } else if prefix == "intrusion"@ {
        spec_intrusion_suffix(suffix)
    } else if prefix == "humidity"@ {
        spec_humidity_suffix(suffix)
    } else {
        None
    }
}

/// Resolve a (class prefix, name suffix) pair against the registry.
pub fn lookup(prefix: &str, suffix: &str) -> (r: Option<SubfeatureType>)
    ensures
        r == spec_lookup(prefix@, suffix@),
{
    if str_eq(prefix, "temp") {
        temperature_suffix(suffix)
    } else if str_eq(prefix, "in") {
        voltage_suffix(suffix)
    } else if str_eq(prefix, "fan") {
        fan_suffix(suffix)
    } else if str_eq(prefix, "pwm") {
        pwm_suffix(suffix)
    } else if str_eq(prefix, "cpu") {
        cpu_suffix(suffix)
    } else if str_eq(prefix, "power") {
        power_suffix(suffix)
    } else if str_eq(prefix, "curr") {
        current_suffix(suffix)
    } else if str_eq(prefix, "energy") {
        energy_suffix(suffix)
    } else if str_eq(prefix, "intrusion") {
        intrusion_suffix(suffix)
    } else if str_eq(prefix, "humidity") {
        humidity_suffix(suffix)
    } else {
        None
    }
}

/// A registered pair always resolves when the prefix is registered and
/// its table recognises the suffix; an unregistered prefix never does.
pub proof fn lemma_lookup_needs_registered_prefix(prefix: Seq<char>, suffix: Seq<char>)
    ensures
        spec_lookup(prefix, suffix) is Some ==> spec_prefix_registered(prefix),
{
}

} // verus!
