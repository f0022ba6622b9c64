//! The typed subfeature variants and their registry-fixed attributes.
//!
//! Each feature class is its own enumeration; `SubfeatureType` wraps them
//! all, together with the two standalone variants `Cpu` and `BeepEnable`.
//! Every variant carries exactly one unit [`Ratio`] and one alarm flag,
//! both fixed here by a single exhaustive match per class.

use vstd::prelude::*;

use crate::ratio::Ratio;

verus! {

/// Fan subfeature variants.
#[allow(non_camel_case_types)]
#[derive(Clone, Copy, Debug, Eq, PartialEq, Ord, PartialOrd)]
pub enum Fan {
    Input,
    Min,
    Max,
    Div,
    Pulses,
    Target,
    Label,
    Enable,
    Alarm,
    Min_Alarm,
    Max_Alarm,
    Fault,
    Beep,
}

impl Fan {
    /// The unit ratio fixed for each variant by the registry.
    pub open spec fn spec_ratio(self) -> Ratio {
        match self {
            Fan::Input => Ratio::spec_unity(),
            Fan::Min => Ratio::spec_unity(),
            Fan::Max => Ratio::spec_unity(),
            Fan::Div => Ratio::spec_unity(),
            Fan::Pulses => Ratio::spec_unity(),
            Fan::Target => Ratio::spec_unity(),
            Fan::Label => Ratio::spec_unity(),
            Fan::Enable => Ratio::spec_unity(),
            Fan::Alarm => Ratio::spec_unity(),
            Fan::Min_Alarm => Ratio::spec_unity(),
            Fan::Max_Alarm => Ratio::spec_unity(),
            Fan::Fault => Ratio::spec_unity(),
            Fan::Beep => Ratio::spec_unity(),
        }
    }

    /// The alarm flag fixed for each variant by the registry.
    pub open spec fn spec_is_alarm(self) -> bool {
        match self {
            Fan::Input => false,
            Fan::Min => false,
            Fan::Max => false,
            Fan::Div => false,
            Fan::Pulses => false,
            Fan::Target => false,
            Fan::Label => false,
            Fan::Enable => false,
            Fan::Alarm => true,
            Fan::Min_Alarm => true,
            Fan::Max_Alarm => true,
            Fan::Fault => false,
            Fan::Beep => false,
        }
    }

    fn ratio(self) -> (r: Ratio)
        ensures
            r == self.spec_ratio(),
            r.wf(),
    {
        match self {
            Fan::Input => Ratio::unity(),
            Fan::Min => Ratio::unity(),
            Fan::Max => Ratio::unity(),
            Fan::Div => Ratio::unity(),
            Fan::Pulses => Ratio::unity(),
            Fan::Target => Ratio::unity(),
            Fan::Label => Ratio::unity(),
            Fan::Enable => Ratio::unity(),
            Fan::Alarm => Ratio::unity(),
            Fan::Min_Alarm => Ratio::unity(),
            Fan::Max_Alarm => Ratio::unity(),
            Fan::Fault => Ratio::unity(),
            Fan::Beep => Ratio::unity(),
        }
    }

    /// Return `true` if the subfeature variant is an alarm.
    pub fn is_alarm(self) -> (r: bool)
        ensures
            r == self.spec_is_alarm(),
    {
        match self {
            Fan::Input => false,
            Fan::Min => false,
            Fan::Max => false,
            Fan::Div => false,
            Fan::Pulses => false,
            Fan::Target => false,
            Fan::Label => false,
            Fan::Enable => false,
            Fan::Alarm => true,
            Fan::Min_Alarm => true,
            Fan::Max_Alarm => true,
            Fan::Fault => false,
            Fan::Beep => false,
        }
    }
}

/// Pwm subfeature variants; `Pwm::Pwm` is the bare channel file with no suffix.
#[allow(non_camel_case_types)]
#[derive(Clone, Copy, Debug, Eq, PartialEq, Ord, PartialOrd)]
pub enum Pwm {
    Pwm,
    Enable,
    Mode,
    Freq,
}

impl Pwm {
    /// The unit ratio fixed for each variant by the registry.
    pub open spec fn spec_ratio(self) -> Ratio {
        match self {
            Pwm::Pwm => Ratio::spec_unity(),
            Pwm::Enable => Ratio::spec_unity(),
            Pwm::Mode => Ratio::spec_unity(),
            Pwm::Freq => Ratio::spec_unity(),
        }
    }

    /// The alarm flag fixed for each variant by the registry.
    pub open spec fn spec_is_alarm(self) -> bool {
        match self {
            Pwm::Pwm => false,
            Pwm::Enable => false,
            Pwm::Mode => false,
            Pwm::Freq => false,
        }
    }

    fn ratio(self) -> (r: Ratio)
        ensures
            r == self.spec_ratio(),
            r.wf(),
    {
        match self {
            Pwm::Pwm => Ratio::unity(),
            Pwm::Enable => Ratio::unity(),
            Pwm::Mode => Ratio::unity(),
            Pwm::Freq => Ratio::unity(),
        }
    }

    /// Return `true` if the subfeature variant is an alarm.
    pub fn is_alarm(self) -> (r: bool)
        ensures
            r == self.spec_is_alarm(),
    {
        match self {
            Pwm::Pwm => false,
            Pwm::Enable => false,
            Pwm::Mode => false,
            Pwm::Freq => false,
        }
    }
}

/// Temperature subfeature variants.
#[allow(non_camel_case_types)]
#[derive(Clone, Copy, Debug, Eq, PartialEq, Ord, PartialOrd)]
pub enum Temperature {
    Input,
    Max,
    Max_Hyst,
    Min,
    Min_Hyst,
    Crit_Max,
    Crit_Max_Hyst,
    Crit_Min,
    Crit_Min_Hyst,
    Emergency,
    Emergency_Hyst,
    Lowest,
    Highest,
    Offset,
    Type,
    Alarm,
    Max_Alarm,
    Min_Alarm,
    Emergency_Alarm,
    Crit_Max_Alarm,
    Crit_Min_Alarm,
    Fault,
    Beep,
}

impl Temperature {
    /// The unit ratio fixed for each variant by the registry.
    pub open spec fn spec_ratio(self) -> Ratio {
        match self {
            Temperature::Input => Ratio::spec_milli(),
            Temperature::Max => Ratio::spec_milli(),
            Temperature::Max_Hyst => Ratio::spec_milli(),
            Temperature::Min => Ratio::spec_milli(),
            Temperature::Min_Hyst => Ratio::spec_milli(),
            Temperature::Crit_Max => Ratio::spec_milli(),
            Temperature::Crit_Max_Hyst => Ratio::spec_milli(),
            Temperature::Crit_Min => Ratio::spec_milli(),
            Temperature::Crit_Min_Hyst => Ratio::spec_milli(),
            Temperature::Emergency => Ratio::spec_milli(),
            Temperature::Emergency_Hyst => Ratio::spec_milli(),
            Temperature::Lowest => Ratio::spec_milli(),
            Temperature::Highest => Ratio::spec_milli(),
            Temperature::Offset => Ratio::spec_milli(),
            Temperature::Type => Ratio::spec_unity(),
            Temperature::Alarm => Ratio::spec_unity(),
            Temperature::Max_Alarm => Ratio::spec_unity(),
            Temperature::Min_Alarm => Ratio::spec_unity(),
            Temperature::Emergency_Alarm => Ratio::spec_unity(),
            Temperature::Crit_Max_Alarm => Ratio::spec_unity(),
            Temperature::Crit_Min_Alarm => Ratio::spec_unity(),
            Temperature::Fault => Ratio::spec_unity(),
            Temperature::Beep => Ratio::spec_unity(),
        }
    }

    /// The alarm flag fixed for each variant by the registry.
    pub open spec fn spec_is_alarm(self) -> bool {
        match self {
            Temperature::Input => false,
            Temperature::Max => false,
            Temperature::Max_Hyst => false,
            Temperature::Min => false,
            Temperature::Min_Hyst => false,
            Temperature::Crit_Max => false,
            Temperature::Crit_Max_Hyst => false,
            Temperature::Crit_Min => false,
            Temperature::Crit_Min_Hyst => false,
            Temperature::Emergency => false,
            Temperature::Emergency_Hyst => false,
            Temperature::Lowest => false,
            Temperature::Highest => false,
            Temperature::Offset => false,
            Temperature::Type => false,
            Temperature::Alarm => true,
            Temperature::Max_Alarm => true,
            Temperature::Min_Alarm => true,
            Temperature::Emergency_Alarm => true,
            Temperature::Crit_Max_Alarm => true,
            Temperature::Crit_Min_Alarm => true,
            Temperature::Fault => false,
            Temperature::Beep => false,
        }
    }

    fn ratio(self) -> (r: Ratio)
        ensures
            r == self.spec_ratio(),
            r.wf(),
    {
        match self {
            Temperature::Input => Ratio::milli(),
            Temperature::Max => Ratio::milli(),
            Temperature::Max_Hyst => Ratio::milli(),
            Temperature::Min => Ratio::milli(),
            Temperature::Min_Hyst => Ratio::milli(),
            Temperature::Crit_Max => Ratio::milli(),
            Temperature::Crit_Max_Hyst => Ratio::milli(),
            Temperature::Crit_Min => Ratio::milli(),
            Temperature::Crit_Min_Hyst => Ratio::milli(),
            Temperature::Emergency => Ratio::milli(),
            Temperature::Emergency_Hyst => Ratio::milli(),
            Temperature::Lowest => Ratio::milli(),
            Temperature::Highest => Ratio::milli(),
            Temperature::Offset => Ratio::milli(),
            Temperature::Type => Ratio::unity(),
            Temperature::Alarm => Ratio::unity(),
            Temperature::Max_Alarm => Ratio::unity(),
            Temperature::Min_Alarm => Ratio::unity(),
            Temperature::Emergency_Alarm => Ratio::unity(),
            Temperature::Crit_Max_Alarm => Ratio::unity(),
            Temperature::Crit_Min_Alarm => Ratio::unity(),
            Temperature::Fault => Ratio::unity(),
            Temperature::Beep => Ratio::unity(),
        }
    }

    /// Return `true` if the subfeature variant is an alarm.
    pub fn is_alarm(self) -> (r: bool)
        ensures
            r == self.spec_is_alarm(),
    {
        match self {
            Temperature::Input => false,
            Temperature::Max => false,
            Temperature::Max_Hyst => false,
            Temperature::Min => false,
            Temperature::Min_Hyst => false,
            Temperature::Crit_Max => false,
            Temperature::Crit_Max_Hyst => false,
            Temperature::Crit_Min => false,
            Temperature::Crit_Min_Hyst => false,
            Temperature::Emergency => false,
            Temperature::Emergency_Hyst => false,
            Temperature::Lowest => false,
            Temperature::Highest => false,
            Temperature::Offset => false,
            Temperature::Type => false,
            Temperature::Alarm => true,
            Temperature::Max_Alarm => true,
            Temperature::Min_Alarm => true,
            Temperature::Emergency_Alarm => true,
            Temperature::Crit_Max_Alarm => true,
            Temperature::Crit_Min_Alarm => true,
            Temperature::Fault => false,
            Temperature::Beep => false,
        }
    }
}

/// Voltage subfeature variants.
#[allow(non_camel_case_types)]
#[derive(Clone, Copy, Debug, Eq, PartialEq, Ord, PartialOrd)]
pub enum Voltage {
    Input,
    Max,
    Min,
    Crit_Max,
    Crit_Min,
    Average,
    Highest,
    Lowest,
    Alarm,
    Max_Alarm,
    Min_Alarm,
    Crit_Max_Alarm,
    Crit_Min_Alarm,
    Beep,
}

impl Voltage {
    /// The unit ratio fixed for each variant by the registry.
    pub open spec fn spec_ratio(self) -> Ratio {
        match self {
            Voltage::Input => Ratio::spec_milli(),
            Voltage::Max => Ratio::spec_milli(),
            Voltage::Min => Ratio::spec_milli(),
            Voltage::Crit_Max => Ratio::spec_milli(),
            Voltage::Crit_Min => Ratio::spec_milli(),
            Voltage::Average => Ratio::spec_milli(),
            Voltage::Highest => Ratio::spec_milli(),
            Voltage::Lowest => Ratio::spec_milli(),
            Voltage::Alarm => Ratio::spec_unity(),
            Voltage::Max_Alarm => Ratio::spec_unity(),
            Voltage::Min_Alarm => Ratio::spec_unity(),
            Voltage::Crit_Max_Alarm => Ratio::spec_unity(),
            Voltage::Crit_Min_Alarm => Ratio::spec_unity(),
            Voltage::Beep => Ratio::spec_unity(),
        }
    }

    /// The alarm flag fixed for each variant by the registry.
    pub open spec fn spec_is_alarm(self) -> bool {
        match self {
            Voltage::Input => false,
            Voltage::Max => false,
            Voltage::Min => false,
            Voltage::Crit_Max => false,
            Voltage::Crit_Min => false,
            Voltage::Average => false,
            Voltage::Highest => false,
            Voltage::Lowest => false,
            Voltage::Alarm => true,
            Voltage::Max_Alarm => true,
            Voltage::Min_Alarm => true,
            Voltage::Crit_Max_Alarm => true,
            Voltage::Crit_Min_Alarm => true,
            Voltage::Beep => false,
        }
    }

    fn ratio(self) -> (r: Ratio)
        ensures
            r == self.spec_ratio(),
            r.wf(),
    {
        match self {
            Voltage::Input => Ratio::milli(),
            Voltage::Max => Ratio::milli(),
            Voltage::Min => Ratio::milli(),
            Voltage::Crit_Max => Ratio::milli(),
            Voltage::Crit_Min => Ratio::milli(),
            Voltage::Average => Ratio::milli(),
            Voltage::Highest => Ratio::milli(),
            Voltage::Lowest => Ratio::milli(),
            Voltage::Alarm => Ratio::unity(),
            Voltage::Max_Alarm => Ratio::unity(),
            Voltage::Min_Alarm => Ratio::unity(),
            Voltage::Crit_Max_Alarm => Ratio::unity(),
            Voltage::Crit_Min_Alarm => Ratio::unity(),
            Voltage::Beep => Ratio::unity(),
        }
    }

    /// Return `true` if the subfeature variant is an alarm.
    pub fn is_alarm(self) -> (r: bool)
        ensures
            r == self.spec_is_alarm(),
    {
        match self {
            Voltage::Input => false,
            Voltage::Max => false,
            Voltage::Min => false,
            Voltage::Crit_Max => false,
            Voltage::Crit_Min => false,
            Voltage::Average => false,
            Voltage::Highest => false,
            Voltage::Lowest => false,
            Voltage::Alarm => true,
            Voltage::Max_Alarm => true,
            Voltage::Min_Alarm => true,
            Voltage::Crit_Max_Alarm => true,
            Voltage::Crit_Min_Alarm => true,
            Voltage::Beep => false,
        }
    }
}

/// Current subfeature variants.
#[allow(non_camel_case_types)]
#[derive(Clone, Copy, Debug, Eq, PartialEq, Ord, PartialOrd)]
pub enum Current {
    Input,
    Max,
    Min,
    Crit_Max,
    Crit_Min,
    Average,
    Highest,
    Lowest,
    Alarm,
    Max_Alarm,
    Min_Alarm,
    Crit_Max_Alarm,
    Crit_Min_Alarm,
    Beep,
}

impl Current {
    /// The unit ratio fixed for each variant by the registry.
    pub open spec fn spec_ratio(self) -> Ratio {
        match self {
            Current::Input => Ratio::spec_milli(),
            Current::Max => Ratio::spec_milli(),
            Current::Min => Ratio::spec_milli(),
            Current::Crit_Max => Ratio::spec_milli(),
            Current::Crit_Min => Ratio::spec_milli(),
            Current::Average => Ratio::spec_milli(),
            Current::Highest => Ratio::spec_milli(),
            Current::Lowest => Ratio::spec_milli(),
            Current::Alarm => Ratio::spec_unity(),
            Current::Max_Alarm => Ratio::spec_unity(),
            Current::Min_Alarm => Ratio::spec_unity(),
            Current::Crit_Max_Alarm => Ratio::spec_unity(),
            Current::Crit_Min_Alarm => Ratio::spec_unity(),
            Current::Beep => Ratio::spec_unity(),
        }
    }

    /// The alarm flag fixed for each variant by the registry.
    pub open spec fn spec_is_alarm(self) -> bool {
        match self {
            Current::Input => false,
            Current::Max => false,
            Current::Min => false,
            Current::Crit_Max => false,
            Current::Crit_Min => false,
            Current::Average => false,
            Current::Highest => false,
            Current::Lowest => false,
            Current::Alarm => true,
            Current::Max_Alarm => true,
            Current::Min_Alarm => true,
            Current::Crit_Max_Alarm => true,
            Current::Crit_Min_Alarm => true,
            Current::Beep => false,
        }
    }

    fn ratio(self) -> (r: Ratio)
        ensures
            r == self.spec_ratio(),
            r.wf(),
    {
        match self {
            Current::Input => Ratio::milli(),
            Current::Max => Ratio::milli(),
            Current::Min => Ratio::milli(),
            Current::Crit_Max => Ratio::milli(),
            Current::Crit_Min => Ratio::milli(),
            Current::Average => Ratio::milli(),
            Current::Highest => Ratio::milli(),
            Current::Lowest => Ratio::milli(),
            Current::Alarm => Ratio::unity(),
            Current::Max_Alarm => Ratio::unity(),
            Current::Min_Alarm => Ratio::unity(),
            Current::Crit_Max_Alarm => Ratio::unity(),
            Current::Crit_Min_Alarm => Ratio::unity(),
            Current::Beep => Ratio::unity(),
        }
    }

    /// Return `true` if the subfeature variant is an alarm.
    pub fn is_alarm(self) -> (r: bool)
        ensures
            r == self.spec_is_alarm(),
    {
        match self {
            Current::Input => false,
            Current::Max => false,
            Current::Min => false,
            Current::Crit_Max => false,
            Current::Crit_Min => false,
            Current::Average => false,
            Current::Highest => false,
            Current::Lowest => false,
            Current::Alarm => true,
            Current::Max_Alarm => true,
            Current::Min_Alarm => true,
            Current::Crit_Max_Alarm => true,
            Current::Crit_Min_Alarm => true,
            Current::Beep => false,
        }
    }
}

/// Power subfeature variants.
#[allow(non_camel_case_types)]
#[derive(Clone, Copy, Debug, Eq, PartialEq, Ord, PartialOrd)]
pub enum Power {
    Average,
    Average_Highest,
    Average_Lowest,
    Input,
    Input_Highest,
    Input_Lowest,
    Cap,
    Cap_Max,
    Cap_Min,
    Cap_Hyst,
    Max,
    Min,
    Crit_Max,
    Crit_Min,
    Average_Interval,
    Average_Interval_Max,
    Average_Interval_Min,
    Accuracy,
    Alarm,
    Cap_Alarm,
    Max_Alarm,
    Min_Alarm,
    Crit_Max_Alarm,
    Crit_Min_Alarm,
}

impl Power {
    /// The unit ratio fixed for each variant by the registry.
    pub open spec fn spec_ratio(self) -> Ratio {
        match self {
            Power::Average => Ratio::spec_micro(),
            Power::Average_Highest => Ratio::spec_micro(),
            Power::Average_Lowest => Ratio::spec_micro(),
            Power::Input => Ratio::spec_micro(),
            Power::Input_Highest => Ratio::spec_micro(),
            Power::Input_Lowest => Ratio::spec_micro(),
            Power::Cap => Ratio::spec_micro(),
            Power::Cap_Max => Ratio::spec_micro(),
            Power::Cap_Min => Ratio::spec_micro(),
            Power::Cap_Hyst => Ratio::spec_micro(),
            Power::Max => Ratio::spec_micro(),
            Power::Min => Ratio::spec_micro(),
            Power::Crit_Max => Ratio::spec_micro(),
            Power::Crit_Min => Ratio::spec_micro(),
            Power::Average_Interval => Ratio::spec_milli(),
            Power::Average_Interval_Max => Ratio::spec_milli(),
            Power::Average_Interval_Min => Ratio::spec_milli(),
            Power::Accuracy => Ratio::spec_unity(),
            Power::Alarm => Ratio::spec_unity(),
            Power::Cap_Alarm => Ratio::spec_unity(),
            Power::Max_Alarm => Ratio::spec_unity(),
            Power::Min_Alarm => Ratio::spec_unity(),
            Power::Crit_Max_Alarm => Ratio::spec_unity(),
            Power::Crit_Min_Alarm => Ratio::spec_unity(),
        }
    }

    /// The alarm flag fixed for each variant by the registry.
    pub open spec fn spec_is_alarm(self) -> bool {
        match self {
            Power::Average => false,
            Power::Average_Highest => false,
            Power::Average_Lowest => false,
            Power::Input => false,
            Power::Input_Highest => false,
            Power::Input_Lowest => false,
            Power::Cap => false,
            Power::Cap_Max => false,
            Power::Cap_Min => false,
            Power::Cap_Hyst => false,
            Power::Max => false,
            Power::Min => false,
            Power::Crit_Max => false,
            Power::Crit_Min => false,
            Power::Average_Interval => false,
            Power::Average_Interval_Max => false,
            Power::Average_Interval_Min => false,
            Power::Accuracy => false,
            Power::Alarm => true,
            Power::Cap_Alarm => true,
            Power::Max_Alarm => true,
            Power::Min_Alarm => true,
            Power::Crit_Max_Alarm => true,
            Power::Crit_Min_Alarm => true,
        }
    }

    fn ratio(self) -> (r: Ratio)
        ensures
            r == self.spec_ratio(),
            r.wf(),
    {
        match self {
            Power::Average => Ratio::micro(),
            Power::Average_Highest => Ratio::micro(),
            Power::Average_Lowest => Ratio::micro(),
            Power::Input => Ratio::micro(),
            Power::Input_Highest => Ratio::micro(),
            Power::Input_Lowest => Ratio::micro(),
            Power::Cap => Ratio::micro(),
            Power::Cap_Max => Ratio::micro(),
            Power::Cap_Min => Ratio::micro(),
            Power::Cap_Hyst => Ratio::micro(),
            Power::Max => Ratio::micro(),
            Power::Min => Ratio::micro(),
            Power::Crit_Max => Ratio::micro(),
            Power::Crit_Min => Ratio::micro(),
            Power::Average_Interval => Ratio::milli(),
            Power::Average_Interval_Max => Ratio::milli(),
            Power::Average_Interval_Min => Ratio::milli(),
            Power::Accuracy => Ratio::unity(),
            Power::Alarm => Ratio::unity(),
            Power::Cap_Alarm => Ratio::unity(),
            Power::Max_Alarm => Ratio::unity(),
            Power::Min_Alarm => Ratio::unity(),
            Power::Crit_Max_Alarm => Ratio::unity(),
            Power::Crit_Min_Alarm => Ratio::unity(),
        }
    }

    /// Return `true` if the subfeature variant is an alarm.
    pub fn is_alarm(self) -> (r: bool)
        ensures
            r == self.spec_is_alarm(),
    {
        match self {
            Power::Average => false,
            Power::Average_Highest => false,
            Power::Average_Lowest => false,
            Power::Input => false,
            Power::Input_Highest => false,
            Power::Input_Lowest => false,
            Power::Cap => false,
            Power::Cap_Max => false,
            Power::Cap_Min => false,
            Power::Cap_Hyst => false,
            Power::Max => false,
            Power::Min => false,
            Power::Crit_Max => false,
            Power::Crit_Min => false,
            Power::Average_Interval => false,
            Power::Average_Interval_Max => false,
            Power::Average_Interval_Min => false,
            Power::Accuracy => false,
            Power::Alarm => true,
            Power::Cap_Alarm => true,
            Power::Max_Alarm => true,
            Power::Min_Alarm => true,
            Power::Crit_Max_Alarm => true,
            Power::Crit_Min_Alarm => true,
        }
    }
}

/// Energy subfeature variants.
#[allow(non_camel_case_types)]
#[derive(Clone, Copy, Debug, Eq, PartialEq, Ord, PartialOrd)]
pub enum Energy {
    Input,
}

impl Energy {
    /// The unit ratio fixed for each variant by the registry.
    pub open spec fn spec_ratio(self) -> Ratio {
        match self {
            Energy::Input => Ratio::spec_micro(),
        }
    }

    /// The alarm flag fixed for each variant by the registry.
    pub open spec fn spec_is_alarm(self) -> bool {
        match self {
            Energy::Input => false,
        }
    }

    fn ratio(self) -> (r: Ratio)
        ensures
            r == self.spec_ratio(),
            r.wf(),
    {
        match self {
            Energy::Input => Ratio::micro(),
        }
    }

    /// Return `true` if the subfeature variant is an alarm.
    pub fn is_alarm(self) -> (r: bool)
        ensures
            r == self.spec_is_alarm(),
    {
        match self {
            Energy::Input => false,
        }
    }
}

/// Humidity subfeature variants.
#[allow(non_camel_case_types)]
#[derive(Clone, Copy, Debug, Eq, PartialEq, Ord, PartialOrd)]
pub enum Humidity {
    Input,
}

impl Humidity {
    /// The unit ratio fixed for each variant by the registry.
    pub open spec fn spec_ratio(self) -> Ratio {
        match self {
            Humidity::Input => Ratio::spec_milli(),
        }
    }

    /// The alarm flag fixed for each variant by the registry.
    pub open spec fn spec_is_alarm(self) -> bool {
        match self {
            Humidity::Input => false,
        }
    }

    fn ratio(self) -> (r: Ratio)
        ensures
            r == self.spec_ratio(),
            r.wf(),
    {
        match self {
            Humidity::Input => Ratio::milli(),
        }
    }

    /// Return `true` if the subfeature variant is an alarm.
    pub fn is_alarm(self) -> (r: bool)
        ensures
            r == self.spec_is_alarm(),
    {
        match self {
            Humidity::Input => false,
        }
    }
}

/// Intrusion subfeature variants.
#[allow(non_camel_case_types)]
#[derive(Clone, Copy, Debug, Eq, PartialEq, Ord, PartialOrd)]
pub enum Intrusion {
    Alarm,
    Beep,
}

impl Intrusion {
    /// The unit ratio fixed for each variant by the registry.
    pub open spec fn spec_ratio(self) -> Ratio {
        match self {
            Intrusion::Alarm => Ratio::spec_micro(),
            Intrusion::Beep => Ratio::spec_micro(),
        }
    }

    /// The alarm flag fixed for each variant by the registry.
    pub open spec fn spec_is_alarm(self) -> bool {
        match self {
            Intrusion::Alarm => false,
            Intrusion::Beep => false,
        }
    }

    fn ratio(self) -> (r: Ratio)
        ensures
            r == self.spec_ratio(),
            r.wf(),
    {
        match self {
            Intrusion::Alarm => Ratio::micro(),
            Intrusion::Beep => Ratio::micro(),
        }
    }

    /// Return `true` if the subfeature variant is an alarm.
    pub fn is_alarm(self) -> (r: bool)
        ensures
            r == self.spec_is_alarm(),
    {
        match self {
            Intrusion::Alarm => false,
            Intrusion::Beep => false,
        }
    }
}

/// The full typed classification of a subfeature: one variant per feature
/// class, plus the standalone cpu voltage-id and beep-enable kinds.
#[derive(Clone, Copy, Debug, Eq, PartialEq, Ord, PartialOrd)]
pub enum SubfeatureType {
    Fan(Fan),
    Pwm(Pwm),
    Temperature(Temperature),
    Voltage(Voltage),
    Current(Current),
    Power(Power),
    Energy(Energy),
    Humidity(Humidity),
    Cpu,
    Intrusion(Intrusion),
    BeepEnable,
}

impl SubfeatureType {
    /// The unit ratio of this subfeature type.
    pub open spec fn spec_ratio(self) -> Ratio {
        match self {
            SubfeatureType::Fan(sft) => sft.spec_ratio(),
            SubfeatureType::Pwm(sft) => sft.spec_ratio(),
            SubfeatureType::Temperature(sft) => sft.spec_ratio(),
            SubfeatureType::Voltage(sft) => sft.spec_ratio(),
            SubfeatureType::Current(sft) => sft.spec_ratio(),
            SubfeatureType::Power(sft) => sft.spec_ratio(),
            SubfeatureType::Energy(sft) => sft.spec_ratio(),
            SubfeatureType::Humidity(sft) => sft.spec_ratio(),
            SubfeatureType::Intrusion(sft) => sft.spec_ratio(),
            SubfeatureType::Cpu => Ratio::spec_milli(),
            SubfeatureType::BeepEnable => Ratio::spec_unity(),
        }
    }

    /// The alarm flag of this subfeature type.
    pub open spec fn spec_is_alarm(self) -> bool {
        match self {
            SubfeatureType::Fan(sft) => sft.spec_is_alarm(),
            SubfeatureType::Pwm(sft) => sft.spec_is_alarm(),
            SubfeatureType::Temperature(sft) => sft.spec_is_alarm(),
            SubfeatureType::Voltage(sft) => sft.spec_is_alarm(),
            SubfeatureType::Current(sft) => sft.spec_is_alarm(),
            SubfeatureType::Power(sft) => sft.spec_is_alarm(),
            SubfeatureType::Energy(sft) => sft.spec_is_alarm(),
            SubfeatureType::Humidity(sft) => sft.spec_is_alarm(),
            SubfeatureType::Intrusion(sft) => sft.spec_is_alarm(),
            SubfeatureType::Cpu => false,
            SubfeatureType::BeepEnable => false,
        }
    }

    /// Return the unit ratio converting the raw sysfs integer to the
    /// standard physical unit.
    pub fn ratio(self) -> (r: Ratio)
        ensures
            r == self.spec_ratio(),
            r.wf(),
    {
        match self {
            SubfeatureType::Fan(sft) => sft.ratio(),
            SubfeatureType::Pwm(sft) => sft.ratio(),
            SubfeatureType::Temperature(sft) => sft.ratio(),
            SubfeatureType::Voltage(sft) => sft.ratio(),
            SubfeatureType::Current(sft) => sft.ratio(),
            SubfeatureType::Power(sft) => sft.ratio(),
            SubfeatureType::Energy(sft) => sft.ratio(),
            SubfeatureType::Humidity(sft) => sft.ratio(),
            SubfeatureType::Intrusion(sft) => sft.ratio(),
            SubfeatureType::Cpu => Ratio::milli(),
            SubfeatureType::BeepEnable => Ratio::unity(),
        }
    }

    /// Return `true` if the subfeature variant is an alarm.
    pub fn is_alarm(self) -> (r: bool)
        ensures
            r == self.spec_is_alarm(),
    {
        match self {
            SubfeatureType::Fan(sft) => sft.is_alarm(),
            SubfeatureType::Pwm(sft) => sft.is_alarm(),
            SubfeatureType::Temperature(sft) => sft.is_alarm(),
            SubfeatureType::Voltage(sft) => sft.is_alarm(),
            SubfeatureType::Current(sft) => sft.is_alarm(),
            SubfeatureType::Power(sft) => sft.is_alarm(),
            SubfeatureType::Energy(sft) => sft.is_alarm(),
            SubfeatureType::Humidity(sft) => sft.is_alarm(),
            SubfeatureType::Intrusion(sft) => sft.is_alarm(),
            SubfeatureType::Cpu => false,
            SubfeatureType::BeepEnable => false,
        }
    }
}

/// Every subfeature type carries a well-formed ratio: its denominator is
/// never zero, so unit conversion never divides by zero.
pub proof fn lemma_ratio_wf(t: SubfeatureType)
    ensures
        t.spec_ratio().wf(),
{
    crate::ratio::lemma_canonical_ratios_distinct();
}

} // verus!
