//! The identities of the radar controls and what is fixed for each of them.
use vstd::prelude::*;

use crate::error::RadarError;
use crate::text::{
    decimal, decimal_is_read_back, eq_ignore_case, is_digit, lower_all, natural_text,
    parse_natural, same_ignoring_case, within,
};

verus! {

/// The control groups that a client shows together.
#[derive(Clone, Copy, Debug, PartialEq, Eq, Structural)]
pub enum Category {
    Base,
    Targets,
    GuardZones,
    Trails,
    Advanced,
    Installation,
    Info,
}

/// The part of the server that handles a change of a control.
#[derive(Clone, Copy, Debug, PartialEq, Eq, Structural)]
pub enum ControlDestination {
    /// Nothing: the control only reports.
    ReadOnly,
    /// The control model itself.
    Internal,
    /// The radar, by a command.
    Command,
    /// The target trails.
    Trail,
    /// The target tracker.
    Target,
}

/// The version of the client interface.
#[derive(Clone, Copy, Debug, PartialEq, Eq, Structural)]
pub enum ApiVersion {
    V1,
    V3,
}

impl Default for ApiVersion {
    /// Until another version is selected, control ids are written for the newest one.
    fn default() -> (version: Self)
        ensures
            version == ApiVersion::V3,
    {
        ApiVersion::V3
    }
}

/// The version that control ids are written for after versions were selected one after the other:
/// the last of them, or the newest version where none was selected.
pub open spec fn version_after(selected: Seq<ApiVersion>) -> ApiVersion {
    if selected.len() == 0 {
        ApiVersion::V3
    } else {
        selected.last()
    }
}

/// Selects the interface version that control ids are written for.
pub fn set_api_version(current: &mut ApiVersion, version: ApiVersion)
    ensures
        *final(current) == version,
{
    *current = version;
}

/// The interface version that control ids are written for.
pub fn get_api_version(current: &ApiVersion) -> (version: ApiVersion)
    ensures
        version == *current,
{
    *current
}

/// The radar controls, in the order in which a client lists them.
#[derive(Clone, Copy, Debug, PartialEq, Eq, Structural, Hash)]
pub enum ControlId {
    Power,
    WarmupTime,
    Range,
    Mode,
    Gain,
    ColorGain,
    Sea,
    SeaState,
    Rain,
    Doppler,
    DopplerMode,
    DopplerAutoTrack,
    ClearTargets,
    GuardZone1,
    GuardZone2,
    TargetTrails,
    TrailsMotion,
    DopplerTrailsOnly,
    ClearTrails,
    DopplerSpeedThreshold,
    NoiseRejection,
    TargetBoost,
    TargetExpansion,
    InterferenceRejection,
    TargetSeparation,
    LocalInterferenceRejection,
    BirdMode,
    ScanSpeed,
    SideLobeSuppression,
    Tune,
    Ftc,
    RangeUnits,
    MainBangSuppression,
    SeaClutterCurve,
    DisplayTiming,
    NoTransmitSector1,
    NoTransmitSector2,
    NoTransmitSector3,
    NoTransmitSector4,
    AccentLight,
    AntennaHeight,
    BearingAlignment,
    RotationSpeed,
    MagnetronCurrent,
    SignalStrength,
    OperatingTime,
    TransmitTime,
    ModelName,
    FirmwareVersion,
    SerialNumber,
    Spokes,
    SpokeLength,
    SpokeProcessing,
    UserName,
}

/// The number of control ids.
pub const CONTROL_COUNT: u8 = 54;

/// The control with a given number.
pub open spec fn control_of_number(n: int) -> Option<ControlId> {
    if n == 0 {
        Some(ControlId::Power)
    } else if n == 1 {
        Some(ControlId::WarmupTime)
    } else if n == 2 {
        Some(ControlId::Range)
    } else if n == 3 {
        Some(ControlId::Mode)
    } else if n == 4 {
        Some(ControlId::Gain)
    } else if n == 5 {
        Some(ControlId::ColorGain)
    } else if n == 6 {
        Some(ControlId::Sea)
    } else if n == 7 {
        Some(ControlId::SeaState)
    } else if n == 8 {
        Some(ControlId::Rain)
    } else if n == 9 {
        Some(ControlId::Doppler)
    } else if n == 10 {
        Some(ControlId::DopplerMode)
    } else if n == 11 {
        Some(ControlId::DopplerAutoTrack)
    } else if n == 12 {
        Some(ControlId::ClearTargets)
    } else if n == 13 {
        Some(ControlId::GuardZone1)
    } else if n == 14 {
        Some(ControlId::GuardZone2)
    } else if n == 15 {
        Some(ControlId::TargetTrails)
    } else if n == 16 {
        Some(ControlId::TrailsMotion)
    } else if n == 17 {
        Some(ControlId::DopplerTrailsOnly)
    } else if n == 18 {
        Some(ControlId::ClearTrails)
    } else if n == 19 {
        Some(ControlId::DopplerSpeedThreshold)
    } else if n == 20 {
        Some(ControlId::NoiseRejection)
    } else if n == 21 {
        Some(ControlId::TargetBoost)
    } else if n == 22 {
        Some(ControlId::TargetExpansion)
    } else if n == 23 {
        Some(ControlId::InterferenceRejection)
    } else if n == 24 {
        Some(ControlId::TargetSeparation)
    } else if n == 25 {
        Some(ControlId::LocalInterferenceRejection)
    } else if n == 26 {
        Some(ControlId::BirdMode)
    } else if n == 27 {
        Some(ControlId::ScanSpeed)
    } else if n == 28 {
        Some(ControlId::SideLobeSuppression)
    } else if n == 29 {
        Some(ControlId::Tune)
    } else if n == 30 {
        Some(ControlId::Ftc)
    } else if n == 31 {
        Some(ControlId::RangeUnits)
    } else if n == 32 {
        Some(ControlId::MainBangSuppression)
    } else if n == 33 {
        Some(ControlId::SeaClutterCurve)
    } else if n == 34 {
        Some(ControlId::DisplayTiming)
    } else if n == 35 {
        Some(ControlId::NoTransmitSector1)
    } else if n == 36 {
        Some(ControlId::NoTransmitSector2)
    } else if n == 37 {
        Some(ControlId::NoTransmitSector3)
    } else if n == 38 {
        Some(ControlId::NoTransmitSector4)
    } else if n == 39 {
        Some(ControlId::AccentLight)
    } else if n == 40 {
        Some(ControlId::AntennaHeight)
    } else if n == 41 {
        Some(ControlId::BearingAlignment)
    } else if n == 42 {
        Some(ControlId::RotationSpeed)
    } else if n == 43 {
        Some(ControlId::MagnetronCurrent)
    } else if n == 44 {
        Some(ControlId::SignalStrength)
    } else if n == 45 {
        Some(ControlId::OperatingTime)
    } else if n == 46 {
        Some(ControlId::TransmitTime)
    } else if n == 47 {
        Some(ControlId::ModelName)
    } else if n == 48 {
        Some(ControlId::FirmwareVersion)
    } else if n == 49 {
        Some(ControlId::SerialNumber)
    } else if n == 50 {
        Some(ControlId::Spokes)
    } else if n == 51 {
        Some(ControlId::SpokeLength)
    } else if n == 52 {
        Some(ControlId::SpokeProcessing)
    } else if n == 53 {
        Some(ControlId::UserName)
    } else {
        None
    }
}

/// The control that a name stands for, whatever the case of its letters.
pub open spec fn control_of_name(s: Seq<char>) -> Option<ControlId> {
    if exists|id: ControlId| same_ignoring_case(s, #[trigger] id.spec_name()) {
        Some(choose|id: ControlId| same_ignoring_case(s, #[trigger] id.spec_name()))
    } else {
        None
    }
}

/// The control that a text stands for: a number up to 255 is a control number, everything else is
/// a name.
pub open spec fn control_of_text(s: Seq<char>) -> Option<ControlId> {
    match within(natural_text(s), 0, 255) {
        Some(n) => control_of_number(n),
        None => control_of_name(s),
    }
}

impl ControlId {
    /// The number of the control.
    pub open spec fn number(self) -> int {
        match self {
            ControlId::Power => 0,
            ControlId::WarmupTime => 1,
            ControlId::Range => 2,
            ControlId::Mode => 3,
            ControlId::Gain => 4,
            ControlId::ColorGain => 5,
            ControlId::Sea => 6,
            ControlId::SeaState => 7,
            ControlId::Rain => 8,
            ControlId::Doppler => 9,
            ControlId::DopplerMode => 10,
            ControlId::DopplerAutoTrack => 11,
            ControlId::ClearTargets => 12,
            ControlId::GuardZone1 => 13,
            ControlId::GuardZone2 => 14,
            ControlId::TargetTrails => 15,
            ControlId::TrailsMotion => 16,
            ControlId::DopplerTrailsOnly => 17,
            ControlId::ClearTrails => 18,
            ControlId::DopplerSpeedThreshold => 19,
            ControlId::NoiseRejection => 20,
            ControlId::TargetBoost => 21,
            ControlId::TargetExpansion => 22,
            ControlId::InterferenceRejection => 23,
            ControlId::TargetSeparation => 24,
            ControlId::LocalInterferenceRejection => 25,
            ControlId::BirdMode => 26,
            ControlId::ScanSpeed => 27,
            ControlId::SideLobeSuppression => 28,
            ControlId::Tune => 29,
            ControlId::Ftc => 30,
            ControlId::RangeUnits => 31,
            ControlId::MainBangSuppression => 32,
            ControlId::SeaClutterCurve => 33,
            ControlId::DisplayTiming => 34,
            ControlId::NoTransmitSector1 => 35,
            ControlId::NoTransmitSector2 => 36,
            ControlId::NoTransmitSector3 => 37,
            ControlId::NoTransmitSector4 => 38,
            ControlId::AccentLight => 39,
            ControlId::AntennaHeight => 40,
            ControlId::BearingAlignment => 41,
            ControlId::RotationSpeed => 42,
            ControlId::MagnetronCurrent => 43,
            ControlId::SignalStrength => 44,
            ControlId::OperatingTime => 45,
            ControlId::TransmitTime => 46,
            ControlId::ModelName => 47,
            ControlId::FirmwareVersion => 48,
            ControlId::SerialNumber => 49,
            ControlId::Spokes => 50,
            ControlId::SpokeLength => 51,
            ControlId::SpokeProcessing => 52,
            ControlId::UserName => 53,
        }
    }

    /// The name of the control in paths and messages.
    pub open spec fn spec_name(self) -> Seq<char> {
        match self {
            ControlId::Power => "power"@,
            ControlId::WarmupTime => "warmupTime"@,
            ControlId::Range => "range"@,
            ControlId::Mode => "mode"@,
            ControlId::Gain => "gain"@,
            ControlId::ColorGain => "colorGain"@,
            ControlId::Sea => "sea"@,
            ControlId::SeaState => "seaState"@,
            ControlId::Rain => "rain"@,
            ControlId::Doppler => "doppler"@,
            ControlId::DopplerMode => "dopplerMode"@,
            ControlId::DopplerAutoTrack => "dopplerAutoTrack"@,
            ControlId::ClearTargets => "clearTargets"@,
            ControlId::GuardZone1 => "guardZone1"@,
            ControlId::GuardZone2 => "guardZone2"@,
            ControlId::TargetTrails => "targetTrails"@,
            ControlId::TrailsMotion => "trailsMotion"@,
            ControlId::DopplerTrailsOnly => "dopplerTrailsOnly"@,
            ControlId::ClearTrails => "clearTrails"@,
            ControlId::DopplerSpeedThreshold => "dopplerSpeedThreshold"@,
            ControlId::NoiseRejection => "noiseRejection"@,
            ControlId::TargetBoost => "targetBoost"@,
            ControlId::TargetExpansion => "targetExpansion"@,
            ControlId::InterferenceRejection => "interferenceRejection"@,
            ControlId::TargetSeparation => "targetSeparation"@,
            ControlId::LocalInterferenceRejection => "localInterferenceRejection"@,
            ControlId::BirdMode => "birdMode"@,
            ControlId::ScanSpeed => "scanSpeed"@,
            ControlId::SideLobeSuppression => "sideLobeSuppression"@,
            ControlId::Tune => "tune"@,
            ControlId::Ftc => "ftc"@,
            ControlId::RangeUnits => "rangeUnits"@,
            ControlId::MainBangSuppression => "mainBangSuppression"@,
            ControlId::SeaClutterCurve => "seaClutterCurve"@,
            ControlId::DisplayTiming => "displayTiming"@,
            ControlId::NoTransmitSector1 => "noTransmitSector1"@,
            ControlId::NoTransmitSector2 => "noTransmitSector2"@,
            ControlId::NoTransmitSector3 => "noTransmitSector3"@,
            ControlId::NoTransmitSector4 => "noTransmitSector4"@,
            ControlId::AccentLight => "accentLight"@,
            ControlId::AntennaHeight => "antennaHeight"@,
            ControlId::BearingAlignment => "bearingAlignment"@,
            ControlId::RotationSpeed => "rotationSpeed"@,
            ControlId::MagnetronCurrent => "magnetronCurrent"@,
            ControlId::SignalStrength => "signalStrength"@,
            ControlId::OperatingTime => "operatingTime"@,
            ControlId::TransmitTime => "transmitTime"@,
            ControlId::ModelName => "modelName"@,
            ControlId::FirmwareVersion => "firmwareVersion"@,
            ControlId::SerialNumber => "serialNumber"@,
            ControlId::Spokes => "spokes"@,
            ControlId::SpokeLength => "spokeLength"@,
            ControlId::SpokeProcessing => "spokeProcessing"@,
            ControlId::UserName => "userName"@,
        }
    }

    /// The text that describes the control.
    pub open spec fn description(self) -> Seq<char> {
        match self {
            ControlId::Power => "Radar operational state"@,
            ControlId::WarmupTime => "How long the radar still needs to warm up before transmitting"@,
            ControlId::Range => "Maximum distance the radar is looking at"@,
            ControlId::Mode => "Choice of radar mode tuning to certain conditions, or custom"@,
            ControlId::Gain => "How sensitive the radar is to returning echoes"@,
            ControlId::ColorGain => "Adjust the color curve relative to gain"@,
            ControlId::Sea => "Sea clutter suppression"@,
            ControlId::SeaState => "Sea state for sea clutter suppression"@,
            ControlId::Rain => "Rain clutter suppression"@,
            ControlId::Doppler => "Targets coming towards or going away from own ship shown in different colors"@,
            ControlId::DopplerMode => "For what type of targets Doppler is used"@,
            ControlId::DopplerAutoTrack => "Convert all Doppler targets to ARPA targets automatically"@,
            ControlId::ClearTargets => "Clear all ARPA targets"@,
            ControlId::GuardZone1 => "First guard zone for target detection"@,
            ControlId::GuardZone2 => "Second guard zone for target detection"@,
            ControlId::TargetTrails => "Whether target trails are shown"@,
            ControlId::TrailsMotion => "How target trails behave"@,
            ControlId::DopplerTrailsOnly => "Convert only Doppler targets to target trails"@,
            ControlId::ClearTrails => "Clear target trails"@,
            ControlId::DopplerSpeedThreshold => "Threshold speed above which Doppler is applied"@,
            ControlId::NoiseRejection => "Filters out noise"@,
            ControlId::TargetBoost => "Level of how much small targets are boosted"@,
            ControlId::TargetExpansion => "Increases target length for small targets"@,
            ControlId::InterferenceRejection => "Reduces interference from other radars"@,
            ControlId::TargetSeparation => "Makes separation between targets more prominent"@,
            ControlId::LocalInterferenceRejection => "How much local interference rejection is applied"@,
            ControlId::BirdMode => "Level of optimization for bird targets"@,
            ControlId::ScanSpeed => "Desired rotation speed of the radar antenna"@,
            ControlId::SideLobeSuppression => "Level of side lobe suppression"@,
            ControlId::Tune => "Method to finely tune the radar receiver"@,
            ControlId::Ftc => "FTC"@,
            ControlId::RangeUnits => "Which unit system to use for range values"@,
            ControlId::MainBangSuppression => "Main bang suppression"@,
            ControlId::SeaClutterCurve => "Sea clutter curve"@,
            ControlId::DisplayTiming => "Display timing"@,
            ControlId::NoTransmitSector1 => "First no-transmit sector"@,
            ControlId::NoTransmitSector2 => "Second no-transmit sector"@,
            ControlId::NoTransmitSector3 => "Third no-transmit sector"@,
            ControlId::NoTransmitSector4 => "Fourth no-transmit sector"@,
            ControlId::AccentLight => "Strength of the accent light"@,
            ControlId::AntennaHeight => "Height of the antenna above waterline"@,
            ControlId::BearingAlignment => "Alignment of the antenna relative to the vessel's bow"@,
            ControlId::RotationSpeed => "How quickly the radar antenna rotates"@,
            ControlId::MagnetronCurrent => "The current supplied to the magnetron"@,
            ControlId::SignalStrength => "Signal strength of the radar"@,
            ControlId::OperatingTime => "How long the radar has been operating over its lifetime"@,
            ControlId::TransmitTime => "How long the radar has been transmitting over its lifetime"@,
            ControlId::ModelName => "Manufacturer model name of the radar"@,
            ControlId::FirmwareVersion => "Version of the radar firmware"@,
            ControlId::SerialNumber => "Manufacturer serial number of the radar"@,
            ControlId::Spokes => "How many spokes the radar transmitted last rotation"@,
            ControlId::SpokeLength => "How long the spokes are that the radar transmitted last rotation"@,
            ControlId::SpokeProcessing => "How to process spoke data for display"@,
            ControlId::UserName => "User defined name for the radar"@,
        }
    }

    /// The label of the control.
    pub open spec fn label(self) -> Seq<char> {
        match self {
            ControlId::Power => "Power"@,
            ControlId::WarmupTime => "Warmup time"@,
            ControlId::Range => "Range"@,
            ControlId::Mode => "Mode"@,
            ControlId::Gain => "Gain"@,
            ControlId::ColorGain => "Color gain"@,
            ControlId::Sea => "Sea clutter"@,
            ControlId::SeaState => "Sea state"@,
            ControlId::Rain => "Rain clutter"@,
            ControlId::Doppler => "Doppler"@,
            ControlId::DopplerMode => "Doppler mode"@,
            ControlId::DopplerAutoTrack => "Doppler Auto Track"@,
            ControlId::ClearTargets => "Clear targets"@,
            ControlId::GuardZone1 => "Guard zone"@,
            ControlId::GuardZone2 => "Guard zone (2)"@,
            ControlId::TargetTrails => "Target trails"@,
            ControlId::TrailsMotion => "Target trails motion"@,
            ControlId::DopplerTrailsOnly => "Doppler trails only"@,
            ControlId::ClearTrails => "Clear trails"@,
            ControlId::DopplerSpeedThreshold => "Doppler speed threshold"@,
            ControlId::NoiseRejection => "Noise rejection"@,
            ControlId::TargetBoost => "Target boost"@,
            ControlId::TargetExpansion => "Target expansion"@,
            ControlId::InterferenceRejection => "Interference rejection"@,
            ControlId::TargetSeparation => "Target separation"@,
            ControlId::LocalInterferenceRejection => "Local interference rejection"@,
            ControlId::BirdMode => "Bird mode"@,
            ControlId::ScanSpeed => "Scan speed"@,
            ControlId::SideLobeSuppression => "Side lobe suppression"@,
            ControlId::Tune => "Tune"@,
            ControlId::Ftc => "FTC"@,
            ControlId::RangeUnits => "Range Units"@,
            ControlId::MainBangSuppression => "Main bang suppression"@,
            ControlId::SeaClutterCurve => "Sea clutter curve"@,
            ControlId::DisplayTiming => "Display timing"@,
            ControlId::NoTransmitSector1 => "No Transmit sector"@,
            ControlId::NoTransmitSector2 => "No Transmit sector (2)"@,
            ControlId::NoTransmitSector3 => "No Transmit sector (3)"@,
            ControlId::NoTransmitSector4 => "No Transmit sector (4)"@,
            ControlId::AccentLight => "Accent light"@,
            ControlId::AntennaHeight => "Antenna height"@,
            ControlId::BearingAlignment => "Bearing alignment"@,
            ControlId::RotationSpeed => "Rotation speed"@,
            ControlId::MagnetronCurrent => "Magnetron current"@,
            ControlId::SignalStrength => "Signal strength"@,
            ControlId::OperatingTime => "Operating time"@,
            ControlId::TransmitTime => "Transmit time"@,
            ControlId::ModelName => "Model name"@,
            ControlId::FirmwareVersion => "Firmware version"@,
            ControlId::SerialNumber => "Serial Number"@,
            ControlId::Spokes => "Spokes"@,
            ControlId::SpokeLength => "Spoke length"@,
            ControlId::SpokeProcessing => "Spoke Processing"@,
            ControlId::UserName => "Custom name"@,
        }
    }

    /// The group of the control.
    pub open spec fn category(self) -> Category {
        match self {
            ControlId::Power
            | ControlId::Range
            | ControlId::Mode
            | ControlId::Gain
            | ControlId::ColorGain
            | ControlId::Sea
            | ControlId::SeaState
            | ControlId::Rain
            | ControlId::Doppler
            | ControlId::DopplerMode
            | ControlId::BirdMode => Category::Base,
            ControlId::WarmupTime
            | ControlId::RotationSpeed
            | ControlId::MagnetronCurrent
            | ControlId::SignalStrength
            | ControlId::OperatingTime
            | ControlId::TransmitTime
            | ControlId::ModelName
            | ControlId::FirmwareVersion
            | ControlId::SerialNumber
            | ControlId::Spokes
            | ControlId::SpokeLength
            | ControlId::UserName => Category::Info,
            ControlId::DopplerAutoTrack
            | ControlId::ClearTargets => Category::Targets,
            ControlId::GuardZone1
            | ControlId::GuardZone2 => Category::GuardZones,
            ControlId::TargetTrails
            | ControlId::TrailsMotion
            | ControlId::DopplerTrailsOnly
            | ControlId::ClearTrails => Category::Trails,
            ControlId::RangeUnits
            | ControlId::NoTransmitSector1
            | ControlId::NoTransmitSector2
            | ControlId::NoTransmitSector3
            | ControlId::NoTransmitSector4
            | ControlId::AccentLight
            | ControlId::AntennaHeight
            | ControlId::BearingAlignment => Category::Installation,
            _ => Category::Advanced,
        }
    }

    /// The part of the server that handles a change of the control.
    pub open spec fn destination(self) -> ControlDestination {
        match self {
            ControlId::WarmupTime
            | ControlId::OperatingTime
            | ControlId::TransmitTime
            | ControlId::ModelName
            | ControlId::FirmwareVersion
            | ControlId::SerialNumber
            | ControlId::Spokes
            | ControlId::SpokeLength => ControlDestination::ReadOnly,
            ControlId::DopplerAutoTrack
            | ControlId::ClearTargets => ControlDestination::Target,
            ControlId::GuardZone1
            | ControlId::GuardZone2
            | ControlId::RangeUnits
            | ControlId::SpokeProcessing
            | ControlId::UserName => ControlDestination::Internal,
            ControlId::TargetTrails
            | ControlId::TrailsMotion
            | ControlId::DopplerTrailsOnly
            | ControlId::ClearTrails => ControlDestination::Trail,
            _ => ControlDestination::Command,
        }
    }

    /// The number of the control.
    pub fn as_u8(&self) -> (n: u8)
        ensures
            n == self.number(),
            n < CONTROL_COUNT,
    {
        match self {
            ControlId::Power => 0,
            ControlId::WarmupTime => 1,
            ControlId::Range => 2,
            ControlId::Mode => 3,
            ControlId::Gain => 4,
            ControlId::ColorGain => 5,
            ControlId::Sea => 6,
            ControlId::SeaState => 7,
            ControlId::Rain => 8,
            ControlId::Doppler => 9,
            ControlId::DopplerMode => 10,
            ControlId::DopplerAutoTrack => 11,
            ControlId::ClearTargets => 12,
            ControlId::GuardZone1 => 13,
            ControlId::GuardZone2 => 14,
            ControlId::TargetTrails => 15,
            ControlId::TrailsMotion => 16,
            ControlId::DopplerTrailsOnly => 17,
            ControlId::ClearTrails => 18,
            ControlId::DopplerSpeedThreshold => 19,
            ControlId::NoiseRejection => 20,
            ControlId::TargetBoost => 21,
            ControlId::TargetExpansion => 22,
            ControlId::InterferenceRejection => 23,
            ControlId::TargetSeparation => 24,
            ControlId::LocalInterferenceRejection => 25,
            ControlId::BirdMode => 26,
            ControlId::ScanSpeed => 27,
            ControlId::SideLobeSuppression => 28,
            ControlId::Tune => 29,
            ControlId::Ftc => 30,
            ControlId::RangeUnits => 31,
            ControlId::MainBangSuppression => 32,
            ControlId::SeaClutterCurve => 33,
            ControlId::DisplayTiming => 34,
            ControlId::NoTransmitSector1 => 35,
            ControlId::NoTransmitSector2 => 36,
            ControlId::NoTransmitSector3 => 37,
            ControlId::NoTransmitSector4 => 38,
            ControlId::AccentLight => 39,
            ControlId::AntennaHeight => 40,
            ControlId::BearingAlignment => 41,
            ControlId::RotationSpeed => 42,
            ControlId::MagnetronCurrent => 43,
            ControlId::SignalStrength => 44,
            ControlId::OperatingTime => 45,
            ControlId::TransmitTime => 46,
            ControlId::ModelName => 47,
            ControlId::FirmwareVersion => 48,
            ControlId::SerialNumber => 49,
            ControlId::Spokes => 50,
            ControlId::SpokeLength => 51,
            ControlId::SpokeProcessing => 52,
            ControlId::UserName => 53,
        }
    }

    /// The control with a given number, where there is one.
    pub fn try_from_u8(value: u8) -> (r: Option<ControlId>)
        ensures
            r == control_of_number(value as int),
            r is Some <==> value < CONTROL_COUNT,
    {
        match value {
            0 => Some(ControlId::Power),
            1 => Some(ControlId::WarmupTime),
            2 => Some(ControlId::Range),
            3 => Some(ControlId::Mode),
            4 => Some(ControlId::Gain),
            5 => Some(ControlId::ColorGain),
            6 => Some(ControlId::Sea),
            7 => Some(ControlId::SeaState),
            8 => Some(ControlId::Rain),
            9 => Some(ControlId::Doppler),
            10 => Some(ControlId::DopplerMode),
            11 => Some(ControlId::DopplerAutoTrack),
            12 => Some(ControlId::ClearTargets),
            13 => Some(ControlId::GuardZone1),
            14 => Some(ControlId::GuardZone2),
            15 => Some(ControlId::TargetTrails),
            16 => Some(ControlId::TrailsMotion),
            17 => Some(ControlId::DopplerTrailsOnly),
            18 => Some(ControlId::ClearTrails),
            19 => Some(ControlId::DopplerSpeedThreshold),
            20 => Some(ControlId::NoiseRejection),
            21 => Some(ControlId::TargetBoost),
            22 => Some(ControlId::TargetExpansion),
            23 => Some(ControlId::InterferenceRejection),
            24 => Some(ControlId::TargetSeparation),
            25 => Some(ControlId::LocalInterferenceRejection),
            26 => Some(ControlId::BirdMode),
            27 => Some(ControlId::ScanSpeed),
            28 => Some(ControlId::SideLobeSuppression),
            29 => Some(ControlId::Tune),
            30 => Some(ControlId::Ftc),
            31 => Some(ControlId::RangeUnits),
            32 => Some(ControlId::MainBangSuppression),
            33 => Some(ControlId::SeaClutterCurve),
            34 => Some(ControlId::DisplayTiming),
            35 => Some(ControlId::NoTransmitSector1),
            36 => Some(ControlId::NoTransmitSector2),
            37 => Some(ControlId::NoTransmitSector3),
            38 => Some(ControlId::NoTransmitSector4),
            39 => Some(ControlId::AccentLight),
            40 => Some(ControlId::AntennaHeight),
            41 => Some(ControlId::BearingAlignment),
            42 => Some(ControlId::RotationSpeed),
            43 => Some(ControlId::MagnetronCurrent),
            44 => Some(ControlId::SignalStrength),
            45 => Some(ControlId::OperatingTime),
            46 => Some(ControlId::TransmitTime),
            47 => Some(ControlId::ModelName),
            48 => Some(ControlId::FirmwareVersion),
            49 => Some(ControlId::SerialNumber),
            50 => Some(ControlId::Spokes),
            51 => Some(ControlId::SpokeLength),
            52 => Some(ControlId::SpokeProcessing),
            53 => Some(ControlId::UserName),
            _ => None,
        }
    }

    /// The control with a given number.
    pub fn from_u8(value: u8) -> (id: ControlId)
        requires
            value < CONTROL_COUNT,
        ensures
            control_of_number(value as int) == Some(id),
    {
        match Self::try_from_u8(value) {
            Some(id) => id,
            None => ControlId::Power,
        }
    }

    /// The name of the control in paths and messages.
    pub fn to_str(&self) -> (s: &'static str)
        ensures
            s@ == self.spec_name(),
    {
        match self {
            ControlId::Power => "power",
            ControlId::WarmupTime => "warmupTime",
            ControlId::Range => "range",
            ControlId::Mode => "mode",
            ControlId::Gain => "gain",
            ControlId::ColorGain => "colorGain",
            ControlId::Sea => "sea",
            ControlId::SeaState => "seaState",
            ControlId::Rain => "rain",
            ControlId::Doppler => "doppler",
            ControlId::DopplerMode => "dopplerMode",
            ControlId::DopplerAutoTrack => "dopplerAutoTrack",
            ControlId::ClearTargets => "clearTargets",
            ControlId::GuardZone1 => "guardZone1",
            ControlId::GuardZone2 => "guardZone2",
            ControlId::TargetTrails => "targetTrails",
            ControlId::TrailsMotion => "trailsMotion",
            ControlId::DopplerTrailsOnly => "dopplerTrailsOnly",
            ControlId::ClearTrails => "clearTrails",
            ControlId::DopplerSpeedThreshold => "dopplerSpeedThreshold",
            ControlId::NoiseRejection => "noiseRejection",
            ControlId::TargetBoost => "targetBoost",
            ControlId::TargetExpansion => "targetExpansion",
            ControlId::InterferenceRejection => "interferenceRejection",
            ControlId::TargetSeparation => "targetSeparation",
            ControlId::LocalInterferenceRejection => "localInterferenceRejection",
            ControlId::BirdMode => "birdMode",
            ControlId::ScanSpeed => "scanSpeed",
            ControlId::SideLobeSuppression => "sideLobeSuppression",
            ControlId::Tune => "tune",
            ControlId::Ftc => "ftc",
            ControlId::RangeUnits => "rangeUnits",
            ControlId::MainBangSuppression => "mainBangSuppression",
            ControlId::SeaClutterCurve => "seaClutterCurve",
            ControlId::DisplayTiming => "displayTiming",
            ControlId::NoTransmitSector1 => "noTransmitSector1",
            ControlId::NoTransmitSector2 => "noTransmitSector2",
            ControlId::NoTransmitSector3 => "noTransmitSector3",
            ControlId::NoTransmitSector4 => "noTransmitSector4",
            ControlId::AccentLight => "accentLight",
            ControlId::AntennaHeight => "antennaHeight",
            ControlId::BearingAlignment => "bearingAlignment",
            ControlId::RotationSpeed => "rotationSpeed",
            ControlId::MagnetronCurrent => "magnetronCurrent",
            ControlId::SignalStrength => "signalStrength",
            ControlId::OperatingTime => "operatingTime",
            ControlId::TransmitTime => "transmitTime",
            ControlId::ModelName => "modelName",
            ControlId::FirmwareVersion => "firmwareVersion",
            ControlId::SerialNumber => "serialNumber",
            ControlId::Spokes => "spokes",
            ControlId::SpokeLength => "spokeLength",
            ControlId::SpokeProcessing => "spokeProcessing",
            ControlId::UserName => "userName",
        }
    }

    /// The text that describes the control.
    pub fn get_description(&self) -> (s: &'static str)
        ensures
            s@ == self.description(),
    {
        match self {
            ControlId::Power => "Radar operational state",
            ControlId::WarmupTime => "How long the radar still needs to warm up before transmitting",
            ControlId::Range => "Maximum distance the radar is looking at",
            ControlId::Mode => "Choice of radar mode tuning to certain conditions, or custom",
            ControlId::Gain => "How sensitive the radar is to returning echoes",
            ControlId::ColorGain => "Adjust the color curve relative to gain",
            ControlId::Sea => "Sea clutter suppression",
            ControlId::SeaState => "Sea state for sea clutter suppression",
            ControlId::Rain => "Rain clutter suppression",
            ControlId::Doppler => "Targets coming towards or going away from own ship shown in different colors",
            ControlId::DopplerMode => "For what type of targets Doppler is used",
            ControlId::DopplerAutoTrack => "Convert all Doppler targets to ARPA targets automatically",
            ControlId::ClearTargets => "Clear all ARPA targets",
            ControlId::GuardZone1 => "First guard zone for target detection",
            ControlId::GuardZone2 => "Second guard zone for target detection",
            ControlId::TargetTrails => "Whether target trails are shown",
            ControlId::TrailsMotion => "How target trails behave",
            ControlId::DopplerTrailsOnly => "Convert only Doppler targets to target trails",
            ControlId::ClearTrails => "Clear target trails",
            ControlId::DopplerSpeedThreshold => "Threshold speed above which Doppler is applied",
            ControlId::NoiseRejection => "Filters out noise",
            ControlId::TargetBoost => "Level of how much small targets are boosted",
            ControlId::TargetExpansion => "Increases target length for small targets",
            ControlId::InterferenceRejection => "Reduces interference from other radars",
            ControlId::TargetSeparation => "Makes separation between targets more prominent",
            ControlId::LocalInterferenceRejection => "How much local interference rejection is applied",
            ControlId::BirdMode => "Level of optimization for bird targets",
            ControlId::ScanSpeed => "Desired rotation speed of the radar antenna",
            ControlId::SideLobeSuppression => "Level of side lobe suppression",
            ControlId::Tune => "Method to finely tune the radar receiver",
            ControlId::Ftc => "FTC",
            ControlId::RangeUnits => "Which unit system to use for range values",
            ControlId::MainBangSuppression => "Main bang suppression",
            ControlId::SeaClutterCurve => "Sea clutter curve",
            ControlId::DisplayTiming => "Display timing",
            ControlId::NoTransmitSector1 => "First no-transmit sector",
            ControlId::NoTransmitSector2 => "Second no-transmit sector",
            ControlId::NoTransmitSector3 => "Third no-transmit sector",
            ControlId::NoTransmitSector4 => "Fourth no-transmit sector",
            ControlId::AccentLight => "Strength of the accent light",
            ControlId::AntennaHeight => "Height of the antenna above waterline",
            ControlId::BearingAlignment => "Alignment of the antenna relative to the vessel's bow",
            ControlId::RotationSpeed => "How quickly the radar antenna rotates",
            ControlId::MagnetronCurrent => "The current supplied to the magnetron",
            ControlId::SignalStrength => "Signal strength of the radar",
            ControlId::OperatingTime => "How long the radar has been operating over its lifetime",
            ControlId::TransmitTime => "How long the radar has been transmitting over its lifetime",
            ControlId::ModelName => "Manufacturer model name of the radar",
            ControlId::FirmwareVersion => "Version of the radar firmware",
            ControlId::SerialNumber => "Manufacturer serial number of the radar",
            ControlId::Spokes => "How many spokes the radar transmitted last rotation",
            ControlId::SpokeLength => "How long the spokes are that the radar transmitted last rotation",
            ControlId::SpokeProcessing => "How to process spoke data for display",
            ControlId::UserName => "User defined name for the radar",
        }
    }

    /// The label of the control.
    pub fn get_name(&self) -> (s: &'static str)
        ensures
            s@ == self.label(),
    {
        match self {
            ControlId::Power => "Power",
            ControlId::WarmupTime => "Warmup time",
            ControlId::Range => "Range",
            ControlId::Mode => "Mode",
            ControlId::Gain => "Gain",
            ControlId::ColorGain => "Color gain",
            ControlId::Sea => "Sea clutter",
            ControlId::SeaState => "Sea state",
            ControlId::Rain => "Rain clutter",
            ControlId::Doppler => "Doppler",
            ControlId::DopplerMode => "Doppler mode",
            ControlId::DopplerAutoTrack => "Doppler Auto Track",
            ControlId::ClearTargets => "Clear targets",
            ControlId::GuardZone1 => "Guard zone",
            ControlId::GuardZone2 => "Guard zone (2)",
            ControlId::TargetTrails => "Target trails",
            ControlId::TrailsMotion => "Target trails motion",
            ControlId::DopplerTrailsOnly => "Doppler trails only",
            ControlId::ClearTrails => "Clear trails",
            ControlId::DopplerSpeedThreshold => "Doppler speed threshold",
            ControlId::NoiseRejection => "Noise rejection",
            ControlId::TargetBoost => "Target boost",
            ControlId::TargetExpansion => "Target expansion",
            ControlId::InterferenceRejection => "Interference rejection",
            ControlId::TargetSeparation => "Target separation",
            ControlId::LocalInterferenceRejection => "Local interference rejection",
            ControlId::BirdMode => "Bird mode",
            ControlId::ScanSpeed => "Scan speed",
            ControlId::SideLobeSuppression => "Side lobe suppression",
            ControlId::Tune => "Tune",
            ControlId::Ftc => "FTC",
            ControlId::RangeUnits => "Range Units",
            ControlId::MainBangSuppression => "Main bang suppression",
            ControlId::SeaClutterCurve => "Sea clutter curve",
            ControlId::DisplayTiming => "Display timing",
            ControlId::NoTransmitSector1 => "No Transmit sector",
            ControlId::NoTransmitSector2 => "No Transmit sector (2)",
            ControlId::NoTransmitSector3 => "No Transmit sector (3)",
            ControlId::NoTransmitSector4 => "No Transmit sector (4)",
            ControlId::AccentLight => "Accent light",
            ControlId::AntennaHeight => "Antenna height",
            ControlId::BearingAlignment => "Bearing alignment",
            ControlId::RotationSpeed => "Rotation speed",
            ControlId::MagnetronCurrent => "Magnetron current",
            ControlId::SignalStrength => "Signal strength",
            ControlId::OperatingTime => "Operating time",
            ControlId::TransmitTime => "Transmit time",
            ControlId::ModelName => "Model name",
            ControlId::FirmwareVersion => "Firmware version",
            ControlId::SerialNumber => "Serial Number",
            ControlId::Spokes => "Spokes",
            ControlId::SpokeLength => "Spoke length",
            ControlId::SpokeProcessing => "Spoke Processing",
            ControlId::UserName => "Custom name",
        }
    }

    /// The group of the control.
    pub fn get_category(&self) -> (c: Category)
        ensures
            c == self.category(),
    {
        match self {
            ControlId::Power
            | ControlId::Range
            | ControlId::Mode
            | ControlId::Gain
            | ControlId::ColorGain
            | ControlId::Sea
            | ControlId::SeaState
            | ControlId::Rain
            | ControlId::Doppler
            | ControlId::DopplerMode
            | ControlId::BirdMode => Category::Base,
            ControlId::WarmupTime
            | ControlId::RotationSpeed
            | ControlId::MagnetronCurrent
            | ControlId::SignalStrength
            | ControlId::OperatingTime
            | ControlId::TransmitTime
            | ControlId::ModelName
            | ControlId::FirmwareVersion
            | ControlId::SerialNumber
            | ControlId::Spokes
            | ControlId::SpokeLength
            | ControlId::UserName => Category::Info,
            ControlId::DopplerAutoTrack
            | ControlId::ClearTargets => Category::Targets,
            ControlId::GuardZone1
            | ControlId::GuardZone2 => Category::GuardZones,
            ControlId::TargetTrails
            | ControlId::TrailsMotion
            | ControlId::DopplerTrailsOnly
            | ControlId::ClearTrails => Category::Trails,
            ControlId::DopplerSpeedThreshold
            | ControlId::NoiseRejection
            | ControlId::TargetBoost
            | ControlId::TargetExpansion
            | ControlId::InterferenceRejection
            | ControlId::TargetSeparation
            | ControlId::LocalInterferenceRejection
            | ControlId::ScanSpeed
            | ControlId::SideLobeSuppression
            | ControlId::Tune
            | ControlId::Ftc
            | ControlId::MainBangSuppression
            | ControlId::SeaClutterCurve
            | ControlId::DisplayTiming
            | ControlId::SpokeProcessing => Category::Advanced,
            ControlId::RangeUnits
            | ControlId::NoTransmitSector1
            | ControlId::NoTransmitSector2
            | ControlId::NoTransmitSector3
            | ControlId::NoTransmitSector4
            | ControlId::AccentLight
            | ControlId::AntennaHeight
            | ControlId::BearingAlignment => Category::Installation,
        }
    }

    /// The part of the server that handles a change of the control.
    pub fn get_destination(&self) -> (d: ControlDestination)
        ensures
            d == self.destination(),
    {
        match self {
            ControlId::Power
            | ControlId::Range
            | ControlId::Mode
            | ControlId::Gain
            | ControlId::ColorGain
            | ControlId::Sea
            | ControlId::SeaState
            | ControlId::Rain
            | ControlId::Doppler
            | ControlId::DopplerMode
            | ControlId::DopplerSpeedThreshold
            | ControlId::NoiseRejection
            | ControlId::TargetBoost
            | ControlId::TargetExpansion
            | ControlId::InterferenceRejection
            | ControlId::TargetSeparation
            | ControlId::LocalInterferenceRejection
            | ControlId::BirdMode
            | ControlId::ScanSpeed
            | ControlId::SideLobeSuppression
            | ControlId::Tune
            | ControlId::Ftc
            | ControlId::MainBangSuppression
            | ControlId::SeaClutterCurve
            | ControlId::DisplayTiming
            | ControlId::NoTransmitSector1
            | ControlId::NoTransmitSector2
            | ControlId::NoTransmitSector3
            | ControlId::NoTransmitSector4
            | ControlId::AccentLight
            | ControlId::AntennaHeight
            | ControlId::BearingAlignment
            | ControlId::RotationSpeed
            | ControlId::MagnetronCurrent
            | ControlId::SignalStrength => ControlDestination::Command,
            ControlId::WarmupTime
            | ControlId::OperatingTime
            | ControlId::TransmitTime
            | ControlId::ModelName
            | ControlId::FirmwareVersion
            | ControlId::SerialNumber
            | ControlId::Spokes
            | ControlId::SpokeLength => ControlDestination::ReadOnly,
            ControlId::DopplerAutoTrack
            | ControlId::ClearTargets => ControlDestination::Target,
            ControlId::GuardZone1
            | ControlId::GuardZone2
            | ControlId::RangeUnits
            | ControlId::SpokeProcessing
            | ControlId::UserName => ControlDestination::Internal,
            ControlId::TargetTrails
            | ControlId::TrailsMotion
            | ControlId::DopplerTrailsOnly
            | ControlId::ClearTrails => ControlDestination::Trail,
        }
    }

    /// Looks up a control by its name, whatever the case of its letters.
    pub fn from_name(s: &str) -> (r: Option<ControlId>)
        ensures
            r == control_of_name(s@),
    {
        let mut n: u8 = 0;
        while n < CONTROL_COUNT
            invariant
                n <= CONTROL_COUNT,
                forall|id: ControlId|
                    id.number() < n ==> !same_ignoring_case(s@, #[trigger] id.spec_name()),
            decreases CONTROL_COUNT - n,
        {
            let id = Self::from_u8(n);
            proof {
                number_is_inverse(id, n as int);
            }
            if eq_ignore_case(s, id.to_str()) {
                proof {
                    assert(same_ignoring_case(s@, id.spec_name()));
                    let chosen = choose|c: ControlId| same_ignoring_case(s@, #[trigger] c.spec_name());
                    names_differ(id, chosen);
                }
                return Some(id);
            }
            proof {
                assert forall|c: ControlId| c.number() < n + 1 implies !same_ignoring_case(
                    s@,
                    #[trigger] c.spec_name(),
                ) by {
                    if c.number() == n {
                        number_is_inverse(c, n as int);
                    }
                }
            }
            n = n + 1;
        }
        proof {
            assert forall|c: ControlId| !same_ignoring_case(s@, #[trigger] c.spec_name()) by {
                number_in_range(c);
            }
        }
        None
    }

    /// Reads a control id: its number, or its name in any case.
    pub fn parse_str(s: &str) -> (r: Result<ControlId, RadarError>)
        ensures
            match r {
                Ok(id) => control_of_text(s@) == Some(id),
                Err(RadarError::InvalidControlId(message)) => control_of_text(s@) is None
                    && message@ == "invalid ControlId discriminant"@,
                Err(_) => false,
            },
    {
        let found = match parse_natural(s, 255) {
            Some(n) => Self::try_from_u8(n as u8),
            None => Self::from_name(s),
        };
        match found {
            Some(id) => Ok(id),
            None => Err(
                RadarError::InvalidControlId(
                    String::from_str("invalid ControlId discriminant"),
                ),
            ),
        }
    }

    /// The text form of the id in a given interface version: its number in the first version, its
    /// name in the third.
    pub fn serialize(&self, version: ApiVersion) -> (s: String)
        ensures
            s@ == self.serialized(version),
    {
        match version {
            ApiVersion::V3 => String::from_str(self.to_str()),
            ApiVersion::V1 => format_number(self.as_u8()),
        }
    }

    /// The text form of the id in a given interface version.
    pub open spec fn serialized(self, version: ApiVersion) -> Seq<char> {
        match version {
            ApiVersion::V3 => self.spec_name(),
            ApiVersion::V1 => decimal(self.number() as nat),
        }
    }
}

/// `itoa::Buffer::format` writes an integer in decimal, without leading zeros.
#[verifier::external_body]
fn format_number(n: u8) -> (s: String)
    ensures
        s@ == decimal(n as nat),
{
    let mut buffer = itoa::Buffer::new();
    buffer.format(n).to_string()
}

/// Whoever starts with the default version and selects versions one after the other reads, after each
/// selection, the version that was selected last, and before the first one the newest version. To
/// read it changes nothing.
pub proof fn version_is_the_last_selected(states: Seq<ApiVersion>, selected: Seq<ApiVersion>, n: int)
    requires
        states.len() == selected.len() + 1,
        call_ensures(ApiVersion::default, (), states[0]),
        forall|i: int| 0 <= i < selected.len() ==> #[trigger] states[i + 1] == selected[i],
        0 <= n <= selected.len(),
    ensures
        states[n] == version_after(selected.take(n)),
        forall|read: ApiVersion| #[trigger]
            call_ensures(get_api_version, (&states[n],), read) ==> read == states[n],
{
    if n > 0 {
        assert(states[n - 1 + 1] == selected[n - 1]);
        assert(selected.take(n).last() == selected[n - 1]);
    }
}

/// A control has the number that leads back to it, and no other.
pub proof fn number_is_inverse(id: ControlId, n: int)
    ensures
        control_of_number(n) == Some(id) <==> id.number() == n,
{
}

/// Control numbers are below the number of controls.
pub proof fn number_in_range(id: ControlId)
    ensures
        0 <= id.number() < CONTROL_COUNT,
{
}

/// A letter or a digit of ASCII.
pub open spec fn is_alphanumeric(c: char) -> bool {
    ('a' <= c && c <= 'z') || ('A' <= c && c <= 'Z') || ('0' <= c && c <= '9')
}

spec fn mark(s: Seq<char>) -> (int, char, char) {
    (s.len() as int, s[0], s[s.len() - 1])
}

spec fn control_of_mark(m: (int, char, char)) -> ControlId {
    if m == (5int, 'p', 'r') {
        ControlId::Power
    } else if m == (10int, 'w', 'e') {
        ControlId::WarmupTime
    } else if m == (5int, 'r', 'e') {
        ControlId::Range
    } else if m == (4int, 'm', 'e') {
        ControlId::Mode
    } else if m == (4int, 'g', 'n') {
        ControlId::Gain
    } else if m == (9int, 'c', 'n') {
        ControlId::ColorGain
    } else if m == (3int, 's', 'a') {
        ControlId::Sea
    } else if m == (8int, 's', 'e') {
        ControlId::SeaState
    } else if m == (4int, 'r', 'n') {
        ControlId::Rain
    } else if m == (7int, 'd', 'r') {
        ControlId::Doppler
    } else if m == (11int, 'd', 'e') {
        ControlId::DopplerMode
    } else if m == (16int, 'd', 'k') {
        ControlId::DopplerAutoTrack
    } else if m == (12int, 'c', 's') {
        ControlId::ClearTargets
    } else if m == (10int, 'g', '1') {
        ControlId::GuardZone1
    } else if m == (10int, 'g', '2') {
        ControlId::GuardZone2
    } else if m == (12int, 't', 's') {
        ControlId::TargetTrails
    } else if m == (12int, 't', 'n') {
        ControlId::TrailsMotion
    } else if m == (17int, 'd', 'y') {
        ControlId::DopplerTrailsOnly
    } else if m == (11int, 'c', 's') {
        ControlId::ClearTrails
    } else if m == (21int, 'd', 'd') {
        ControlId::DopplerSpeedThreshold
    } else if m == (14int, 'n', 'n') {
        ControlId::NoiseRejection
    } else if m == (11int, 't', 't') {
        ControlId::TargetBoost
    } else if m == (15int, 't', 'n') {
        ControlId::TargetExpansion
    } else if m == (21int, 'i', 'n') {
        ControlId::InterferenceRejection
    } else if m == (16int, 't', 'n') {
        ControlId::TargetSeparation
    } else if m == (26int, 'l', 'n') {
        ControlId::LocalInterferenceRejection
    } else if m == (8int, 'b', 'e') {
        ControlId::BirdMode
    } else if m == (9int, 's', 'd') {
        ControlId::ScanSpeed
    } else if m == (19int, 's', 'n') {
        ControlId::SideLobeSuppression
    } else if m == (4int, 't', 'e') {
        ControlId::Tune
    } else if m == (3int, 'f', 'c') {
        ControlId::Ftc
    } else if m == (10int, 'r', 's') {
        ControlId::RangeUnits
    } else if m == (19int, 'm', 'n') {
        ControlId::MainBangSuppression
    } else if m == (15int, 's', 'e') {
        ControlId::SeaClutterCurve
    } else if m == (13int, 'd', 'g') {
        ControlId::DisplayTiming
    } else if m == (17int, 'n', '1') {
        ControlId::NoTransmitSector1
    } else if m == (17int, 'n', '2') {
        ControlId::NoTransmitSector2
    } else if m == (17int, 'n', '3') {
        ControlId::NoTransmitSector3
    } else if m == (17int, 'n', '4') {
        ControlId::NoTransmitSector4
    } else if m == (11int, 'a', 't') {
        ControlId::AccentLight
    } else if m == (13int, 'a', 't') {
        ControlId::AntennaHeight
    } else if m == (16int, 'b', 't') {
        ControlId::BearingAlignment
    } else if m == (13int, 'r', 'd') {
        ControlId::RotationSpeed
    } else if m == (16int, 'm', 't') {
        ControlId::MagnetronCurrent
    } else if m == (14int, 's', 'h') {
        ControlId::SignalStrength
    } else if m == (13int, 'o', 'e') {
        ControlId::OperatingTime
    } else if m == (12int, 't', 'e') {
        ControlId::TransmitTime
    } else if m == (9int, 'm', 'e') {
        ControlId::ModelName
    } else if m == (15int, 'f', 'n') {
        ControlId::FirmwareVersion
    } else if m == (12int, 's', 'r') {
        ControlId::SerialNumber
    } else if m == (6int, 's', 's') {
        ControlId::Spokes
    } else if m == (11int, 's', 'h') {
        ControlId::SpokeLength
    } else if m == (15int, 's', 'g') {
        ControlId::SpokeProcessing
    } else if m == (8int, 'u', 'e') {
        ControlId::UserName
    } else {
        ControlId::Power
    }
}

/// What the names look like, one by one: they start with a letter, are made of letters and digits, and
/// have marks of their own.
proof fn name_facts(id: ControlId)
    ensures
        control_of_mark(mark(lower_all(id.spec_name()))) == id,
        id.spec_name().len() > 0,
        !is_digit(id.spec_name()[0]),
        forall|i: int| 0 <= i < id.spec_name().len() ==> is_alphanumeric(#[trigger] id.spec_name()[i]),
{
    match id {
        ControlId::Power => {
            reveal_strlit("power");
        },
        ControlId::WarmupTime => {
            reveal_strlit("warmupTime");
        },
        ControlId::Range => {
            reveal_strlit("range");
        },
        ControlId::Mode => {
            reveal_strlit("mode");
        },
        ControlId::Gain => {
            reveal_strlit("gain");
        },
        ControlId::ColorGain => {
            reveal_strlit("colorGain");
        },
        ControlId::Sea => {
            reveal_strlit("sea");
        },
        ControlId::SeaState => {
            reveal_strlit("seaState");
        },
        ControlId::Rain => {
            reveal_strlit("rain");
        },
        ControlId::Doppler => {
            reveal_strlit("doppler");
        },
        ControlId::DopplerMode => {
            reveal_strlit("dopplerMode");
        },
        ControlId::DopplerAutoTrack => {
            reveal_strlit("dopplerAutoTrack");
        },
        ControlId::ClearTargets => {
            reveal_strlit("clearTargets");
        },
        ControlId::GuardZone1 => {
            reveal_strlit("guardZone1");
        },
        ControlId::GuardZone2 => {
            reveal_strlit("guardZone2");
        },
        ControlId::TargetTrails => {
            reveal_strlit("targetTrails");
        },
        ControlId::TrailsMotion => {
            reveal_strlit("trailsMotion");
        },
        ControlId::DopplerTrailsOnly => {
            reveal_strlit("dopplerTrailsOnly");
        },
        ControlId::ClearTrails => {
            reveal_strlit("clearTrails");
        },
        ControlId::DopplerSpeedThreshold => {
            reveal_strlit("dopplerSpeedThreshold");
        },
        ControlId::NoiseRejection => {
            reveal_strlit("noiseRejection");
        },
        ControlId::TargetBoost => {
            reveal_strlit("targetBoost");
        },
        ControlId::TargetExpansion => {
            reveal_strlit("targetExpansion");
        },
        ControlId::InterferenceRejection => {
            reveal_strlit("interferenceRejection");
        },
        ControlId::TargetSeparation => {
            reveal_strlit("targetSeparation");
        },
        ControlId::LocalInterferenceRejection => {
            reveal_strlit("localInterferenceRejection");
        },
        ControlId::BirdMode => {
            reveal_strlit("birdMode");
        },
        ControlId::ScanSpeed => {
            reveal_strlit("scanSpeed");
        },
        ControlId::SideLobeSuppression => {
            reveal_strlit("sideLobeSuppression");
        },
        ControlId::Tune => {
            reveal_strlit("tune");
        },
        ControlId::Ftc => {
            reveal_strlit("ftc");
        },
        ControlId::RangeUnits => {
            reveal_strlit("rangeUnits");
        },
        ControlId::MainBangSuppression => {
            reveal_strlit("mainBangSuppression");
        },
        ControlId::SeaClutterCurve => {
            reveal_strlit("seaClutterCurve");
        },
        ControlId::DisplayTiming => {
            reveal_strlit("displayTiming");
        },
        ControlId::NoTransmitSector1 => {
            reveal_strlit("noTransmitSector1");
        },
        ControlId::NoTransmitSector2 => {
            reveal_strlit("noTransmitSector2");
        },
        ControlId::NoTransmitSector3 => {
            reveal_strlit("noTransmitSector3");
        },
        ControlId::NoTransmitSector4 => {
            reveal_strlit("noTransmitSector4");
        },
        ControlId::AccentLight => {
            reveal_strlit("accentLight");
        },
        ControlId::AntennaHeight => {
            reveal_strlit("antennaHeight");
        },
        ControlId::BearingAlignment => {
            reveal_strlit("bearingAlignment");
        },
        ControlId::RotationSpeed => {
            reveal_strlit("rotationSpeed");
        },
        ControlId::MagnetronCurrent => {
            reveal_strlit("magnetronCurrent");
        },
        ControlId::SignalStrength => {
            reveal_strlit("signalStrength");
        },
        ControlId::OperatingTime => {
            reveal_strlit("operatingTime");
        },
        ControlId::TransmitTime => {
            reveal_strlit("transmitTime");
        },
        ControlId::ModelName => {
            reveal_strlit("modelName");
        },
        ControlId::FirmwareVersion => {
            reveal_strlit("firmwareVersion");
        },
        ControlId::SerialNumber => {
            reveal_strlit("serialNumber");
        },
        ControlId::Spokes => {
            reveal_strlit("spokes");
        },
        ControlId::SpokeLength => {
            reveal_strlit("spokeLength");
        },
        ControlId::SpokeProcessing => {
            reveal_strlit("spokeProcessing");
        },
        ControlId::UserName => {
            reveal_strlit("userName");
        },
    }
}

/// No two controls have names that differ only in case.
pub proof fn names_differ(a: ControlId, b: ControlId)
    requires
        same_ignoring_case(a.spec_name(), b.spec_name()),
    ensures
        a == b,
{
    name_facts(a);
    name_facts(b);
}

/// The names of controls are made of letters and digits.
pub proof fn names_are_alphanumeric(id: ControlId)
    ensures
        forall|i: int| 0 <= i < id.spec_name().len() ==> is_alphanumeric(#[trigger] id.spec_name()[i]),
{
    name_facts(id);
}

spec fn description_mark(s: Seq<char>) -> (int, char, char) {
    (s.len() as int, s[0], s[s.len() - 3])
}

spec fn control_of_description_mark(m: (int, char, char)) -> ControlId {
    if m == (23int, 'R', 'a') {
        ControlId::Power
    } else if m == (61int, 'H', 'i') {
        ControlId::WarmupTime
    } else if m == (40int, 'M', ' ') {
        ControlId::Range
    } else if m == (60int, 'C', 't') {
        ControlId::Mode
    } else if m == (46int, 'H', 'o') {
        ControlId::Gain
    } else if m == (39int, 'A', 'a') {
        ControlId::ColorGain
    } else if m == (23int, 'S', 'i') {
        ControlId::Sea
    } else if m == (37int, 'S', 'i') {
        ControlId::SeaState
    } else if m == (24int, 'R', 'i') {
        ControlId::Rain
    } else if m == (76int, 'T', 'o') {
        ControlId::Doppler
    } else if m == (40int, 'F', 's') {
        ControlId::DopplerMode
    } else if m == (57int, 'C', 'l') {
        ControlId::DopplerAutoTrack
    } else if m == (22int, 'C', 'e') {
        ControlId::ClearTargets
    } else if m == (37int, 'F', 'i') {
        ControlId::GuardZone1
    } else if m == (38int, 'S', 'i') {
        ControlId::GuardZone2
    } else if m == (31int, 'W', 'o') {
        ControlId::TargetTrails
    } else if m == (24int, 'H', 'a') {
        ControlId::TrailsMotion
    } else if m == (45int, 'C', 'i') {
        ControlId::DopplerTrailsOnly
    } else if m == (19int, 'C', 'i') {
        ControlId::ClearTrails
    } else if m == (46int, 'T', 'i') {
        ControlId::DopplerSpeedThreshold
    } else if m == (17int, 'F', 'i') {
        ControlId::NoiseRejection
    } else if m == (43int, 'L', 't') {
        ControlId::TargetBoost
    } else if m == (41int, 'I', 'e') {
        ControlId::TargetExpansion
    } else if m == (38int, 'R', 'a') {
        ControlId::InterferenceRejection
    } else if m == (47int, 'M', 'e') {
        ControlId::TargetSeparation
    } else if m == (48int, 'H', 'i') {
        ControlId::LocalInterferenceRejection
    } else if m == (38int, 'L', 'e') {
        ControlId::BirdMode
    } else if m == (43int, 'D', 'n') {
        ControlId::ScanSpeed
    } else if m == (30int, 'L', 'i') {
        ControlId::SideLobeSuppression
    } else if m == (40int, 'M', 'v') {
        ControlId::Tune
    } else if m == (3int, 'F', 'F') {
        ControlId::Ftc
    } else if m == (41int, 'W', 'u') {
        ControlId::RangeUnits
    } else if m == (21int, 'M', 'i') {
        ControlId::MainBangSuppression
    } else if m == (17int, 'S', 'r') {
        ControlId::SeaClutterCurve
    } else if m == (14int, 'D', 'i') {
        ControlId::DisplayTiming
    } else if m == (24int, 'F', 't') {
        ControlId::NoTransmitSector1
    } else if m == (25int, 'S', 't') {
        ControlId::NoTransmitSector2
    } else if m == (24int, 'T', 't') {
        ControlId::NoTransmitSector3
    } else if m == (25int, 'F', 't') {
        ControlId::NoTransmitSector4
    } else if m == (28int, 'S', 'g') {
        ControlId::AccentLight
    } else if m == (37int, 'H', 'i') {
        ControlId::AntennaHeight
    } else if m == (53int, 'A', 'b') {
        ControlId::BearingAlignment
    } else if m == (37int, 'H', 't') {
        ControlId::RotationSpeed
    } else if m == (37int, 'T', 'r') {
        ControlId::MagnetronCurrent
    } else if m == (28int, 'S', 'd') {
        ControlId::SignalStrength
    } else if m == (55int, 'H', 'i') {
        ControlId::OperatingTime
    } else if m == (58int, 'H', 'i') {
        ControlId::TransmitTime
    } else if m == (36int, 'M', 'd') {
        ControlId::ModelName
    } else if m == (29int, 'V', 'a') {
        ControlId::FirmwareVersion
    } else if m == (39int, 'M', 'd') {
        ControlId::SerialNumber
    } else if m == (51int, 'H', 'i') {
        ControlId::Spokes
    } else if m == (64int, 'H', 'i') {
        ControlId::SpokeLength
    } else if m == (37int, 'H', 'l') {
        ControlId::SpokeProcessing
    } else if m == (31int, 'U', 'd') {
        ControlId::UserName
    } else {
        ControlId::Power
    }
}

proof fn description_facts(id: ControlId)
    ensures
        id.description().len() > 0,
        control_of_description_mark(description_mark(id.description())) == id,
{
    match id {
        ControlId::Power => {
            reveal_strlit("Radar operational state");
        },
        ControlId::WarmupTime => {
            reveal_strlit("How long the radar still needs to warm up before transmitting");
        },
        ControlId::Range => {
            reveal_strlit("Maximum distance the radar is looking at");
        },
        ControlId::Mode => {
            reveal_strlit("Choice of radar mode tuning to certain conditions, or custom");
        },
        ControlId::Gain => {
            reveal_strlit("How sensitive the radar is to returning echoes");
        },
        ControlId::ColorGain => {
            reveal_strlit("Adjust the color curve relative to gain");
        },
        ControlId::Sea => {
            reveal_strlit("Sea clutter suppression");
        },
        ControlId::SeaState => {
            reveal_strlit("Sea state for sea clutter suppression");
        },
        ControlId::Rain => {
            reveal_strlit("Rain clutter suppression");
        },
        ControlId::Doppler => {
            reveal_strlit("Targets coming towards or going away from own ship shown in different colors");
        },
        ControlId::DopplerMode => {
            reveal_strlit("For what type of targets Doppler is used");
        },
        ControlId::DopplerAutoTrack => {
            reveal_strlit("Convert all Doppler targets to ARPA targets automatically");
        },
        ControlId::ClearTargets => {
            reveal_strlit("Clear all ARPA targets");
        },
        ControlId::GuardZone1 => {
            reveal_strlit("First guard zone for target detection");
        },
        ControlId::GuardZone2 => {
            reveal_strlit("Second guard zone for target detection");
        },
        ControlId::TargetTrails => {
            reveal_strlit("Whether target trails are shown");
        },
        ControlId::TrailsMotion => {
            reveal_strlit("How target trails behave");
        },
        ControlId::DopplerTrailsOnly => {
            reveal_strlit("Convert only Doppler targets to target trails");
        },
        ControlId::ClearTrails => {
            reveal_strlit("Clear target trails");
        },
        ControlId::DopplerSpeedThreshold => {
            reveal_strlit("Threshold speed above which Doppler is applied");
        },
        ControlId::NoiseRejection => {
            reveal_strlit("Filters out noise");
        },
        ControlId::TargetBoost => {
            reveal_strlit("Level of how much small targets are boosted");
        },
        ControlId::TargetExpansion => {
            reveal_strlit("Increases target length for small targets");
        },
        ControlId::InterferenceRejection => {
            reveal_strlit("Reduces interference from other radars");
        },
        ControlId::TargetSeparation => {
            reveal_strlit("Makes separation between targets more prominent");
        },
        ControlId::LocalInterferenceRejection => {
            reveal_strlit("How much local interference rejection is applied");
        },
        ControlId::BirdMode => {
            reveal_strlit("Level of optimization for bird targets");
        },
        ControlId::ScanSpeed => {
            reveal_strlit("Desired rotation speed of the radar antenna");
        },
        ControlId::SideLobeSuppression => {
            reveal_strlit("Level of side lobe suppression");
        },
        ControlId::Tune => {
            reveal_strlit("Method to finely tune the radar receiver");
        },
        ControlId::Ftc => {
            reveal_strlit("FTC");
        },
        ControlId::RangeUnits => {
            reveal_strlit("Which unit system to use for range values");
        },
        ControlId::MainBangSuppression => {
            reveal_strlit("Main bang suppression");
        },
        ControlId::SeaClutterCurve => {
            reveal_strlit("Sea clutter curve");
        },
        ControlId::DisplayTiming => {
            reveal_strlit("Display timing");
        },
        ControlId::NoTransmitSector1 => {
            reveal_strlit("First no-transmit sector");
        },
        ControlId::NoTransmitSector2 => {
            reveal_strlit("Second no-transmit sector");
        },
        ControlId::NoTransmitSector3 => {
            reveal_strlit("Third no-transmit sector");
        },
        ControlId::NoTransmitSector4 => {
            reveal_strlit("Fourth no-transmit sector");
        },
        ControlId::AccentLight => {
            reveal_strlit("Strength of the accent light");
        },
        ControlId::AntennaHeight => {
            reveal_strlit("Height of the antenna above waterline");
        },
        ControlId::BearingAlignment => {
            reveal_strlit("Alignment of the antenna relative to the vessel's bow");
        },
        ControlId::RotationSpeed => {
            reveal_strlit("How quickly the radar antenna rotates");
        },
        ControlId::MagnetronCurrent => {
            reveal_strlit("The current supplied to the magnetron");
        },
        ControlId::SignalStrength => {
            reveal_strlit("Signal strength of the radar");
        },
        ControlId::OperatingTime => {
            reveal_strlit("How long the radar has been operating over its lifetime");
        },
        ControlId::TransmitTime => {
            reveal_strlit("How long the radar has been transmitting over its lifetime");
        },
        ControlId::ModelName => {
            reveal_strlit("Manufacturer model name of the radar");
        },
        ControlId::FirmwareVersion => {
            reveal_strlit("Version of the radar firmware");
        },
        ControlId::SerialNumber => {
            reveal_strlit("Manufacturer serial number of the radar");
        },
        ControlId::Spokes => {
            reveal_strlit("How many spokes the radar transmitted last rotation");
        },
        ControlId::SpokeLength => {
            reveal_strlit("How long the spokes are that the radar transmitted last rotation");
        },
        ControlId::SpokeProcessing => {
            reveal_strlit("How to process spoke data for display");
        },
        ControlId::UserName => {
            reveal_strlit("User defined name for the radar");
        },
    }
}

/// Every control is described.
pub proof fn descriptions_are_not_empty(id: ControlId)
    ensures
        id.description().len() > 0,
{
    description_facts(id);
}

/// No two controls have the same description.
pub proof fn descriptions_differ(a: ControlId, b: ControlId)
    requires
        a.description() == b.description(),
    ensures
        a == b,
{
    description_facts(a);
    description_facts(b);
}

/// What is written for a control is read back as that control, in both interface versions.
pub proof fn serialized_is_read_back(id: ControlId, version: ApiVersion)
    ensures
        control_of_text(id.serialized(version)) == Some(id),
{
    number_in_range(id);
    match version {
        ApiVersion::V1 => {
            decimal_is_read_back(id.number() as nat);
        },
        ApiVersion::V3 => {
            name_facts(id);
            let s = id.spec_name();
            assert(same_ignoring_case(s, id.spec_name()));
            let chosen = choose|c: ControlId| same_ignoring_case(s, #[trigger] c.spec_name());
            names_differ(id, chosen);
        },
    }
}

} // verus!
