//! The models of Navico radars.
use vstd::prelude::*;

use crate::control_id::ControlId;
use crate::text::same_text;

verus! {

/// The number of spokes of a revolution.
pub const NAVICO_SPOKES: usize = 2048;

/// The length of a spoke in pixels. Every pixel is four bits.
pub const NAVICO_SPOKE_LEN: usize = 1024;

/// Spokes are numbered up to this, but only every other number is used.
pub const NAVICO_SPOKES_RAW: u16 = 4096;

/// The length of a spoke in bytes.
pub const RADAR_LINE_DATA_LENGTH: usize = 512;

/// The models that reports tell apart.
#[derive(Clone, Copy, Debug, PartialEq, Eq, Structural)]
pub enum Model {
    Unknown,
    BR24,
    Gen3,
    Gen4,
    HALO,
    /// One of the two: the length of another report tells.
    HaloOrG4,
}

impl Model {
    /// The name of the model.
    pub open spec fn spec_name(self) -> Seq<char> {
        match self {
            Model::Unknown => ""@,
            Model::BR24 => "BR24"@,
            Model::Gen3 => "3G"@,
            Model::Gen4 => "4G"@,
            Model::HALO => "HALO"@,
            Model::HaloOrG4 => "HALO or 4G"@,
        }
    }

    /// The model with a given name.
    pub open spec fn named(s: Seq<char>) -> Model {
        if s == "BR24"@ {
            Model::BR24
        } else if s == "3G"@ {
            Model::Gen3
        } else if s == "4G"@ {
            Model::Gen4
        } else if s == "HALO"@ {
            Model::HALO
        } else {
            Model::Unknown
        }
    }

    /// The model that a byte of a report stands for.
    pub open spec fn of_byte(b: int) -> Model {
        if b == 0x0e || b == 0x0f {
            Model::BR24
        } else if b == 0x08 {
            Model::Gen3
        } else if b == 0x01 {
            Model::HaloOrG4
        } else if b == 0x00 {
            Model::HALO
        } else {
            Model::Unknown
        }
    }

    /// Reads the name of a model.
    pub fn new(s: &str) -> (model: Model)
        ensures
            model == Model::named(s@),
    {
        if same_text(s, "BR24") {
            Model::BR24
        } else if same_text(s, "3G") {
            Model::Gen3
        } else if same_text(s, "4G") {
            Model::Gen4
        } else if same_text(s, "HALO") {
            Model::HALO
        } else {
            Model::Unknown
        }
    }

    /// The model that a byte of a report stands for.
    pub fn from(model: u8) -> (r: Model)
        ensures
            r == Model::of_byte(model as int),
    {
        match model {
            0x0e => Model::BR24,
            0x0f => Model::BR24,
            0x08 => Model::Gen3,
            0x01 => Model::HaloOrG4,
            0x00 => Model::HALO,
            _ => Model::Unknown,
        }
    }

    /// The name of the model.
    pub fn to_str(&self) -> (s: &'static str)
        ensures
            s@ == self.spec_name(),
    {
        match self {
            Model::Unknown => "",
            Model::BR24 => "BR24",
            Model::Gen3 => "3G",
            Model::Gen4 => "4G",
            Model::HALO => "HALO",
            Model::HaloOrG4 => "HALO or 4G",
        }
    }
}

/// The presets of a HALO radar.
#[derive(Clone, Copy, Debug, PartialEq, Eq, Structural)]
pub enum HaloMode {
    Custom,
    Harbor,
    Offshore,
    Buoy,
    Weather,
    Bird,
}

/// The preset with a given number.
pub open spec fn halo_mode(n: int) -> Option<HaloMode> {
    if n == 0 {
        Some(HaloMode::Custom)
    } else if n == 1 {
        Some(HaloMode::Harbor)
    } else if n == 2 {
        Some(HaloMode::Offshore)
    } else if n == 3 {
        Some(HaloMode::Buoy)
    } else if n == 4 {
        Some(HaloMode::Weather)
    } else if n == 5 {
        Some(HaloMode::Bird)
    } else {
        None
    }
}

impl HaloMode {
    /// The preset with a given number, where there is one.
    pub fn from_u8(n: u8) -> (r: Option<HaloMode>)
        ensures
            r == halo_mode(n as int),
    {
        match n {
            0 => Some(HaloMode::Custom),
            1 => Some(HaloMode::Harbor),
            2 => Some(HaloMode::Offshore),
            3 => Some(HaloMode::Buoy),
            4 => Some(HaloMode::Weather),
            5 => Some(HaloMode::Bird),
            _ => None,
        }
    }
}

/// The controls that can be set only in the custom preset.
pub open spec fn is_dynamic(id: ControlId) -> bool {
    match id {
        ControlId::NoiseRejection
        | ControlId::TargetExpansion
        | ControlId::TargetSeparation
        | ControlId::LocalInterferenceRejection
        | ControlId::ScanSpeed => true,
        _ => false,
    }
}

/// The sectors without transmission, in the order in which radars report them.
pub open spec fn blanking_sector(i: int) -> ControlId {
    if i == 0 {
        ControlId::NoTransmitSector1
    } else if i == 1 {
        ControlId::NoTransmitSector2
    } else if i == 2 {
        ControlId::NoTransmitSector3
    } else {
        ControlId::NoTransmitSector4
    }
}

/// The model that the name of a model stands for is the model itself, but for those that a name does
/// not pin down.
pub proof fn model_names_are_read_back(model: Model)
    requires
        model != Model::HaloOrG4,
    ensures
        Model::named(model.spec_name()) == model,
{
    reveal_strlit("");
    reveal_strlit("BR24");
    reveal_strlit("3G");
    reveal_strlit("4G");
    reveal_strlit("HALO");
    assert(""@.len() == 0 && "BR24"@.len() == 4 && "HALO"@.len() == 4);
    assert("3G"@[0] == '3' && "4G"@[0] == '4' && "BR24"@[0] == 'B' && "HALO"@[0] == 'H');
}

} // verus!
