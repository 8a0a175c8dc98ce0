use vstd::prelude::*;

verus! {

/// Voltage Scale
///
/// Represents the voltage range feeding the CPU core. The maximum core
/// clock frequency depends on this value.
#[derive(Copy, Clone, PartialEq, Eq, Structural, Debug)]
pub enum VoltageScale {
    /// VOS 0 range VCORE 1.26V - 1.40V
    Scale0,
    /// VOS 1 range VCORE 1.15V - 1.26V
    Scale1,
    /// VOS 2 range VCORE 1.05V - 1.15V
    Scale2,
    /// VOS 3 range VCORE 0.95V - 1.05V
    Scale3,
}

/// Device family, named after its reference manual.
#[derive(Copy, Clone, PartialEq, Eq, Structural, Debug)]
pub enum Family {
    /// Single-core parts without an integrated SMPS.
    Rm0433,
    /// Dual-core parts.
    Rm0399,
    /// Parts without a VOS0 tier.
    Rm0455,
    /// Parts that reach VOS0 by a second transition instead of overdrive.
    Rm0468,
}

/// The hardware a peripheral belongs to: its family, whether it has an
/// integrated SMPS, and whether it is a revision V (or later) part.
#[derive(Copy, Clone, PartialEq, Eq, Structural, Debug)]
pub struct Variant {
    pub family: Family,
    pub smps: bool,
    pub revision_v: bool,
}

impl Variant {
    /// Only legal combinations exist: the single-core family has no SMPS.
    pub open spec fn valid(self) -> bool {
        !(self.family == Family::Rm0433 && self.smps)
    }

    /// Whether VOS0 can be requested at all on this hardware.
    pub open spec fn vos0_available(self) -> bool {
        self.revision_v && self.family != Family::Rm0455
    }

    /// VOS0 is reached through the overdrive enable in SYSCFG.
    pub open spec fn overdrive(self) -> bool {
        self.revision_v && (self.family == Family::Rm0433 || self.family == Family::Rm0399)
    }

    /// VOS0 is reached by a second transition confirmed through CSR1.
    pub open spec fn second_transition(self) -> bool {
        self.revision_v && self.family == Family::Rm0468
    }

    /// Whether a scale may be requested on this hardware.
    pub open spec fn supports(self, scale: VoltageScale) -> bool {
        scale != VoltageScale::Scale0 || self.vos0_available()
    }

    /// Executable form of [`Variant::vos0_available`].
    pub fn supports_vos0(&self) -> (r: bool)
        ensures
            r == self.vos0_available(),
    {
        self.revision_v && self.family != Family::Rm0455
    }
}

/// Whether the D3CR / SRDCR VOS field of the family has a value for the scale.
pub open spec fn encodable(family: Family, scale: VoltageScale) -> bool {
    !(scale == VoltageScale::Scale0 && (family == Family::Rm0433 || family == Family::Rm0399))
}

/// The value of the VOS field that selects the scale, per family.
pub open spec fn vos_encoding(family: Family, scale: VoltageScale) -> u8 {
    match family {
        Family::Rm0433 | Family::Rm0399 => match scale {
            VoltageScale::Scale3 => 0b01,
            VoltageScale::Scale2 => 0b10,
            VoltageScale::Scale1 => 0b11,
            VoltageScale::Scale0 => 0b00,
        },
        Family::Rm0455 => match scale {
            VoltageScale::Scale3 => 0b00,
            VoltageScale::Scale2 => 0b01,
            VoltageScale::Scale1 => 0b10,
            VoltageScale::Scale0 => 0b11,
        },
        Family::Rm0468 => match scale {
            VoltageScale::Scale0 => 0b00,
            VoltageScale::Scale3 => 0b01,
            VoltageScale::Scale2 => 0b10,
            VoltageScale::Scale1 => 0b11,
        },
    }
}

/// The VOS field value for a scale on a family.
pub fn vos_bits(family: Family, scale: VoltageScale) -> (r: u8)
    requires
        encodable(family, scale),
    ensures
        r == vos_encoding(family, scale),
        r <= 3,
{
    match family {
        Family::Rm0433 | Family::Rm0399 => match scale {
            VoltageScale::Scale3 => 0b01,
            VoltageScale::Scale2 => 0b10,
            _ => 0b11,
        },
        Family::Rm0455 => match scale {
            VoltageScale::Scale3 => 0b00,
            VoltageScale::Scale2 => 0b01,
            VoltageScale::Scale1 => 0b10,
            VoltageScale::Scale0 => 0b11,
        },
        Family::Rm0468 => match scale {
            VoltageScale::Scale0 => 0b00,
            VoltageScale::Scale3 => 0b01,
            VoltageScale::Scale2 => 0b10,
            VoltageScale::Scale1 => 0b11,
        },
    }
}

} // verus!
