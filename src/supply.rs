//! How VCORE is supplied on parts with an integrated SMPS.

use vstd::prelude::*;
use crate::registers::Cr3;

verus! {

/// SMPS supply configuration.
///
/// `Default` leaves CR3 as the package reset it: that value differs between
/// packages, so it is neither written nor checked.
#[derive(Copy, Clone, PartialEq, Eq, Structural, Debug)]
pub enum SupplyConfiguration {
    Default,
    LDOSupply,
    DirectSMPS,
    SMPSFeedsIntoLDO1V8,
    SMPSFeedsIntoLDO2V5,
    // External SMPS loads not supported
    Bypass,
}

impl SupplyConfiguration {
    /// The supply bits after a read-modify-write of CR3 for this configuration.
    pub open spec fn written(self, cr3: Cr3) -> Cr3 {
        match self {
            SupplyConfiguration::Default => cr3,
            SupplyConfiguration::LDOSupply => Cr3 { sden: false, ldoen: true, ..cr3 },
            SupplyConfiguration::DirectSMPS => Cr3 { sden: true, ldoen: false, ..cr3 },
            SupplyConfiguration::SMPSFeedsIntoLDO1V8 => Cr3 { sden: true, ldoen: true, sdlevel: 1, ..cr3 },
            SupplyConfiguration::SMPSFeedsIntoLDO2V5 => Cr3 { sden: true, ldoen: true, sdlevel: 2, ..cr3 },
            SupplyConfiguration::Bypass => Cr3 { sden: false, ldoen: false, bypass: true, ..cr3 },
        }
    }

    /// Whether CR3 reads back with this configuration's enable, level and
    /// bypass bits. `Default` is never checked.
    pub open spec fn read_back(self, cr3: Cr3) -> bool {
        match self {
            SupplyConfiguration::Default => true,
            SupplyConfiguration::LDOSupply => !cr3.sden && cr3.ldoen,
            SupplyConfiguration::DirectSMPS => cr3.sden && !cr3.ldoen,
            SupplyConfiguration::SMPSFeedsIntoLDO1V8 => cr3.sden && cr3.ldoen && cr3.sdlevel == 1,
            SupplyConfiguration::SMPSFeedsIntoLDO2V5 => cr3.sden && cr3.ldoen && cr3.sdlevel == 2,
            SupplyConfiguration::Bypass => !cr3.sden && !cr3.ldoen && cr3.bypass,
        }
    }

    /// The value to write to CR3 for this configuration, given its current value.
    pub fn apply(&self, cr3: Cr3) -> (r: Cr3)
        ensures
            r == self.written(cr3),
    {
        match self {
            SupplyConfiguration::Default => cr3,
            SupplyConfiguration::LDOSupply => Cr3 { sden: false, ldoen: true, ..cr3 },
            SupplyConfiguration::DirectSMPS => Cr3 { sden: true, ldoen: false, ..cr3 },
            SupplyConfiguration::SMPSFeedsIntoLDO1V8 => Cr3 { sden: true, ldoen: true, sdlevel: 1, ..cr3 },
            SupplyConfiguration::SMPSFeedsIntoLDO2V5 => Cr3 { sden: true, ldoen: true, sdlevel: 2, ..cr3 },
            SupplyConfiguration::Bypass => Cr3 { sden: false, ldoen: false, bypass: true, ..cr3 },
        }
    }

    /// Checks a readback of CR3 against this configuration.
    pub fn verify(&self, cr3: Cr3) -> (r: bool)
        ensures
            r == self.read_back(cr3),
    {
        match self {
            SupplyConfiguration::Default => true,
            SupplyConfiguration::LDOSupply => !cr3.sden && cr3.ldoen,
            SupplyConfiguration::DirectSMPS => cr3.sden && !cr3.ldoen,
            SupplyConfiguration::SMPSFeedsIntoLDO1V8 => cr3.sden && cr3.ldoen && cr3.sdlevel == 1,
            SupplyConfiguration::SMPSFeedsIntoLDO2V5 => cr3.sden && cr3.ldoen && cr3.sdlevel == 2,
            SupplyConfiguration::Bypass => !cr3.sden && !cr3.ldoen && cr3.bypass,
        }
    }
}

/// What a part without SMPS writes to CR3: LDO on, bypass off, and the
/// supply configuration update enabled.
pub open spec fn ldo_only(cr3: Cr3) -> Cr3 {
    Cr3 { scuen: true, ldoen: true, bypass: false, ..cr3 }
}

/// A configuration written to CR3 reads back as itself.
pub proof fn lemma_written_reads_back(config: SupplyConfiguration, cr3: Cr3)
    ensures
        config.read_back(config.written(cr3)),
{
}

} // verus!
