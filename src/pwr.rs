//! The PWR builder and the commit of its configuration.

use vstd::prelude::*;
use crate::registers::{Access, Cr3, PWR, SYSCFG, match_polls, polls};
use crate::supply::{SupplyConfiguration, ldo_only, lemma_written_reads_back};
use crate::variant::{Family, VoltageScale, encodable, vos_bits, vos_encoding};

verus! {

/// Exclusive control of the backup-domain regulator, handed out once by a
/// successful commit.
pub struct BackupREC {
    regulator: bool,
}

impl BackupREC {
    /// Whether the backup regulator was enabled by the commit.
    pub closed spec fn enabled(self) -> bool {
        self.regulator
    }

    /// Whether the backup regulator was enabled by the commit.
    pub fn regulator_enabled(&self) -> (r: bool)
        ensures
            r == self.enabled(),
    {
        self.regulator
    }
}

/// Power Configuration
///
/// Produced when the PWR peripheral is frozen. The existence of this value
/// indicates that the voltage scaling configuration can no longer be changed.
pub struct PowerConfiguration {
    vos: VoltageScale,
    backup: Option<BackupREC>,
}

impl PowerConfiguration {
    /// The voltage scale reached by the commit.
    pub closed spec fn achieved(self) -> VoltageScale {
        self.vos
    }

    /// The backup-domain handle, while it has not been taken.
    pub closed spec fn handle(self) -> Option<BackupREC> {
        self.backup
    }

    /// The configuration once its handle has been taken.
    pub closed spec fn taken(self) -> PowerConfiguration {
        PowerConfiguration { backup: None, ..self }
    }

    /// Gets the `VoltageScale` which was configured by `Pwr::freeze()`.
    pub fn vos(&self) -> (r: VoltageScale)
        ensures
            r == self.achieved(),
    {
        self.vos
    }

    /// Takes the backup-domain handle; it can be had once.
    pub fn backup(&mut self) -> (r: Option<BackupREC>)
        ensures
            r == old(self).handle(),
            *final(self) == old(self).taken(),
    {
        self.backup.take()
    }
}

/// Taking the backup-domain handle leaves nothing behind: asking again
/// yields nothing, and the achieved scale stays.
pub proof fn lemma_backup_taken_once(c: PowerConfiguration)
    ensures
        c.taken().handle() is None,
        c.taken().taken().handle() is None,
        c.taken().achieved() == c.achieved(),
{
}

/// The commit found the write-once supply bits of CR3 set to another
/// configuration. Only a power-on reset of the board can clear them, so the
/// caller must not go on.
#[derive(Copy, Clone, PartialEq, Eq, Structural, Debug)]
pub enum CommitError {
    SupplyConfigurationMismatch,
}

/// Extension trait that constrains the `PWR` peripheral
pub trait PwrExt: Sized {
    /// The register file that `self` gives access to.
    spec fn registers(self) -> PWR;

    fn constrain(self) -> (r: Pwr)
        ensures
            r.peripheral() == self.registers(),
            r.supply() == SupplyConfiguration::Default,
            r.target() == VoltageScale::Scale1,
            !r.backup_requested(),
    ;
}

impl PwrExt for PWR {
    open spec fn registers(self) -> PWR {
        self
    }

    fn constrain(self) -> (r: Pwr) {
        Pwr {
            rb: self,
            supply_configuration: SupplyConfiguration::Default,
            target_vos: VoltageScale::Scale1,
            backup_regulator: false,
        }
    }
}

/// No access to the supply bits of CR3 from position `n` of the log on.
pub open spec fn cr3_untouched_from(log: Seq<Access>, n: int) -> bool {
    forall|k: int| n <= k < log.len() ==> !(#[trigger] log[k]).touches_cr3()
}

/// Constrained PWR peripheral
///
/// Made by calling `constrain` on the PWR register file.
pub struct Pwr {
    rb: PWR,
    supply_configuration: SupplyConfiguration,
    target_vos: VoltageScale,
    backup_regulator: bool,
}

impl Pwr {
    pub closed spec fn peripheral(self) -> PWR {
        self.rb
    }

    pub closed spec fn supply(self) -> SupplyConfiguration {
        self.supply_configuration
    }

    pub closed spec fn target(self) -> VoltageScale {
        self.target_vos
    }

    pub closed spec fn backup_requested(self) -> bool {
        self.backup_regulator
    }

    /// The hardware is a legal variant, the target scale exists on it, and a
    /// supply configuration is only chosen on parts with an SMPS.
    pub open spec fn wf(self) -> bool {
        &&& self.peripheral().variant.valid()
        &&& self.peripheral().variant.supports(self.target())
        &&& (self.supply() != SupplyConfiguration::Default ==> self.peripheral().variant.smps)
    }

    /// The supply bits of CR3 once the commit has written them.
    pub open spec fn cr3_after_write(self) -> Cr3 {
        let rb = self.peripheral();
        if !rb.variant.smps {
            if rb.cr3_locked { rb.cr3 } else { ldo_only(rb.cr3) }
        } else if self.supply() == SupplyConfiguration::Default || rb.cr3_locked {
            rb.cr3
        } else {
            self.supply().written(rb.cr3)
        }
    }

    /// The readback of CR3 does not show the chosen configuration.
    pub open spec fn mismatch(self) -> bool {
        &&& self.peripheral().variant.smps
        &&& self.supply() != SupplyConfiguration::Default
        &&& !self.supply().read_back(self.cr3_after_write())
    }

    /// What the commit yields: the mismatch error, or the scale reached.
    pub open spec fn outcome(self) -> Result<VoltageScale, CommitError> {
        if self.mismatch() {
            Err(CommitError::SupplyConfigurationMismatch)
        } else {
            Ok(self.target())
        }
    }

    /// The first scale written to D3CR: VOS0 is never entered directly.
    pub open spec fn first_hop(self) -> VoltageScale {
        if self.target() == VoltageScale::Scale0 { VoltageScale::Scale1 } else { self.target() }
    }

    /// The access that takes the core from VOS1 to VOS0.
    pub open spec fn top_step(self) -> Access {
        if self.peripheral().variant.overdrive() {
            Access::SetOverdrive
        } else {
            Access::WriteVos(vos_encoding(self.peripheral().variant.family, VoltageScale::Scale0))
        }
    }

    /// D3CR.VOS after a successful commit.
    pub open spec fn final_vos_field(self) -> u8 {
        let family = self.peripheral().variant.family;
        if self.target() == VoltageScale::Scale0 && self.peripheral().variant.overdrive() {
            vos_encoding(family, VoltageScale::Scale1)
        } else {
            vos_encoding(family, self.target())
        }
    }

    /// The accesses that write and check the supply bits of CR3.
    pub open spec fn supply_log(self) -> Seq<Access> {
        if !self.peripheral().variant.smps {
            seq![Access::ReadCr3, Access::WriteCr3]
        } else if self.supply() == SupplyConfiguration::Default {
            Seq::empty()
        } else {
            seq![Access::ReadCr3, Access::WriteCr3, Access::ReadCr3]
        }
    }

    /// A write of D3CR.VOS for `scale`, then the VOSRDY poll.
    pub open spec fn transition_log(self, scale: VoltageScale) -> Seq<Access> {
        let rb = self.peripheral();
        seq![Access::WriteVos(vos_encoding(rb.variant.family, scale))]
            + polls(Access::ReadD3cr, rb.latency as nat + 1)
    }

    /// The accesses that take the core from VOS1 to VOS0.
    pub open spec fn top_log(self) -> Seq<Access> {
        let rb = self.peripheral();
        let l = rb.latency as nat;
        if rb.variant.overdrive() {
            seq![Access::EnableSyscfgClock, Access::SetOverdrive] + polls(Access::ReadD3cr, l + 1)
        } else if rb.variant.second_transition() {
            // ACTVOS still shows the scale D3CR held when the commit began
            let same = rb.vos == vos_encoding(rb.variant.family, VoltageScale::Scale0);
            self.transition_log(VoltageScale::Scale0)
                + match_polls(if same { 1 } else { l + 1 })
                + polls(Access::ReadCsr1, if same && l > 0 { l } else { 1 })
        } else {
            Seq::empty()
        }
    }

    /// The accesses that wait for the supply and reach the target scale.
    pub open spec fn scale_log(self) -> Seq<Access> {
        polls(Access::ReadCsr1, self.peripheral().actvosrdy_wait as nat + 1)
            + self.transition_log(self.first_hop())
            + if self.target() == VoltageScale::Scale0 { self.top_log() } else { Seq::empty() }
    }

    /// The accesses that unlock the backup domain and start its regulator.
    pub open spec fn backup_log(self) -> Seq<Access> {
        let rb = self.peripheral();
        seq![Access::SetDbp]
            + polls(Access::ReadCr1, (if rb.dbp { rb.dbp_wait } else { rb.latency }) as nat + 1)
            + if self.backup_requested() {
                seq![Access::SetBren]
                    + polls(Access::ReadCr2, (if rb.bren { rb.brrdy_wait } else { rb.latency }) as nat + 1)
            } else {
                Seq::empty()
            }
    }

    /// Every access of the commit, in order: it stops after the supply bits
    /// on a mismatch.
    pub open spec fn commit_log(self) -> Seq<Access> {
        if self.mismatch() {
            self.supply_log()
        } else {
            self.supply_log() + self.scale_log() + self.backup_log()
        }
    }

    /// Verify that the lower byte of CR3 reads as written.
    fn verify_supply_configuration(&mut self) -> (r: bool)
        ensures
            r == old(self).supply().read_back(old(self).peripheral().cr3),
            // Default configuration is NOT verified, and CR3 is not read
            old(self).supply() == SupplyConfiguration::Default ==> *final(self) == *old(self),
            old(self).supply() != SupplyConfiguration::Default ==> {
                &&& *final(self) == (Pwr { rb: final(self).rb, ..*old(self) })
                &&& final(self).rb == (PWR { log: final(self).rb.log, ..old(self).rb })
                &&& final(self).rb.log@ == old(self).rb.log@.push(Access::ReadCr3)
            },
    {
        if matches!(self.supply_configuration, SupplyConfiguration::Default) {
            return true;
        }
        let cr3 = self.rb.read_cr3();
        self.supply_configuration.verify(cr3)
    }

    /// Transition between voltage scaling levels using D3CR / SRDCR, then
    /// wait for VOSRDY.
    ///
    /// Does NOT implement overdrive (back-bias)
    fn voltage_scaling_transition(&mut self, new_scale: VoltageScale)
        requires
            encodable(old(self).rb.variant.family, new_scale),
        ensures
            *final(self) == (Pwr { rb: final(self).rb, ..*old(self) }),
            final(self).rb == (PWR {
                log: final(self).rb.log,
                vos: vos_encoding(old(self).rb.variant.family, new_scale),
                vosrdy_wait: 0,
                actvosrdy_wait: old(self).rb.latency,
                ..old(self).rb
            }),
            final(self).rb.log@ == old(self).rb.log@
                .push(Access::WriteVos(vos_encoding(old(self).rb.variant.family, new_scale)))
                + polls(Access::ReadD3cr, old(self).rb.latency as nat + 1),
    {
        let bits = vos_bits(self.rb.variant.family, new_scale);
        self.rb.write_vos(bits);
        self.rb.wait_vos_ready();
    }
    /// Writes the supply bits of CR3 (on parts with an SMPS only for a chosen
    /// configuration) and checks them; false on a mismatch.
    fn write_supply_configuration(&mut self) -> (r: bool)
        requires
            old(self).wf(),
        ensures
            r == !old(self).mismatch(),
            *final(self) == (Pwr { rb: final(self).rb, ..*old(self) }),
            final(self).rb == (PWR {
                log: final(self).rb.log,
                cr3: old(self).cr3_after_write(),
                cr3_locked: final(self).rb.cr3_locked,
                ..old(self).rb
            }),
            final(self).rb.log_extends(old(self).rb),
            forall|k: int| old(self).rb.log@.len() <= k < final(self).rb.log@.len()
                ==> (#[trigger] final(self).rb.log@[k]).touches_cr3(),
            old(self).rb.variant.smps && old(self).supply_configuration == SupplyConfiguration::Default
                ==> final(self).rb == old(self).rb,
            final(self).rb.log@ == old(self).rb.log@ + old(self).supply_log(),
    {
        if self.rb.variant.smps {
            if self.supply_configuration != SupplyConfiguration::Default {
                let cur = self.rb.read_cr3();
                let value = self.supply_configuration.apply(cur);
                self.rb.write_cr3(value);
                proof {
                    lemma_written_reads_back(self.supply_configuration, cur);
                }
                // The values read from CR3 must match those written
                self.verify_supply_configuration()
            } else {
                // The reset value of CR3 varies between packages, so it is
                // left as it is
                true
            }
        } else {
            let cur = self.rb.read_cr3();
            self.rb.write_cr3(Cr3 { scuen: true, ldoen: true, bypass: false, ..cur });
            true
        }
    }

    /// Waits for the supply, then moves the core to the target scale, VOS0 by
    /// way of VOS1; returns the scale reached.
    #[verifier::rlimit(30)]
    fn scale_voltage(&mut self) -> (r: VoltageScale)
        requires
            old(self).wf(),
        ensures
            r == old(self).target(),
            *final(self) == (Pwr { rb: final(self).rb, ..*old(self) }),
            final(self).rb == (PWR {
                log: final(self).rb.log,
                vos: old(self).final_vos_field(),
                vosrdy_wait: final(self).rb.vosrdy_wait,
                actvos: final(self).rb.actvos,
                actvosrdy_wait: final(self).rb.actvosrdy_wait,
                syscfgen: final(self).rb.syscfgen,
                oden: final(self).rb.oden,
                ..old(self).rb
            }),
            old(self).target() == VoltageScale::Scale0 && old(self).rb.variant.overdrive() ==> final(self).rb.oden,
            final(self).rb.log_extends(old(self).rb),
            cr3_untouched_from(final(self).rb.log@, old(self).rb.log@.len() as int),
            old(self).target() == VoltageScale::Scale0 ==> exists|i: int, j: int|
                old(self).rb.log@.len() <= i < j < final(self).rb.log@.len()
                && #[trigger] final(self).rb.log@[i] == Access::WriteVos(vos_encoding(old(self).rb.variant.family, VoltageScale::Scale1))
                && #[trigger] final(self).rb.log@[j] == old(self).top_step(),
            final(self).rb.log@ == old(self).rb.log@ + old(self).scale_log(),
    {
        let ghost n1 = self.rb.log@.len() as int;
        let family = self.rb.variant.family;

        // If stuck here, the voltage on the VCAP pins does not match the
        // scale that D3CR selects after reset.
        self.rb.wait_active_ready();

        // VOS0 cannot be entered directly: go to VOS1 first
        let mut vos = if matches!(self.target_vos, VoltageScale::Scale0) {
            VoltageScale::Scale1
        } else {
            self.target_vos
        };
        self.voltage_scaling_transition(vos);
        let ghost hop = self.rb.log@.len() - (self.rb.latency as int + 1) - 1;
        assert(self.rb.log@[hop] == Access::WriteVos(vos_encoding(family, vos)));
        assert(cr3_untouched_from(self.rb.log@, n1));

        if matches!(self.target_vos, VoltageScale::Scale0) {
            let ghost top: int;
            let ghost mid;
            if family == Family::Rm0468 {
                // No overdrive bit: write VOS0, then D3CR.VOS must equal
                // CSR1.ACTVOS and CSR1.ACTVOSRDY must be set
                vos = VoltageScale::Scale0;
                self.voltage_scaling_transition(vos);
                proof {
                    top = self.rb.log@.len() - (self.rb.latency as int + 1) - 1;
                    mid = self.rb;
                }
                assert(self.rb.log@[top] == self.top_step());
                assert(cr3_untouched_from(self.rb.log@, n1));
                self.rb.wait_vos_match();
                assert(cr3_untouched_from(self.rb.log@, n1)) by {
                    assert forall|k: int| n1 <= k < self.rb.log@.len()
                        implies !(#[trigger] self.rb.log@[k]).touches_cr3() by {
                        if k >= mid.log@.len() {
                            assert(self.rb.log@[k] == Access::ReadD3cr || self.rb.log@[k] == Access::ReadCsr1);
                        } else {
                            assert(self.rb.log@[k] == mid.log@[k]);
                        }
                    }
                }
                assert(self.rb.log@[top] == mid.log@[top]);
                assert(self.rb.log@[hop] == mid.log@[hop]);
                self.rb.wait_active_ready();
            } else {
                // Overdrive needs the SYSCFG clock
                self.rb.enable_syscfg_clock();
                self.rb.set_overdrive();
                proof {
                    top = self.rb.log@.len() - 1;
                }
                assert(self.rb.log@[top] == self.top_step());
                self.rb.wait_vos_ready();
                vos = VoltageScale::Scale0;
            }
            assert(hop < top);
            assert(self.rb.log@[top] == self.top_step());
            assert(self.rb.log@[hop] == Access::WriteVos(vos_encoding(family, VoltageScale::Scale1)));
        }
        vos
    }

    /// Unlocks the backup domain and, if asked for, starts its regulator.
    fn enable_backup_domain(&mut self)
        ensures
            *final(self) == (Pwr { rb: final(self).rb, ..*old(self) }),
            final(self).rb == (PWR {
                log: final(self).rb.log,
                dbp: true,
                dbp_wait: 0,
                bren: final(self).rb.bren,
                brrdy_wait: final(self).rb.brrdy_wait,
                ..old(self).rb
            }),
            old(self).backup_regulator ==> final(self).rb.bren,
            !old(self).backup_regulator ==> final(self).rb.bren == old(self).rb.bren,
            final(self).rb.log_extends(old(self).rb),
            cr3_untouched_from(final(self).rb.log@, old(self).rb.log@.len() as int),
            final(self).rb.log@ == old(self).rb.log@ + old(self).backup_log(),
    {
        // Disable backup power domain write protection
        self.rb.set_dbp();
        self.rb.wait_backup_access();
        if self.backup_regulator {
            self.rb.set_bren();
            self.rb.wait_backup_regulator();
        }
    }

    /// Commits the configuration and hands back the register file as the
    /// commit left it; the configuration can no longer be changed.
    ///
    /// The supply bits of CR3 are written (on parts with an SMPS, only for a
    /// chosen configuration) and checked; once the supply is ready the core
    /// moves to the target scale, VOS0 by way of VOS1; then the backup domain
    /// is unlocked and, if asked for, its regulator started.
    #[verifier::rlimit(60)]
    pub fn freeze(self) -> (r: (Result<PowerConfiguration, CommitError>, PWR))
        requires
            self.wf(),
        ensures
            r.0 is Err <==> self.mismatch(),
            r.0 is Ok ==> self.outcome() == Ok::<VoltageScale, CommitError>(r.0->Ok_0.achieved()),
            r.0 is Ok ==> r.0->Ok_0.handle() is Some
                && r.0->Ok_0.handle()->Some_0.enabled() == self.backup_requested(),
            r.1.variant == self.peripheral().variant,
            r.1.cr3 == self.cr3_after_write(),
            r.1.log_extends(self.peripheral()),
            r.1.log@ == self.peripheral().log@ + self.commit_log(),
            // a mismatch stops the commit before the core voltage is touched
            r.0 is Err ==> r.1.log@ == self.peripheral().log@
                + seq![Access::ReadCr3, Access::WriteCr3, Access::ReadCr3],
            r.0 is Err ==> forall|k: int| self.peripheral().log@.len() <= k < r.1.log@.len()
                ==> !(#[trigger] r.1.log@[k]).scales_voltage(),
            r.0 is Err ==> r.1 == (PWR {
                log: r.1.log,
                cr3: r.1.cr3,
                cr3_locked: r.1.cr3_locked,
                ..self.peripheral()
            }),
            // with no configuration chosen, the supply bits are neither read nor written
            self.peripheral().variant.smps && self.supply() == SupplyConfiguration::Default ==> {
                &&& r.1.cr3_locked == self.peripheral().cr3_locked
                &&& cr3_untouched_from(r.1.log@, self.peripheral().log@.len() as int)
            },
            // VOS1 is written strictly before the step that reaches VOS0
            r.0 is Ok && self.target() == VoltageScale::Scale0 ==> exists|i: int, j: int|
                self.peripheral().log@.len() <= i < j < r.1.log@.len()
                && #[trigger] r.1.log@[i] == Access::WriteVos(vos_encoding(self.peripheral().variant.family, VoltageScale::Scale1))
                && #[trigger] r.1.log@[j] == self.top_step(),
            r.0 is Ok ==> {
                &&& r.1.vos == self.final_vos_field()
                &&& r.1.dbp
                &&& (self.backup_requested() ==> r.1.bren)
                &&& (!self.backup_requested() ==> r.1.bren == self.peripheral().bren)
                &&& (self.target() == VoltageScale::Scale0 && self.peripheral().variant.overdrive() ==> r.1.oden)
            },
    {
        let ghost start = self;
        let mut this = self;
        let ok = this.write_supply_configuration();
        assert(start.supply_log() == seq![Access::ReadCr3, Access::WriteCr3, Access::ReadCr3]
            || !start.mismatch());
        if !ok {
            // A mismatch is fatal: the write-once bits only clear on a
            // power-on reset
            return (Err(CommitError::SupplyConfigurationMismatch), this.rb);
        }
        let ghost supplied = this.rb;
        assert(this.scale_log() =~= start.scale_log());
        assert(this.backup_log() =~= start.backup_log());
        let vos = this.scale_voltage();
        let ghost scaled = this.rb;
        assert(this.rb.log@ =~= start.rb.log@ + start.supply_log() + start.scale_log());
        assert(this.backup_log() =~= start.backup_log());
        this.enable_backup_domain();
        proof {
            assert(this.rb.log@ =~= start.rb.log@ + start.commit_log());
            if start.target() == VoltageScale::Scale0 {
                let (i, j) = choose|i: int, j: int|
                    supplied.log@.len() <= i < j < scaled.log@.len()
                    && #[trigger] scaled.log@[i] == Access::WriteVos(vos_encoding(start.rb.variant.family, VoltageScale::Scale1))
                    && #[trigger] scaled.log@[j] == start.top_step();
                assert(this.rb.log@[i] == scaled.log@[i]);
                assert(this.rb.log@[j] == scaled.log@[j]);
            }
            if start.rb.variant.smps && start.supply() == SupplyConfiguration::Default {
                assert forall|k: int| start.rb.log@.len() <= k < this.rb.log@.len()
                    implies !(#[trigger] this.rb.log@[k]).touches_cr3() by {
                    if k >= scaled.log@.len() {
                    } else {
                        assert(this.rb.log@[k] == scaled.log@[k]);
                    }
                }
            }
        }
        let backup = BackupREC { regulator: this.backup_regulator };
        (Ok(PowerConfiguration { vos, backup: Some(backup) }), this.rb)
    }

    /// Returns a reference to the inner peripheral
    pub fn inner(&self) -> (r: &PWR)
        ensures
            *r == self.peripheral(),
    {
        &self.rb
    }

    /// Returns a mutable reference to the inner peripheral
    pub fn inner_mut(&mut self) -> (r: &mut PWR)
        ensures
            *r == old(self).peripheral(),
            final(self).peripheral() == *final(r),
            final(self).supply() == old(self).supply(),
            final(self).target() == old(self).target(),
            final(self).backup_requested() == old(self).backup_requested(),
    {
        &mut self.rb
    }

    /// VCORE power domains supplied from the LDO. LDO voltage adjusted by
    /// VOS. LDO power mode will follow the system low-power mode.
    #[must_use]
    pub fn ldo(self) -> (r: Self)
        requires
            self.peripheral().variant.smps,
        ensures
            r.supply() == SupplyConfiguration::LDOSupply,
            r.peripheral() == self.peripheral(),
            r.target() == self.target(),
            r.backup_requested() == self.backup_requested(),
    {
        Pwr { supply_configuration: SupplyConfiguration::LDOSupply, ..self }
    }

    /// VCORE power domains are supplied from the SMPS step-down converter.
    /// SMPS output voltage adjusted by VOS. SMPS power mode will follow the
    /// system low-power mode.
    #[must_use]
    pub fn smps(self) -> (r: Self)
        requires
            self.peripheral().variant.smps,
        ensures
            r.supply() == SupplyConfiguration::DirectSMPS,
            r.peripheral() == self.peripheral(),
            r.target() == self.target(),
            r.backup_requested() == self.backup_requested(),
    {
        Pwr { supply_configuration: SupplyConfiguration::DirectSMPS, ..self }
    }

    /// VCORE is supplied from an external source.
    #[must_use]
    pub fn bypass(self) -> (r: Self)
        requires
            self.peripheral().variant.smps,
        ensures
            r.supply() == SupplyConfiguration::Bypass,
            r.peripheral() == self.peripheral(),
            r.target() == self.target(),
            r.backup_requested() == self.backup_requested(),
    {
        Pwr { supply_configuration: SupplyConfiguration::Bypass, ..self }
    }

    /// VCORE power domains supplied from the LDO. LDO voltage adjusted by
    /// VOS. LDO power mode will follow the system low-power mode. SMPS output
    /// voltage set to 1.8V. SMPS power mode will follow the system low-power
    /// mode.
    #[must_use]
    pub fn smps_1v8_feeds_ldo(self) -> (r: Self)
        requires
            self.peripheral().variant.smps,
        ensures
            r.supply() == SupplyConfiguration::SMPSFeedsIntoLDO1V8,
            r.peripheral() == self.peripheral(),
            r.target() == self.target(),
            r.backup_requested() == self.backup_requested(),
    {
        Pwr { supply_configuration: SupplyConfiguration::SMPSFeedsIntoLDO1V8, ..self }
    }

    /// VCORE power domains supplied from the LDO. LDO voltage adjusted by
    /// VOS. LDO power mode will follow the system low-power mode. SMPS output
    /// voltage set to 2.5V. SMPS power mode will follow the system low-power
    /// mode.
    #[must_use]
    pub fn smps_2v5_feeds_ldo(self) -> (r: Self)
        requires
            self.peripheral().variant.smps,
        ensures
            r.supply() == SupplyConfiguration::SMPSFeedsIntoLDO2V5,
            r.peripheral() == self.peripheral(),
            r.target() == self.target(),
            r.backup_requested() == self.backup_requested(),
    {
        Pwr { supply_configuration: SupplyConfiguration::SMPSFeedsIntoLDO2V5, ..self }
    }

    /// Configure Voltage Scale 0 (boost mode), on parts that have it.
    #[must_use]
    pub fn vos0(self, _syscfg: &SYSCFG) -> (r: Self)
        requires
            self.peripheral().variant.vos0_available(),
        ensures
            r.target() == VoltageScale::Scale0,
            r.peripheral() == self.peripheral(),
            r.supply() == self.supply(),
            r.backup_requested() == self.backup_requested(),
    {
        Pwr { target_vos: VoltageScale::Scale0, ..self }
    }

    /// Configure Voltage Scale 1. This is the default configuration
    #[must_use]
    pub fn vos1(self) -> (r: Self)
        ensures
            r.target() == VoltageScale::Scale1,
            r.peripheral() == self.peripheral(),
            r.supply() == self.supply(),
            r.backup_requested() == self.backup_requested(),
    {
        Pwr { target_vos: VoltageScale::Scale1, ..self }
    }

    /// Configure Voltage Scale 2
    #[must_use]
    pub fn vos2(self) -> (r: Self)
        ensures
            r.target() == VoltageScale::Scale2,
            r.peripheral() == self.peripheral(),
            r.supply() == self.supply(),
            r.backup_requested() == self.backup_requested(),
    {
        Pwr { target_vos: VoltageScale::Scale2, ..self }
    }

    /// Configure Voltage Scale 3
    #[must_use]
    pub fn vos3(self) -> (r: Self)
        ensures
            r.target() == VoltageScale::Scale3,
            r.peripheral() == self.peripheral(),
            r.supply() == self.supply(),
            r.backup_requested() == self.backup_requested(),
    {
        Pwr { target_vos: VoltageScale::Scale3, ..self }
    }

    /// Enable the backup domain voltage regulator
    ///
    /// The backup domain voltage regulator maintains the contents of backup SRAM
    /// in Standby and VBAT modes.
    #[must_use]
    pub fn backup_regulator(self) -> (r: Self)
        ensures
            r.backup_requested() == true,
            r.peripheral() == self.peripheral(),
            r.supply() == self.supply(),
            r.target() == self.target(),
    {
        Pwr { backup_regulator: true, ..self }
    }
}

/// On every legal variant, with every supply configuration and scale that
/// the variant allows, a register file whose supply bits take what is
/// written (no earlier write since power-on reset) yields the requested
/// scale.
pub proof fn lemma_commit_reaches_target(p: Pwr)
    requires
        p.wf(),
        !p.peripheral().cr3_locked,
    ensures
        p.outcome() == Ok::<VoltageScale, CommitError>(p.target()),
{
    lemma_written_reads_back(p.supply(), p.peripheral().cr3);
}

/// With no supply configuration chosen, neither what the commit yields nor
/// the accesses it makes depend on the supply bits of CR3, nor on whether
/// they were locked.
pub proof fn lemma_default_supply_ignores_cr3(p: Pwr, q: Pwr)
    requires
        p.peripheral().variant.smps,
        p.supply() == SupplyConfiguration::Default,
        q.supply() == SupplyConfiguration::Default,
        p.target() == q.target(),
        p.backup_requested() == q.backup_requested(),
        q.peripheral() == (PWR {
            cr3: q.peripheral().cr3,
            cr3_locked: q.peripheral().cr3_locked,
            ..p.peripheral()
        }),
    ensures
        p.outcome() == q.outcome(),
        p.commit_log() == q.commit_log(),
{
    assert(p.scale_log() =~= q.scale_log());
    assert(p.backup_log() =~= q.backup_log());
}

/// On the way to VOS0 the commit writes VOS1, polls D3CR until VOSRDY is
/// set, and only then takes the step to VOS0.
pub proof fn lemma_two_hop_order(p: Pwr)
    requires
        p.wf(),
        !p.mismatch(),
        p.target() == VoltageScale::Scale0,
    ensures
        ({
            let log = p.commit_log();
            let i = p.supply_log().len() + p.peripheral().actvosrdy_wait + 1;
            let j = i + p.peripheral().latency + 2 + (if p.peripheral().variant.overdrive() { 1int } else { 0 });
            &&& log[i] == Access::WriteVos(vos_encoding(p.peripheral().variant.family, VoltageScale::Scale1))
            &&& forall|k: int| i < k <= i + p.peripheral().latency + 1 ==> #[trigger] log[k] == Access::ReadD3cr
            &&& log[j] == p.top_step()
            &&& j < log.len()
        }),
{
    let log = p.commit_log();
    let s = p.supply_log();
    let rb = p.peripheral();
    let t = p.top_log();
    assert(log =~= s + polls(Access::ReadCsr1, rb.actvosrdy_wait as nat + 1)
        + seq![Access::WriteVos(vos_encoding(rb.variant.family, VoltageScale::Scale1))]
        + polls(Access::ReadD3cr, rb.latency as nat + 1) + t + p.backup_log());
    if rb.variant.overdrive() {
        assert(t[1] == Access::SetOverdrive);
    } else {
        assert(t[0] == p.top_step());
    }
}

/// Supply bits that were locked to another configuration before the commit
/// make it fail.
pub proof fn lemma_locked_mismatch_is_fatal(p: Pwr)
    requires
        p.peripheral().variant.smps,
        p.supply() != SupplyConfiguration::Default,
        p.peripheral().cr3_locked,
        !p.supply().read_back(p.peripheral().cr3),
    ensures
        p.outcome() == Err::<VoltageScale, CommitError>(CommitError::SupplyConfigurationMismatch),
{
}

} // verus!
