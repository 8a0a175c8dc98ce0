//! The power-control register file, as a simulated peripheral.
//!
//! Every access is recorded in an access log. The write-once supply bits of
//! CR3 lock after their first write. Each ready flag reads as clear for a
//! bounded number of reads after the write that starts its transition, then
//! reads as set.

use vstd::prelude::*;
use crate::variant::{Variant, VoltageScale, vos_bits, vos_encoding};

verus! {

/// One access made to the register file.
#[derive(Copy, Clone, PartialEq, Eq, Structural, Debug)]
pub enum Access {
    ReadCr1,
    SetDbp,
    ReadCr2,
    SetBren,
    ReadCr3,
    WriteCr3,
    ReadCsr1,
    ReadD3cr,
    WriteVos(u8),
    EnableSyscfgClock,
    SetOverdrive,
}

impl Access {
    /// Whether the access touches the lower byte of CR3.
    pub open spec fn touches_cr3(self) -> bool {
        self == Access::ReadCr3 || self == Access::WriteCr3
    }

    /// Whether the access moves the core voltage.
    pub open spec fn scales_voltage(self) -> bool {
        self is WriteVos || self == Access::SetOverdrive
    }
}

/// The supply-configuration fields of the lower byte of CR3.
#[derive(Copy, Clone, PartialEq, Eq, Structural, Debug)]
pub struct Cr3 {
    /// SMPS step-down converter enable (SDEN / SMPSEN).
    pub sden: bool,
    /// Low drop-out regulator enable.
    pub ldoen: bool,
    /// SMPS output level (SDLEVEL / SMPSLEVEL).
    pub sdlevel: u8,
    /// Power management unit bypass.
    pub bypass: bool,
    /// Supply configuration update enable.
    pub scuen: bool,
}

/// A read of CSR1.
#[derive(Copy, Clone, PartialEq, Eq, Structural, Debug)]
pub struct Csr1 {
    pub actvosrdy: bool,
    pub actvos: u8,
}

/// A read of D3CR (SRDCR on some families).
#[derive(Copy, Clone, PartialEq, Eq, Structural, Debug)]
pub struct D3cr {
    pub vos: u8,
    pub vosrdy: bool,
}

/// Handle to the system configuration controller, whose PWRCR overdrive
/// enable is modelled within [`PWR`].
pub struct SYSCFG {}

impl SYSCFG {
    pub fn new() -> (r: SYSCFG) {
        SYSCFG {  }
    }
}

/// The PWR register file of one device.
pub struct PWR {
    pub variant: Variant,
    /// Reads of a ready flag that still find it clear after a transition starts.
    pub latency: u32,
    pub cr3: Cr3,
    /// Set once the supply bits of CR3 have been written since power-on reset.
    pub cr3_locked: bool,
    /// D3CR.VOS
    pub vos: u8,
    /// Reads of D3CR left before VOSRDY is set.
    pub vosrdy_wait: u32,
    /// CSR1.ACTVOS
    pub actvos: u8,
    /// Reads of CSR1 left before ACTVOSRDY is set.
    pub actvosrdy_wait: u32,
    /// CR1.DBP as written.
    pub dbp: bool,
    /// Reads of CR1 left before DBP reads as set.
    pub dbp_wait: u32,
    /// CR2.BREN
    pub bren: bool,
    /// Reads of CR2 left before BRRDY is set.
    pub brrdy_wait: u32,
    /// RCC APB4ENR.SYSCFGEN
    pub syscfgen: bool,
    /// SYSCFG PWRCR.ODEN
    pub oden: bool,
    /// Every access so far, oldest first.
    pub log: Vec<Access>,
}

/// `n` polls of the same register.
pub open spec fn polls(a: Access, n: nat) -> Seq<Access> {
    Seq::new(n, |_i: int| a)
}

/// `n` rounds of a D3CR read followed by a CSR1 read.
pub open spec fn match_polls(n: nat) -> Seq<Access> {
    Seq::new(2 * n, |i: int| if i % 2 == 0 { Access::ReadD3cr } else { Access::ReadCsr1 })
}

impl PWR {
    /// The log of `self` begins with the whole log of `prev`.
    pub open spec fn log_extends(self, prev: PWR) -> bool {
        prev.log@.len() <= self.log@.len()
        && forall|k: int| 0 <= k < prev.log@.len() ==> #[trigger] self.log@[k] == prev.log@[k]
    }

    /// A register file just out of power-on reset: supply bits as given,
    /// VOS3 active and becoming ready after `latency` reads.
    pub fn new(variant: Variant, cr3: Cr3, cr3_locked: bool, latency: u32) -> (r: PWR)
        ensures
            r.variant == variant,
            r.latency == latency,
            r.cr3 == cr3,
            r.cr3_locked == cr3_locked,
            r.vos == vos_encoding(variant.family, VoltageScale::Scale3),
            r.actvos == r.vos,
            r.vosrdy_wait == 0,
            r.actvosrdy_wait == latency,
            !r.dbp && r.dbp_wait == 0,
            !r.bren && r.brrdy_wait == 0,
            !r.syscfgen && !r.oden,
            r.log@ == Seq::<Access>::empty(),
    {
        let vos = vos_bits(variant.family, VoltageScale::Scale3);
        PWR {
            variant,
            latency,
            cr3,
            cr3_locked,
            vos,
            vosrdy_wait: 0,
            actvos: vos,
            actvosrdy_wait: latency,
            dbp: false,
            dbp_wait: 0,
            bren: false,
            brrdy_wait: 0,
            syscfgen: false,
            oden: false,
            log: Vec::new(),
        }
    }

    /// The access log.
    pub fn accesses(&self) -> (r: &Vec<Access>)
        ensures
            r@ == self.log@,
    {
        &self.log
    }

    /// Reads the supply bits of CR3.
    pub fn read_cr3(&mut self) -> (r: Cr3)
        ensures
            r == old(self).cr3,
            *final(self) == (PWR { log: final(self).log, ..*old(self) }),
            final(self).log@ == old(self).log@.push(Access::ReadCr3),
    {
        self.log.push(Access::ReadCr3);
        self.cr3
    }

    /// Writes the supply bits of CR3. They take the value only on the first
    /// write after power-on reset.
    pub fn write_cr3(&mut self, value: Cr3)
        ensures
            final(self).cr3 == (if old(self).cr3_locked { old(self).cr3 } else { value }),
            final(self).cr3_locked,
            *final(self) == (PWR {
                log: final(self).log,
                cr3: final(self).cr3,
                cr3_locked: true,
                ..*old(self)
            }),
            final(self).log@ == old(self).log@.push(Access::WriteCr3),
    {
        self.log.push(Access::WriteCr3);
        if !self.cr3_locked {
            self.cr3 = value;
            self.cr3_locked = true;
        }
    }

    /// Reads CSR1. ACTVOS follows D3CR.VOS once ACTVOSRDY is set.
    pub fn read_csr1(&mut self) -> (r: Csr1)
        ensures
            r.actvosrdy == (old(self).actvosrdy_wait == 0),
            r.actvos == final(self).actvos,
            final(self).actvos == (if old(self).actvosrdy_wait == 0 { old(self).vos } else { old(self).actvos }),
            final(self).actvosrdy_wait == (if old(self).actvosrdy_wait == 0 { 0 } else { (old(self).actvosrdy_wait - 1) as u32 }),
            *final(self) == (PWR {
                log: final(self).log,
                actvos: final(self).actvos,
                actvosrdy_wait: final(self).actvosrdy_wait,
                ..*old(self)
            }),
            final(self).log@ == old(self).log@.push(Access::ReadCsr1),
    {
        self.log.push(Access::ReadCsr1);
        let ready = self.actvosrdy_wait == 0;
        if ready {
            self.actvos = self.vos;
        } else {
            self.actvosrdy_wait = self.actvosrdy_wait - 1;
        }
        Csr1 { actvosrdy: ready, actvos: self.actvos }
    }

    /// Reads D3CR.
    pub fn read_d3cr(&mut self) -> (r: D3cr)
        ensures
            r.vos == old(self).vos,
            r.vosrdy == (old(self).vosrdy_wait == 0),
            final(self).vosrdy_wait == (if old(self).vosrdy_wait == 0 { 0 } else { (old(self).vosrdy_wait - 1) as u32 }),
            *final(self) == (PWR {
                log: final(self).log,
                vosrdy_wait: final(self).vosrdy_wait,
                ..*old(self)
            }),
            final(self).log@ == old(self).log@.push(Access::ReadD3cr),
    {
        self.log.push(Access::ReadD3cr);
        let ready = self.vosrdy_wait == 0;
        if !ready {
            self.vosrdy_wait = self.vosrdy_wait - 1;
        }
        D3cr { vos: self.vos, vosrdy: ready }
    }

    /// Writes D3CR.VOS, which starts a transition of VOSRDY and ACTVOSRDY.
    pub fn write_vos(&mut self, bits: u8)
        ensures
            *final(self) == (PWR {
                log: final(self).log,
                vos: bits,
                vosrdy_wait: old(self).latency,
                actvosrdy_wait: old(self).latency,
                ..*old(self)
            }),
            final(self).log@ == old(self).log@.push(Access::WriteVos(bits)),
    {
        self.log.push(Access::WriteVos(bits));
        self.vos = bits;
        self.vosrdy_wait = self.latency;
        self.actvosrdy_wait = self.latency;
    }

    /// Enables the SYSCFG clock in RCC APB4ENR.
    pub fn enable_syscfg_clock(&mut self)
        ensures
            *final(self) == (PWR { log: final(self).log, syscfgen: true, ..*old(self) }),
            final(self).log@ == old(self).log@.push(Access::EnableSyscfgClock),
    {
        self.log.push(Access::EnableSyscfgClock);
        self.syscfgen = true;
    }

    /// Sets SYSCFG PWRCR.ODEN, which starts a transition of VOSRDY. The
    /// write has no effect while the SYSCFG clock is off.
    pub fn set_overdrive(&mut self)
        ensures
            old(self).syscfgen ==> *final(self) == (PWR {
                log: final(self).log,
                oden: true,
                vosrdy_wait: old(self).latency,
                ..*old(self)
            }),
            !old(self).syscfgen ==> *final(self) == (PWR { log: final(self).log, ..*old(self) }),
            final(self).log@ == old(self).log@.push(Access::SetOverdrive),
    {
        self.log.push(Access::SetOverdrive);
        if self.syscfgen {
            self.oden = true;
            self.vosrdy_wait = self.latency;
        }
    }

    /// Sets CR1.DBP, which reads back as set after the latency.
    pub fn set_dbp(&mut self)
        ensures
            *final(self) == (PWR {
                log: final(self).log,
                dbp: true,
                dbp_wait: if old(self).dbp { old(self).dbp_wait } else { old(self).latency },
                ..*old(self)
            }),
            final(self).log@ == old(self).log@.push(Access::SetDbp),
    {
        self.log.push(Access::SetDbp);
        if !self.dbp {
            self.dbp = true;
            self.dbp_wait = self.latency;
        }
    }

    /// Reads CR1, returning the DBP bit.
    pub fn read_cr1(&mut self) -> (r: bool)
        ensures
            r == (old(self).dbp && old(self).dbp_wait == 0),
            final(self).dbp_wait == (if old(self).dbp && old(self).dbp_wait > 0 { (old(self).dbp_wait - 1) as u32 } else { old(self).dbp_wait }),
            *final(self) == (PWR { log: final(self).log, dbp_wait: final(self).dbp_wait, ..*old(self) }),
            final(self).log@ == old(self).log@.push(Access::ReadCr1),
    {
        self.log.push(Access::ReadCr1);
        if self.dbp && self.dbp_wait > 0 {
            self.dbp_wait = self.dbp_wait - 1;
            false
        } else {
            self.dbp
        }
    }

    /// Sets CR2.BREN, which starts the backup regulator.
    pub fn set_bren(&mut self)
        ensures
            *final(self) == (PWR {
                log: final(self).log,
                bren: true,
                brrdy_wait: if old(self).bren { old(self).brrdy_wait } else { old(self).latency },
                ..*old(self)
            }),
            final(self).log@ == old(self).log@.push(Access::SetBren),
    {
        self.log.push(Access::SetBren);
        if !self.bren {
            self.bren = true;
            self.brrdy_wait = self.latency;
        }
    }

    /// Reads CR2, returning the BRRDY bit.
    pub fn read_cr2(&mut self) -> (r: bool)
        ensures
            r == (old(self).bren && old(self).brrdy_wait == 0),
            final(self).brrdy_wait == (if old(self).bren && old(self).brrdy_wait > 0 { (old(self).brrdy_wait - 1) as u32 } else { old(self).brrdy_wait }),
            *final(self) == (PWR { log: final(self).log, brrdy_wait: final(self).brrdy_wait, ..*old(self) }),
            final(self).log@ == old(self).log@.push(Access::ReadCr2),
    {
        self.log.push(Access::ReadCr2);
        if self.bren && self.brrdy_wait > 0 {
            self.brrdy_wait = self.brrdy_wait - 1;
            false
        } else {
            self.bren
        }
    }

    /// Polls CSR1 until ACTVOSRDY is set: the read that first finds it set is
    /// the last one.
    pub fn wait_active_ready(&mut self)
        ensures
            *final(self) == (PWR {
                log: final(self).log,
                actvos: old(self).vos,
                actvosrdy_wait: 0,
                ..*old(self)
            }),
            final(self).log@ == old(self).log@ + polls(Access::ReadCsr1, old(self).actvosrdy_wait as nat + 1),
    {
        let ghost w = old(self).actvosrdy_wait as nat;
        let mut csr1 = self.read_csr1();
        let ghost mut n: nat = 1;
        proof {
            assert(self.log@ =~= old(self).log@ + polls(Access::ReadCsr1, n));
        }
        while !csr1.actvosrdy
            invariant
                *self == (PWR {
                    log: self.log,
                    actvos: self.actvos,
                    actvosrdy_wait: self.actvosrdy_wait,
                    ..*old(self)
                }),
                self.log@ == old(self).log@ + polls(Access::ReadCsr1, n),
                csr1.actvosrdy ==> self.actvosrdy_wait == 0 && self.actvos == self.vos && n == w + 1,
                !csr1.actvosrdy ==> self.actvosrdy_wait + n == w && n >= 1,
            decreases self.actvosrdy_wait + (if csr1.actvosrdy { 0int } else { 1int }),
        {
            proof {
                assert(self.log@.push(Access::ReadCsr1) =~= old(self).log@ + polls(Access::ReadCsr1, n + 1));
            }
            csr1 = self.read_csr1();
            proof {
                n = n + 1;
            }
        }
    }

    /// Polls D3CR until VOSRDY is set: the read that first finds it set is
    /// the last one.
    pub fn wait_vos_ready(&mut self)
        ensures
            *final(self) == (PWR { log: final(self).log, vosrdy_wait: 0, ..*old(self) }),
            final(self).log@ == old(self).log@ + polls(Access::ReadD3cr, old(self).vosrdy_wait as nat + 1),
    {
        let ghost w = old(self).vosrdy_wait as nat;
        let mut ready = self.read_d3cr().vosrdy;
        let ghost mut n: nat = 1;
        proof {
            assert(self.log@ =~= old(self).log@ + polls(Access::ReadD3cr, n));
        }
        while !ready
            invariant
                *self == (PWR { log: self.log, vosrdy_wait: self.vosrdy_wait, ..*old(self) }),
                self.log@ == old(self).log@ + polls(Access::ReadD3cr, n),
                ready ==> self.vosrdy_wait == 0 && n == w + 1,
                !ready ==> self.vosrdy_wait + n == w && n >= 1,
            decreases self.vosrdy_wait + (if ready { 0int } else { 1int }),
        {
            proof {
                assert(self.log@.push(Access::ReadD3cr) =~= old(self).log@ + polls(Access::ReadD3cr, n + 1));
            }
            ready = self.read_d3cr().vosrdy;
            proof {
                n = n + 1;
            }
        }
    }

    /// Polls CR1 until DBP reads as set, once it has been written.
    pub fn wait_backup_access(&mut self)
        requires
            old(self).dbp,
        ensures
            *final(self) == (PWR { log: final(self).log, dbp_wait: 0, ..*old(self) }),
            final(self).log@ == old(self).log@ + polls(Access::ReadCr1, old(self).dbp_wait as nat + 1),
    {
        let ghost w = old(self).dbp_wait as nat;
        let mut ready = self.read_cr1();
        let ghost mut n: nat = 1;
        proof {
            assert(self.log@ =~= old(self).log@ + polls(Access::ReadCr1, n));
        }
        while !ready
            invariant
                *self == (PWR { log: self.log, dbp_wait: self.dbp_wait, ..*old(self) }),
                self.dbp,
                self.log@ == old(self).log@ + polls(Access::ReadCr1, n),
                ready ==> self.dbp_wait == 0 && n == w + 1,
                !ready ==> self.dbp_wait + n == w && n >= 1,
            decreases self.dbp_wait + (if ready { 0int } else { 1int }),
        {
            proof {
                assert(self.log@.push(Access::ReadCr1) =~= old(self).log@ + polls(Access::ReadCr1, n + 1));
            }
            ready = self.read_cr1();
            proof {
                n = n + 1;
            }
        }
    }

    /// Polls CR2 until BRRDY is set, once BREN has been written.
    pub fn wait_backup_regulator(&mut self)
        requires
            old(self).bren,
        ensures
            *final(self) == (PWR { log: final(self).log, brrdy_wait: 0, ..*old(self) }),
            final(self).log@ == old(self).log@ + polls(Access::ReadCr2, old(self).brrdy_wait as nat + 1),
    {
        let ghost w = old(self).brrdy_wait as nat;
        let mut ready = self.read_cr2();
        let ghost mut n: nat = 1;
        proof {
            assert(self.log@ =~= old(self).log@ + polls(Access::ReadCr2, n));
        }
        while !ready
            invariant
                *self == (PWR { log: self.log, brrdy_wait: self.brrdy_wait, ..*old(self) }),
                self.bren,
                self.log@ == old(self).log@ + polls(Access::ReadCr2, n),
                ready ==> self.brrdy_wait == 0 && n == w + 1,
                !ready ==> self.brrdy_wait + n == w && n >= 1,
            decreases self.brrdy_wait + (if ready { 0int } else { 1int }),
        {
            proof {
                assert(self.log@.push(Access::ReadCr2) =~= old(self).log@ + polls(Access::ReadCr2, n + 1));
            }
            ready = self.read_cr2();
            proof {
                n = n + 1;
            }
        }
    }

    /// Rounds of (D3CR, CSR1) reads until CSR1.ACTVOS shows D3CR.VOS: one if
    /// it already does, else one more than the reads left before ACTVOSRDY.
    pub open spec fn match_rounds(self) -> nat {
        if self.actvos == self.vos { 1 } else { self.actvosrdy_wait as nat + 1 }
    }

    /// Polls D3CR and CSR1 until CSR1.ACTVOS equals D3CR.VOS.
    pub fn wait_vos_match(&mut self)
        ensures
            *final(self) == (PWR {
                log: final(self).log,
                actvos: old(self).vos,
                actvosrdy_wait: if old(self).actvos == old(self).vos && old(self).actvosrdy_wait > 0 {
                    (old(self).actvosrdy_wait - 1) as u32
                } else {
                    0
                },
                vosrdy_wait: final(self).vosrdy_wait,
                ..*old(self)
            }),
            final(self).log@ == old(self).log@ + match_polls(old(self).match_rounds()),
    {
        let ghost x = old(self).actvos;
        let ghost w = old(self).actvosrdy_wait as nat;
        let mut d3cr = self.read_d3cr();
        let mut csr1 = self.read_csr1();
        let ghost mut k: nat = 1;
        proof {
            assert(self.log@ =~= old(self).log@ + match_polls(k));
        }
        while d3cr.vos != csr1.actvos
            invariant
                *self == (PWR {
                    log: self.log,
                    actvos: self.actvos,
                    actvosrdy_wait: self.actvosrdy_wait,
                    vosrdy_wait: self.vosrdy_wait,
                    ..*old(self)
                }),
                self.log@ == old(self).log@ + match_polls(k),
                d3cr.vos == self.vos,
                csr1.actvos == self.actvos,
                x == old(self).vos ==> k == 1 && self.actvos == old(self).vos
                    && self.actvosrdy_wait == (if w > 0 { w - 1 } else { 0 }),
                x != old(self).vos && self.actvos != self.vos ==> self.actvos == x
                    && self.actvosrdy_wait + k == w && k >= 1,
                x != old(self).vos && self.actvos == self.vos ==> self.actvosrdy_wait == 0 && k == w + 1,
            decreases self.actvosrdy_wait + (if d3cr.vos != csr1.actvos { 1int } else { 0int }),
        {
            proof {
                assert(self.log@.push(Access::ReadD3cr).push(Access::ReadCsr1)
                    =~= old(self).log@ + match_polls(k + 1));
            }
            d3cr = self.read_d3cr();
            csr1 = self.read_csr1();
            proof {
                k = k + 1;
            }
        }
    }
}

} // verus!
