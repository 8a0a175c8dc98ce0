use pwr::{Access, CommitError, Cr3, Family, PWR, PwrExt, SYSCFG, SupplyConfiguration, Variant, VoltageScale};

fn reset_cr3() -> Cr3 {
    Cr3 { sden: true, ldoen: true, sdlevel: 0, bypass: false, scuen: true }
}

fn regs(family: Family, smps: bool, revision_v: bool, latency: u32) -> PWR {
    PWR::new(Variant { family, smps, revision_v }, reset_cr3(), false, latency)
}

fn count(log: &[Access], a: Access) -> usize {
    log.iter().filter(|x| **x == a).count()
}

fn position(log: &[Access], a: Access) -> usize {
    log.iter().position(|x| *x == a).unwrap()
}

#[test]
fn no_smps_scale1_without_backup_regulator() {
    let (r, rb) = regs(Family::Rm0433, false, false, 0).constrain().freeze();
    let cfg = r.unwrap();
    assert_eq!(cfg.vos(), VoltageScale::Scale1);
    assert_eq!(
        rb.accesses().clone(),
        vec![
            Access::ReadCr3,
            Access::WriteCr3,
            Access::ReadCsr1,
            Access::WriteVos(0b11),
            Access::ReadD3cr,
            Access::SetDbp,
            Access::ReadCr1,
        ]
    );
    assert!(rb.cr3.ldoen && rb.cr3.scuen && !rb.cr3.bypass);
    assert!(rb.dbp);
    assert!(!rb.bren);
    assert_eq!(rb.vos, 0b11);
}

#[test]
fn smps_direct_scale0_by_overdrive() {
    let syscfg = SYSCFG::new();
    let (r, rb) = regs(Family::Rm0399, true, true, 0).constrain().smps().vos0(&syscfg).freeze();
    let cfg = r.unwrap();
    assert_eq!(cfg.vos(), VoltageScale::Scale0);
    assert_eq!(
        rb.accesses().clone(),
        vec![
            Access::ReadCr3,
            Access::WriteCr3,
            Access::ReadCr3,
            Access::ReadCsr1,
            Access::WriteVos(0b11),
            Access::ReadD3cr,
            Access::EnableSyscfgClock,
            Access::SetOverdrive,
            Access::ReadD3cr,
            Access::SetDbp,
            Access::ReadCr1,
        ]
    );
    assert!(rb.cr3.sden && !rb.cr3.ldoen);
    assert!(rb.oden);
    assert_eq!(rb.vos, 0b11);
}

#[test]
fn every_legal_combination_reaches_its_scale() {
    let families = [Family::Rm0433, Family::Rm0399, Family::Rm0455, Family::Rm0468];
    let syscfg = SYSCFG::new();
    for family in families {
        for smps in [false, true] {
            if family == Family::Rm0433 && smps {
                continue;
            }
            for revision_v in [false, true] {
                let supplies: Vec<u8> = if smps { (0..6).collect() } else { vec![0] };
                for supply in supplies {
                    for scale in 0..4u8 {
                        let vos0 = revision_v && family != Family::Rm0455;
                        if scale == 0 && !vos0 {
                            continue;
                        }
                        let mut p = regs(family, smps, revision_v, 2).constrain();
                        p = match supply {
                            1 => p.ldo(),
                            2 => p.smps(),
                            3 => p.smps_1v8_feeds_ldo(),
                            4 => p.smps_2v5_feeds_ldo(),
                            5 => p.bypass(),
                            _ => p,
                        };
                        let (p, want) = match scale {
                            0 => (p.vos0(&syscfg), VoltageScale::Scale0),
                            1 => (p.vos1(), VoltageScale::Scale1),
                            2 => (p.vos2(), VoltageScale::Scale2),
                            _ => (p.vos3(), VoltageScale::Scale3),
                        };
                        let cfg = p.freeze().0.unwrap();
                        assert_eq!(cfg.vos(), want);
                    }
                }
            }
        }
    }
}

#[test]
fn default_supply_leaves_cr3_alone() {
    let odd = Cr3 { sden: false, ldoen: false, sdlevel: 3, bypass: true, scuen: false };
    let mut results = Vec::new();
    for (cr3, locked) in [(reset_cr3(), false), (odd, true), (odd, false)] {
        let rb = PWR::new(Variant { family: Family::Rm0455, smps: true, revision_v: false }, cr3, locked, 1);
        let (r, rb) = rb.constrain().vos2().freeze();
        assert_eq!(rb.cr3, cr3);
        assert_eq!(rb.cr3_locked, locked);
        assert_eq!(count(rb.accesses(), Access::ReadCr3), 0);
        assert_eq!(count(rb.accesses(), Access::WriteCr3), 0);
        results.push(r.unwrap().vos());
    }
    assert_eq!(results, vec![VoltageScale::Scale2; 3]);
}

#[test]
fn locked_mismatch_stops_before_scaling() {
    let ldo = Cr3 { sden: false, ldoen: true, sdlevel: 0, bypass: false, scuen: true };
    let rb = PWR::new(Variant { family: Family::Rm0399, smps: true, revision_v: true }, ldo, true, 0);
    let (r, rb) = rb.constrain().smps().freeze();
    assert_eq!(r.err(), Some(CommitError::SupplyConfigurationMismatch));
    assert_eq!(rb.accesses().clone(), vec![Access::ReadCr3, Access::WriteCr3, Access::ReadCr3]);
    assert_eq!(rb.cr3, ldo);
    assert!(!rb.dbp);
}

#[test]
fn locked_matching_configuration_commits() {
    let ldo = Cr3 { sden: false, ldoen: true, sdlevel: 0, bypass: false, scuen: true };
    let rb = PWR::new(Variant { family: Family::Rm0468, smps: true, revision_v: false }, ldo, true, 0);
    let cfg = rb.constrain().ldo().vos3().freeze().0.unwrap();
    assert_eq!(cfg.vos(), VoltageScale::Scale3);
}

#[test]
fn each_mismatching_selection_is_fatal() {
    let direct = Cr3 { sden: true, ldoen: false, sdlevel: 0, bypass: false, scuen: true };
    for pick in 0..4u8 {
        let rb = PWR::new(Variant { family: Family::Rm0455, smps: true, revision_v: true }, direct, true, 0);
        let p = rb.constrain();
        let p = match pick {
            0 => p.ldo(),
            1 => p.smps_1v8_feeds_ldo(),
            2 => p.smps_2v5_feeds_ldo(),
            _ => p.bypass(),
        };
        assert_eq!(p.freeze().0.err(), Some(CommitError::SupplyConfigurationMismatch));
    }
}

#[test]
fn polls_stop_on_the_read_that_sees_the_flag() {
    let mut rb = regs(Family::Rm0433, false, false, 3);
    rb.wait_active_ready();
    assert_eq!(rb.accesses().clone(), vec![Access::ReadCsr1; 4]);
    assert_eq!(rb.actvosrdy_wait, 0);
    rb.wait_active_ready();
    assert_eq!(rb.accesses().len(), 5);

    let mut rb = regs(Family::Rm0433, false, false, 2);
    rb.write_vos(0b10);
    rb.wait_vos_ready();
    assert_eq!(count(rb.accesses(), Access::ReadD3cr), 3);
    rb.set_dbp();
    rb.wait_backup_access();
    assert_eq!(count(rb.accesses(), Access::ReadCr1), 3);
    rb.set_bren();
    rb.wait_backup_regulator();
    assert_eq!(count(rb.accesses(), Access::ReadCr2), 3);
}

#[test]
fn commit_polls_with_latency() {
    let (r, rb) = regs(Family::Rm0433, false, false, 4).constrain().vos3().backup_regulator().freeze();
    assert_eq!(r.unwrap().vos(), VoltageScale::Scale3);
    assert_eq!(count(rb.accesses(), Access::ReadCsr1), 5);
    assert_eq!(count(rb.accesses(), Access::ReadD3cr), 5);
    assert_eq!(count(rb.accesses(), Access::ReadCr1), 5);
    assert_eq!(count(rb.accesses(), Access::ReadCr2), 5);
    assert_eq!(rb.vos, 0b01);
}

#[test]
fn scale0_by_second_transition() {
    let syscfg = SYSCFG::new();
    let (r, rb) = regs(Family::Rm0468, true, true, 2).constrain().vos0(&syscfg).freeze();
    assert_eq!(r.unwrap().vos(), VoltageScale::Scale0);
    let log = rb.accesses();
    let first = position(log, Access::WriteVos(0b11));
    let top = position(log, Access::WriteVos(0b00));
    assert!(first < top);
    assert_eq!(count(log, Access::SetOverdrive), 0);
    assert_eq!(rb.vos, 0b00);
    assert_eq!(rb.actvos, 0b00);
    assert!(!rb.oden);
}

#[test]
fn scale0_writes_scale1_before_overdrive() {
    let syscfg = SYSCFG::new();
    let (r, rb) = regs(Family::Rm0433, false, true, 1).constrain().vos0(&syscfg).freeze();
    assert_eq!(r.unwrap().vos(), VoltageScale::Scale0);
    let log = rb.accesses();
    assert!(position(log, Access::WriteVos(0b11)) < position(log, Access::SetOverdrive));
    assert!(position(log, Access::EnableSyscfgClock) < position(log, Access::SetOverdrive));
    assert_eq!(count(log, Access::WriteVos(0b00)), 0);
    assert!(rb.syscfgen && rb.oden);
}

#[test]
fn backup_handle_taken_once() {
    let mut cfg = regs(Family::Rm0399, true, false, 0).constrain().backup_regulator().freeze().0.unwrap();
    let handle = cfg.backup();
    assert!(handle.unwrap().regulator_enabled());
    assert!(cfg.backup().is_none());
    assert!(cfg.backup().is_none());
    assert_eq!(cfg.vos(), VoltageScale::Scale1);

    let mut cfg = regs(Family::Rm0399, true, false, 0).constrain().freeze().0.unwrap();
    assert!(!cfg.backup().unwrap().regulator_enabled());
    assert!(cfg.backup().is_none());
}

#[test]
fn backup_regulator_is_started_when_asked() {
    let (_, rb) = regs(Family::Rm0455, true, false, 0).constrain().backup_regulator().freeze();
    let log = rb.accesses();
    assert!(rb.bren);
    assert!(position(log, Access::SetDbp) < position(log, Access::SetBren));
    assert_eq!(log.last(), Some(&Access::ReadCr2));
}

#[test]
fn vos_field_encodings_per_family() {
    let cases = [
        (Family::Rm0433, [0b11u8, 0b10, 0b01]),
        (Family::Rm0399, [0b11, 0b10, 0b01]),
        (Family::Rm0455, [0b10, 0b01, 0b00]),
        (Family::Rm0468, [0b11, 0b10, 0b01]),
    ];
    for (family, bits) in cases {
        let p = || regs(family, family != Family::Rm0433, false, 0).constrain();
        assert_eq!(p().vos1().freeze().1.vos, bits[0]);
        assert_eq!(p().vos2().freeze().1.vos, bits[1]);
        assert_eq!(p().vos3().freeze().1.vos, bits[2]);
    }
}

#[test]
fn smps_feeding_ldo_sets_level() {
    let (r, rb) = regs(Family::Rm0399, true, false, 0).constrain().smps_1v8_feeds_ldo().freeze();
    assert!(r.is_ok());
    assert!(rb.cr3.sden && rb.cr3.ldoen);
    assert_eq!(rb.cr3.sdlevel, 1);
    let (r, rb) = regs(Family::Rm0399, true, false, 0).constrain().smps_2v5_feeds_ldo().freeze();
    assert!(r.is_ok());
    assert_eq!(rb.cr3.sdlevel, 2);
    let (r, rb) = regs(Family::Rm0468, true, false, 0).constrain().bypass().freeze();
    assert!(r.is_ok());
    assert!(!rb.cr3.sden && !rb.cr3.ldoen && rb.cr3.bypass);
}

#[test]
fn supply_configuration_apply_and_verify() {
    let c = reset_cr3();
    let w = SupplyConfiguration::LDOSupply.apply(c);
    assert!(!w.sden && w.ldoen);
    assert!(SupplyConfiguration::LDOSupply.verify(w));
    assert!(!SupplyConfiguration::DirectSMPS.verify(w));
    assert_eq!(SupplyConfiguration::Default.apply(c), c);
    assert!(SupplyConfiguration::Default.verify(c));
}

#[test]
fn inner_access_to_registers() {
    let mut p = regs(Family::Rm0433, false, false, 0).constrain();
    assert_eq!(p.inner().latency, 0);
    p.inner_mut().latency = 3;
    assert_eq!(p.inner().latency, 3);
    let (_, rb) = p.freeze();
    assert_eq!(count(rb.accesses(), Access::ReadD3cr), 4);
}

#[test]
fn variant_vos0_support() {
    assert!(Variant { family: Family::Rm0433, smps: false, revision_v: true }.supports_vos0());
    assert!(!Variant { family: Family::Rm0433, smps: false, revision_v: false }.supports_vos0());
    assert!(!Variant { family: Family::Rm0455, smps: true, revision_v: true }.supports_vos0());
    assert!(Variant { family: Family::Rm0468, smps: true, revision_v: true }.supports_vos0());
}

#[test]
fn second_transition_when_actvos_already_shows_scale0() {
    let syscfg = SYSCFG::new();
    let mut rb = regs(Family::Rm0468, true, true, 2);
    rb.vos = 0b00;
    rb.actvos = 0b00;
    let (r, rb) = rb.constrain().vos0(&syscfg).freeze();
    assert_eq!(r.unwrap().vos(), VoltageScale::Scale0);
    let mut want = vec![Access::ReadCsr1; 3];
    want.push(Access::WriteVos(0b11));
    want.extend(vec![Access::ReadD3cr; 3]);
    want.push(Access::WriteVos(0b00));
    want.extend(vec![Access::ReadD3cr; 3]);
    want.extend(vec![Access::ReadD3cr, Access::ReadCsr1]);
    want.extend(vec![Access::ReadCsr1; 2]);
    want.push(Access::SetDbp);
    want.extend(vec![Access::ReadCr1; 3]);
    assert_eq!(rb.accesses().clone(), want);
}

#[test]
fn second_transition_waits_for_actvos() {
    let syscfg = SYSCFG::new();
    let (r, rb) = regs(Family::Rm0468, true, true, 1).constrain().vos0(&syscfg).freeze();
    assert_eq!(r.unwrap().vos(), VoltageScale::Scale0);
    let mut want = vec![Access::ReadCsr1; 2];
    want.push(Access::WriteVos(0b11));
    want.extend(vec![Access::ReadD3cr; 2]);
    want.push(Access::WriteVos(0b00));
    want.extend(vec![Access::ReadD3cr; 2]);
    want.extend(vec![Access::ReadD3cr, Access::ReadCsr1, Access::ReadD3cr, Access::ReadCsr1]);
    want.push(Access::ReadCsr1);
    want.push(Access::SetDbp);
    want.extend(vec![Access::ReadCr1; 2]);
    assert_eq!(rb.accesses().clone(), want);
}
