use vr4300::cpu::{
    cause_reg, config_reg, cop0, status_reg, Cpu, FP_control_reg, PRId_reg, Rf, TagLo_reg,
    XContext_reg, GPR,
};

#[test]
fn zero_register_reads_zero_after_any_write() {
    let mut rf = Rf::new();
    rf.write_gpr(GPR::zero, 0xDEAD_BEEF_DEAD_BEEF);
    assert_eq!(rf.read_gpr(GPR::zero), 0);
    rf.write_gpr(GPR::zero, u64::MAX);
    assert_eq!(rf.read_gpr(GPR::zero), 0);
}

#[test]
fn general_registers_hold_written_values() {
    let mut rf = Rf::new();
    rf.write_gpr(GPR::t0, 42);
    rf.write_gpr(GPR::ra, 0xFFFF_FFFF_FFFF_FFFF);
    assert_eq!(rf.read_gpr(GPR::t0), 42);
    assert_eq!(rf.read_gpr(GPR::ra), 0xFFFF_FFFF_FFFF_FFFF);
    assert_eq!(rf.read_gpr(GPR::t1), 0);
}

#[test]
fn register_indices_round_trip() {
    for n in 0u8..32 {
        let g = GPR::from_index(n);
        assert_eq!(g.as_index(), n);
    }
    assert_eq!(GPR::from_index(0), GPR::zero);
    assert_eq!(GPR::from_index(29), GPR::sp);
    assert_eq!(GPR::from_index(31), GPR::ra);
}

#[test]
fn status_register_fields() {
    let s = status_reg::from_raw(0x3400_0000);
    assert_eq!(s.raw(), 0x3400_0000);
    assert_eq!(s.CU(), 0x3);
    assert!(!s.RP());
    assert!(s.FR());
    assert!(!s.RE());
    assert_eq!(s.IM(), 0);
    assert!(!s.IE());
}

#[test]
fn status_register_discards_reserved_bits() {
    let s = status_reg::from_raw(0xFFFF_FFFF);
    // Bits 19 and 23 are hardwired zero.
    assert_eq!(s.raw(), 0xFF77_FFFF);
    assert!(s.BEV());
    assert!(s.TS());
    assert_eq!(s.KSU(), 0x3);
    assert!(s.ERL() && s.EXL() && s.IE());
}

#[test]
fn cause_register_fields() {
    let c = cause_reg::from_raw(0xFFFF_FFFF);
    // Bits 0, 1, 7, 26, 27 and 30 are hardwired zero.
    assert_eq!(c.raw(), 0xB3FF_FF7C);
    assert!(c.BD());
    assert_eq!(c.CE(), 0x3);
    assert_eq!(c.IP(), 0xFF);
    assert_eq!(c.ExcCode(), 0x1F);
}

#[test]
fn prid_register_fields() {
    let p = PRId_reg::from_raw(0xABCD_0B22);
    assert_eq!(p.raw(), 0x0B22);
    assert_eq!(p.Imp(), 0x0B);
    assert_eq!(p.Rev(), 0x22);
}

#[test]
fn config_register_forces_fixed_pattern() {
    let c = config_reg::from_raw(0);
    assert_eq!(c.raw(), 0x0006_6460);
    let c = config_reg::from_raw(0x0006_E463);
    assert_eq!(c.raw(), 0x0006_E463);
    assert_eq!(c.EC(), 0);
    assert_eq!(c.EP(), 0);
    assert!(c.BE());
    assert_eq!(c.K0(), 3);
}

#[test]
fn xcontext_and_taglo_fields() {
    let x = XContext_reg::from_raw(0xFFFF_FFFF_FFFF_FFFF);
    assert_eq!(x.raw(), 0xFFFF_FFFF_FFFF_FFF0);
    assert_eq!(x.R(), 0x3);
    let t = TagLo_reg::from_raw(0xFFFF_FFFF_FFFF_FFFF);
    assert_eq!(t.raw(), 0x0FFF_FFC0);
    assert_eq!(t.PState(), 0x3);
    assert_eq!(t.PTagLo(), 0xF_FFFF);
}

#[test]
fn fp_control_register_fields() {
    let f = FP_control_reg::from_raw(0x0183_F07F);
    assert_eq!(f.raw(), 0x0183_F07F);
    assert!(f.FS());
    assert!(f.C());
    assert_eq!(f.Cause(), 0x3F);
    assert_eq!(f.RM(), 0x3);
    let g = FP_control_reg::from_raw(0xFFFF_FFFF_FFFF_FFFF);
    assert_eq!(g.raw(), 0x0183_FFFF);
}

#[test]
fn fresh_cpu_is_zeroed() {
    let c = Cpu::new();
    assert_eq!(c.rf.read_gpr(GPR::sp), 0);
    assert_eq!(c.rf.PC, 0);
    assert_eq!(c.cop0.Status.raw(), 0);
    assert_eq!(c.cop0.Config.raw(), 0x0006_6460);
}

#[test]
fn fresh_cop0_is_zeroed() {
    let c = cop0::new();
    assert_eq!(c.Index, 0);
    assert_eq!(c.BadVAddr, 0);
    assert_eq!(c.Cause.raw(), 0);
    assert_eq!(c.PRId.raw(), 0);
    assert_eq!(c.TagLo.raw(), 0);
    assert_eq!(c.ErrorEPC, 0);
}
