use vr4300::cpu::GPR;
use vr4300::system::{ExecutionError, System, SystemResult};

fn pattern_cart(len: usize) -> Vec<u8> {
    (0..len).map(|i| (i % 253) as u8).collect()
}

#[test]
fn stage_one_seeds_reset_values() {
    let mut sys = System::new(Vec::new());
    sys.ipl1();
    assert_eq!(sys.cpu.cop0.Status.raw(), 0x3400_0000);
    assert_eq!(sys.cpu.cop0.Config.raw(), 0x0006_E463);
    assert_eq!(sys.cpu.rf.read_gpr(GPR::sp), 0xA400_1FF0);
    // Stage one touches nothing else.
    assert_eq!(sys.cpu.rf.PC, 0);
    assert_eq!(sys.cpu.rf.read_gpr(GPR::t0), 0);
}

#[test]
fn stage_two_copies_the_boot_window_and_sets_the_entry() {
    let cart = pattern_cart(0x2000);
    let mut sys = System::new(cart.clone());
    sys.ipl2().unwrap();
    // The first 4,096 bytes of coprocessor data memory equal the first
    // 4,096 bytes of the cartridge image.
    let dmem = sys.read(0xA400_0000, 4096).unwrap();
    assert_eq!(&dmem[..], &cart[..4096]);
    // The program counter is at the documented entry address.
    assert_eq!(sys.cpu.rf.PC, 0xA400_0040);
}

#[test]
fn stage_two_needs_a_full_boot_window() {
    let mut sys = System::new(pattern_cart(0x800));
    assert_eq!(sys.ipl2(), Err(ExecutionError::MemoryFault));
    assert_eq!(sys.cpu.rf.PC, 0);
}

#[test]
fn boot_then_run_reaches_the_copied_code() {
    // A cartridge whose boot window holds, at the entry offset:
    //   ORI t0, zero, 0x123 ; BNE t0, t0 (not taken) ; ORI t1, zero, 7
    let mut cart = vec![0u8; 0x1000];
    let words: [u32; 3] = [
        (0x0D << 26) | (8 << 16) | 0x123,
        (0x05 << 26) | (8 << 21) | (8 << 16) | 1,
        (0x0D << 26) | (9 << 16) | 7,
    ];
    for (k, w) in words.iter().enumerate() {
        cart[0x40 + 4 * k..0x40 + 4 * k + 4].copy_from_slice(&w.to_be_bytes());
    }
    let mut sys = System::new(cart);
    sys.ipl1();
    sys.ipl2().unwrap();
    assert_eq!(sys.cpu.rf.PC, 0xA400_0040);
    sys.step_block().unwrap();
    assert_eq!(sys.cpu.rf.read_gpr(GPR::t0), 0x123);
    assert_eq!(sys.cpu.rf.read_gpr(GPR::t1), 7);
    assert_eq!(sys.cpu.rf.PC, 0xA400_0040 + 12);
}

#[test]
fn system_result_variants_are_distinct() {
    assert_ne!(SystemResult::Graceful, SystemResult::Errored);
}
