use cpu_core::registers::FlagsRegister;
use cpu_core::registers::Registers;

#[test]
fn test_flagreg() {
    let mut r = FlagsRegister::new();
    r.zero = true;
    r.carry = true;
    let z = r.to_byte();
    assert_eq!(z, 144);

    let rr = FlagsRegister::from_byte(z);
    assert_eq!(rr.zero, true);
    assert_eq!(rr.subtract, false);
    assert_eq!(rr.half_carry, false);
    assert_eq!(rr.carry, true);
}

#[test]
fn test_reg() {
    let mut a = Registers::new();
    a.set_bc(11);

    assert_eq!(a.get_bc(), 11);
    assert_eq!(a.a, 0);
    assert_eq!(a.b, 0);
    assert_eq!(a.c, 11);
    assert_eq!(a.d, 0);
    assert_eq!(a.e, 0);
    assert_eq!(a.h, 0);
    assert_eq!(a.l, 0);
}

#[test]
fn test_flags_round_trip_all() {
    for bits in 0u8..16u8 {
        let flags = FlagsRegister {
            zero: bits & 8 != 0,
            subtract: bits & 4 != 0,
            half_carry: bits & 2 != 0,
            carry: bits & 1 != 0,
        };
        let byte = flags.to_byte();
        assert_eq!(byte & 0x0F, 0, "low nibble of the byte form must be clear");
        let back = FlagsRegister::from_byte(byte);
        assert_eq!(back, flags);
    }
}

#[test]
fn test_from_byte_ignores_low_nibble() {
    let with_junk = FlagsRegister::from_byte(0x9F);
    let clean = FlagsRegister::from_byte(0x90);
    assert_eq!(with_junk, clean);
    assert!(with_junk.zero);
    assert!(!with_junk.subtract);
    assert!(!with_junk.half_carry);
    assert!(with_junk.carry);
}

#[test]
fn test_pair_round_trip() {
    for x in [0u16, 1, 0x00FF, 0x0100, 0xABCD, 0xFFFF] {
        let mut regs = Registers::new();
        regs.set_bc(x);
        assert_eq!(regs.get_bc(), x);
        regs.set_de(x);
        assert_eq!(regs.get_de(), x);
        regs.set_hl(x);
        assert_eq!(regs.get_hl(), x);
    }
    let mut regs = Registers::new();
    regs.set_bc(0xABCD);
    assert_eq!(regs.b, 0xAB);
    assert_eq!(regs.c, 0xCD);
}
