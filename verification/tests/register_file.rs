use emu8086::cpu::Register;
use emu8086::cpu::CPU;
use emu8086::cpu::DEFAULT_MEMORY_CAPACITY;

/// All sixteen registers, halves widened, in a fixed order.
fn regs(c: &CPU) -> [u16; 16] {
    [
        c.AH as u16,
        c.AL as u16,
        c.BH as u16,
        c.BL as u16,
        c.CH as u16,
        c.CL as u16,
        c.DH as u16,
        c.DL as u16,
        c.AX,
        c.BX,
        c.CX,
        c.DX,
        c.SP,
        c.BP,
        c.DI,
        c.SI,
    ]
}

/// All nine flags, in a fixed order.
fn flags(c: &CPU) -> [bool; 9] {
    [c.TF, c.DF, c.IF, c.OF, c.SF, c.ZF, c.AF, c.PF, c.CF]
}

#[test]
fn construction_zeroes_everything() {
    let c = CPU::default();
    assert_eq!(regs(&c), [0u16; 16]);
    assert_eq!(flags(&c), [false; 9]);
}

#[test]
fn address_space_zero_init() {
    let c = CPU::default();
    assert_eq!(c.memory.ram.len(), DEFAULT_MEMORY_CAPACITY);
    assert_eq!(c.memory.ram.len(), 256 * 1024);
    assert!(c.memory.ram.iter().all(|&b| b == 0));
}

#[test]
fn configurable_capacity() {
    let c = CPU::with_capacity(64 * 1024);
    assert_eq!(c.memory.ram.len(), 64 * 1024);
    assert!(c.memory.ram.iter().all(|&b| b == 0));
}

#[test]
fn initialize_sets_ax_to_302() {
    let mut c = CPU::default();
    c.initialize();
    assert_eq!(c.AX, 302);
    assert_eq!(c.AH, 1); // 302 >> 8
    assert_eq!(c.AL, 46); // 302 & 0xFF
    // every other register and flag stays zero/false
    let r = regs(&c);
    for (i, &x) in r.iter().enumerate() {
        match i {
            0 => assert_eq!(x, 1),   // AH
            1 => assert_eq!(x, 46),  // AL
            8 => assert_eq!(x, 302), // AX
            _ => assert_eq!(x, 0),
        }
    }
    assert_eq!(flags(&c), [false; 9]);
}

#[test]
fn combined_write_is_self_consistent() {
    let cases: [(&str, u16); 4] = [("AX", 0x1234), ("BX", 0xFFFF), ("CX", 0x0000), ("DX", 0x8001)];
    for (name, v) in cases {
        let mut c = CPU::default();
        c.setRegister(name, v);
        let (reg, high, low) = match name {
            "AX" => (c.AX, c.AH, c.AL),
            "BX" => (c.BX, c.BH, c.BL),
            "CX" => (c.CX, c.CH, c.CL),
            _ => (c.DX, c.DH, c.DL),
        };
        assert_eq!(reg, v);
        assert_eq!(high, (v >> 8) as u8);
        assert_eq!(low, (v & 0xFF) as u8);
    }
}

#[test]
fn address_write_is_isolated() {
    let names = ["SP", "BP", "DI", "SI"];
    for (i, name) in names.iter().enumerate() {
        let mut c = CPU::default();
        c.setRegister(name, 0xBEEF);
        let r = regs(&c);
        for (j, &x) in r.iter().enumerate() {
            if j == 12 + i {
                assert_eq!(x, 0xBEEF);
            } else {
                assert_eq!(x, 0);
            }
        }
        assert_eq!(flags(&c), [false; 9]);
    }
}

#[test]
fn half_write_stores_high_byte_and_recombines() {
    // writing v to AH when AL holds L: AH = v >> 8, AX = (v >> 8) * 16 + L
    let mut c = CPU::default();
    c.setRegister("AX", 0x00FF); // AL = 0xFF = 255
    c.setRegister("AH", 0xAB00);
    assert_eq!(c.AH, 0xAB);
    assert_eq!(c.AL, 0xFF);
    assert_eq!(c.AX, 0xAB * 16 + 255); // 2991

    // sibling L = 0
    let mut c = CPU::default();
    c.setRegister("CH", 0xFF00);
    assert_eq!(c.CH, 0xFF);
    assert_eq!(c.CL, 0);
    assert_eq!(c.CX, 0xFF * 16);

    // low-half write scales the updated (low) half by 16 too
    let mut c = CPU::default();
    c.setRegister("DX", 0x7700); // DH = 0x77
    c.setRegister("DL", 0x0399); // DL takes 0x03, low byte 0x99 discarded
    assert_eq!(c.DL, 0x03);
    assert_eq!(c.DH, 0x77);
    assert_eq!(c.DX, 0x03 * 16 + 0x77);
}

#[test]
fn half_write_discards_low_byte_of_value() {
    let mut c = CPU::default();
    c.setRegister("BH", 0x00FF); // high byte of the value is 0x00
    assert_eq!(c.BH, 0x00);
    assert_eq!(c.BX, 0);
}

#[test]
fn unknown_name_is_a_silent_no_op() {
    let mut c = CPU::default();
    c.setRegister("BX", 0x1234);
    c.setRegister("SP", 0x4444);
    let before_regs = regs(&c);
    let before_flags = flags(&c);
    let before_mem = c.memory.ram.clone();
    for name in ["", "A", "ax", "AXX", "ZZ", "IP", "FLAGS", "al"] {
        c.setRegister(name, 0xFFFF);
        assert_eq!(regs(&c), before_regs, "name {:?} changed a register", name);
        assert_eq!(flags(&c), before_flags, "name {:?} changed a flag", name);
        assert_eq!(c.memory.ram, before_mem, "name {:?} changed memory", name);
    }
}

#[test]
fn no_write_sequence_touches_flags() {
    let mut c = CPU::default();
    let names = [
        "AH", "AL", "BH", "BL", "CH", "CL", "DH", "DL", "AX", "BX", "CX", "DX", "SP", "BP", "DI",
        "SI", "??",
    ];
    for (i, name) in names.iter().enumerate() {
        c.setRegister(name, (i as u16) * 0x1111);
    }
    c.initialize();
    assert_eq!(flags(&c), [false; 9]);
}

#[test]
fn scenario_bx_then_bl() {
    let mut c = CPU::default();
    c.setRegister("BX", 0x1234);
    assert_eq!(c.BX, 0x1234);
    assert_eq!(c.BH, 0x12);
    assert_eq!(c.BL, 0x34);
    c.setRegister("BL", 0x0056);
    assert_eq!(c.BL, 0x00); // 0x0056 >> 8
    assert_eq!(c.BX, 0x0012); // 0 * 16 + 0x12
}

#[test]
fn write_by_register_id_matches_named_write() {
    let mut by_name = CPU::with_capacity(16);
    let mut by_id = CPU::with_capacity(16);
    let pairs: [(&str, Register); 5] = [
        ("AX", Register::AX),
        ("AH", Register::AH),
        ("BL", Register::BL),
        ("SP", Register::SP),
        ("DX", Register::DX),
    ];
    for (i, (name, id)) in pairs.iter().enumerate() {
        let v = 0x0101u16 * (i as u16 + 1);
        by_name.setRegister(name, v);
        by_id.set_register_id(*id, v);
        assert_eq!(regs(&by_name), regs(&by_id));
        assert_eq!(flags(&by_name), flags(&by_id));
    }
}
