use emu8086::cpu::reg_of_name;
use emu8086::cpu::Register;

#[test]
fn every_known_name_parses() {
    let table: [(&str, Register); 16] = [
        ("AH", Register::AH),
        ("AL", Register::AL),
        ("BH", Register::BH),
        ("BL", Register::BL),
        ("CH", Register::CH),
        ("CL", Register::CL),
        ("DH", Register::DH),
        ("DL", Register::DL),
        ("AX", Register::AX),
        ("BX", Register::BX),
        ("CX", Register::CX),
        ("DX", Register::DX),
        ("SP", Register::SP),
        ("BP", Register::BP),
        ("DI", Register::DI),
        ("SI", Register::SI),
    ];
    for (name, reg) in table {
        assert_eq!(reg_of_name(name), Some(reg), "name {:?}", name);
    }
}

#[test]
fn unknown_names_are_rejected() {
    for name in ["", "A", "AHL", "ah", "Ax", "XX", "IP", "CS", "AX ", " AX"] {
        assert_eq!(reg_of_name(name), None, "name {:?}", name);
    }
}
