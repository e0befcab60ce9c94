//! The register file and its named-write primitive.
//!
//! Four 16-bit combined registers (AX, BX, CX, DX) alias pairs of 8-bit
//! halves (AH/AL, BH/BL, CH/CL, DH/DL); four address/index registers
//! (SP, BP, DI, SI) have no halves; nine boolean flags are never touched
//! by the write primitive. The half-register write policy is deliberate
//! and preserved exactly for compatibility: the target half receives the
//! *high byte* of the supplied value, and the owning combined register is
//! recomputed as `updated_half * 16 + sibling_half` (scale 16, not 256),
//! truncated to 16 bits.

use crate::mem::Mem;
use vstd::prelude::*;

verus! {

/// The closed set of register names the write primitive accepts.
#[derive(Clone, Copy, PartialEq, Eq, Structural, Debug)]
pub enum Register {
    AH,
    AL,
    BH,
    BL,
    CH,
    CL,
    DH,
    DL,
    AX,
    BX,
    CX,
    DX,
    SP,
    BP,
    DI,
    SI,
}

/// An 8-bit half of a combined register.
pub open spec fn is_half_register(r: Register) -> bool {
    r is AH || r is AL || r is BH || r is BL || r is CH || r is CL || r is DH || r is DL
}

/// A 16-bit register aliasing two halves.
pub open spec fn is_combined_register(r: Register) -> bool {
    r is AX || r is BX || r is CX || r is DX
}

/// A 16-bit address/index register with no half-register aliasing.
pub open spec fn is_address_register(r: Register) -> bool {
    r is SP || r is BP || r is DI || r is SI
}

/// The combined register that owns a half register.
pub open spec fn owner_of(r: Register) -> Register
    recommends
        is_half_register(r),
{
    match r {
        Register::AH | Register::AL => Register::AX,
        Register::BH | Register::BL => Register::BX,
        Register::CH | Register::CL => Register::CX,
        Register::DH | Register::DL => Register::DX,
        _ => r,
    }
}

/// The other half of the pair a half register belongs to.
pub open spec fn sibling_of(r: Register) -> Register
    recommends
        is_half_register(r),
{
    match r {
        Register::AH => Register::AL,
        Register::AL => Register::AH,
        Register::BH => Register::BL,
        Register::BL => Register::BH,
        Register::CH => Register::CL,
        Register::CL => Register::CH,
        Register::DH => Register::DL,
        Register::DL => Register::DH,
        _ => r,
    }
}

/// The byte a half-register write stores: the high byte of the supplied
/// value. The low byte of the caller's value is deliberately discarded.
pub open spec fn half_write_byte(v: u16) -> u8 {
    (v >> 8) as u8
}

/// The recombination a half-register write performs on the owning
/// combined register: the freshly written half scaled by 16 plus the
/// sibling half unscaled, truncated to 16 bits.
pub open spec fn recombined(updated: u8, sibling: u8) -> u16 {
    (updated * 16 + sibling) as u16
}

/// The register file of an 8086-class processor, together with the main
/// memory it exclusively owns.
#[allow(non_snake_case)]
pub struct CPU {
    pub memory: Mem,
    // 8-bit half registers
    pub AH: u8,
    pub AL: u8,
    pub BH: u8,
    pub BL: u8,
    pub CH: u8,
    pub CL: u8,
    pub DH: u8,
    pub DL: u8,
    // 16-bit combined registers
    pub AX: u16,
    pub BX: u16,
    pub CX: u16,
    pub DX: u16,
    // 16-bit address/index registers
    pub SP: u16,
    pub BP: u16,
    pub DI: u16,
    pub SI: u16,
    // control flags
    pub TF: bool,
    pub DF: bool,
    pub IF: bool,
    // status flags
    pub OF: bool,
    pub SF: bool,
    pub ZF: bool,
    pub AF: bool,
    pub PF: bool,
    pub CF: bool,
}

/// What any register reads as, the 8-bit halves widened to 16 bits.
pub open spec fn read_reg(c: CPU, r: Register) -> u16 {
    match r {
        Register::AH => c.AH as u16,
        Register::AL => c.AL as u16,
        Register::BH => c.BH as u16,
        Register::BL => c.BL as u16,
        Register::CH => c.CH as u16,
        Register::CL => c.CL as u16,
        Register::DH => c.DH as u16,
        Register::DL => c.DL as u16,
        Register::AX => c.AX,
        Register::BX => c.BX,
        Register::CX => c.CX,
        Register::DX => c.DX,
        Register::SP => c.SP,
        Register::BP => c.BP,
        Register::DI => c.DI,
        Register::SI => c.SI,
    }
}

/// The nine flags, in a fixed order, as one value.
pub open spec fn flags_of(c: CPU) -> Seq<bool> {
    seq![c.TF, c.DF, c.IF, c.OF, c.SF, c.ZF, c.AF, c.PF, c.CF]
}

/// Every register holds zero and every flag is false.
pub open spec fn registers_zeroed(c: CPU) -> bool {
    &&& forall|r: Register| read_reg(c, r) == 0u16
    &&& flags_of(c) =~= seq![false; 9]
}

/// The full effect of one write to a known register: exactly the fields
/// the three write policies mention change; everything else, the flags
/// and the memory included, stays as it was.
pub open spec fn set_reg(c: CPU, r: Register, v: u16) -> CPU {
    match r {
        Register::AH => CPU {
            AH: half_write_byte(v),
            AX: recombined(half_write_byte(v), c.AL),
            ..c
        },
        Register::AL => CPU {
            AL: half_write_byte(v),
            AX: recombined(half_write_byte(v), c.AH),
            ..c
        },
        Register::BH => CPU {
            BH: half_write_byte(v),
            BX: recombined(half_write_byte(v), c.BL),
            ..c
        },
        Register::BL => CPU {
            BL: half_write_byte(v),
            BX: recombined(half_write_byte(v), c.BH),
            ..c
        },
        Register::CH => CPU {
            CH: half_write_byte(v),
            CX: recombined(half_write_byte(v), c.CL),
            ..c
        },
        Register::CL => CPU {
            CL: half_write_byte(v),
            CX: recombined(half_write_byte(v), c.CH),
            ..c
        },
        Register::DH => CPU {
            DH: half_write_byte(v),
            DX: recombined(half_write_byte(v), c.DL),
            ..c
        },
        Register::DL => CPU {
            DL: half_write_byte(v),
            DX: recombined(half_write_byte(v), c.DH),
            ..c
        },
        Register::AX => CPU { AX: v, AH: (v >> 8) as u8, AL: v as u8, ..c },
        Register::BX => CPU { BX: v, BH: (v >> 8) as u8, BL: v as u8, ..c },
        Register::CX => CPU { CX: v, CH: (v >> 8) as u8, CL: v as u8, ..c },
        Register::DX => CPU { DX: v, DH: (v >> 8) as u8, DL: v as u8, ..c },
        Register::SP => CPU { SP: v, ..c },
        Register::BP => CPU { BP: v, ..c },
        Register::DI => CPU { DI: v, ..c },
        Register::SI => CPU { SI: v, ..c },
    }
}

/// Which register a name denotes, or `None` for any name outside the
/// fixed 16-name set.
pub open spec fn spec_reg_of_name(s: Seq<char>) -> Option<Register> {
    if s == "AH"@ {
        Some(Register::AH)
    } else if s == "AL"@ {
        Some(Register::AL)
    } else if s == "BH"@ {
        Some(Register::BH)
    } else if s == "BL"@ {
        Some(Register::BL)
    } else if s == "CH"@ {
        Some(Register::CH)
    } else if s == "CL"@ {
        Some(Register::CL)
    } else if s == "DH"@ {
        Some(Register::DH)
    } else if s == "DL"@ {
        Some(Register::DL)
    } else if s == "AX"@ {
        Some(Register::AX)
    } else if s == "BX"@ {
        Some(Register::BX)
    } else if s == "CX"@ {
        Some(Register::CX)
    } else if s == "DX"@ {
        Some(Register::DX)
    } else if s == "SP"@ {
        Some(Register::SP)
    } else if s == "BP"@ {
        Some(Register::BP)
    } else if s == "DI"@ {
        Some(Register::DI)
    } else if s == "SI"@ {
        Some(Register::SI)
    } else {
        None
    }
}

/// The full effect of one named write: a known name follows its write
/// policy; an unknown name is a silent no-op.
pub open spec fn set_named(c: CPU, name: Seq<char>, v: u16) -> CPU {
    match spec_reg_of_name(name) {
        Some(r) => set_reg(c, r, v),
        None => c,
    }
}

/// Character-by-character string equality, decided without trusting any
/// outside comparison.
fn str_eq(a: &str, b: &str) -> (r: bool)
    ensures
        r == (a@ == b@),
{
    let a_len = a.unicode_len();
    let b_len = b.unicode_len();
    if a_len != b_len {
        return false;
    }
    let mut i: usize = 0;
    while i < a_len
        invariant
            a_len == a@.len(),
            a_len == b@.len(),
            i <= a_len,
            forall|j: int| 0 <= j < i ==> a@[j] == b@[j],
        decreases a_len - i,
    {
        if a.get_char(i) != b.get_char(i) {
            return false;
        }
        i = i + 1;
    }
    proof {
        assert(a@ =~= b@);
    }
    true
}

/// Parses an external register name into the closed enumeration;
/// `None` is the clear signal for an unrecognized name.
pub fn reg_of_name(name: &str) -> (r: Option<Register>)
    ensures
        r == spec_reg_of_name(name@),
{
    if str_eq(name, "AH") {
        Some(Register::AH)
    } else if str_eq(name, "AL") {
        Some(Register::AL)
    } else if str_eq(name, "BH") {
        Some(Register::BH)
    } else if str_eq(name, "BL") {
        Some(Register::BL)
    } else if str_eq(name, "CH") {
        Some(Register::CH)
    } else if str_eq(name, "CL") {
        Some(Register::CL)
    } else if str_eq(name, "DH") {
        Some(Register::DH)
    } else if str_eq(name, "DL") {
        Some(Register::DL)
    } else if str_eq(name, "AX") {
        Some(Register::AX)
    } else if str_eq(name, "BX") {
        Some(Register::BX)
    } else if str_eq(name, "CX") {
        Some(Register::CX)
    } else if str_eq(name, "DX") {
        Some(Register::DX)
    } else if str_eq(name, "SP") {
        Some(Register::SP)
    } else if str_eq(name, "BP") {
        Some(Register::BP)
    } else if str_eq(name, "DI") {
        Some(Register::DI)
    } else if str_eq(name, "SI") {
        Some(Register::SI)
    } else {
        None
    }
}

/// The default main-memory capacity: 256 KiB.
pub const DEFAULT_MEMORY_CAPACITY: usize = 256 * 1024;

impl Default for CPU {
    /// A fresh processor: every register and flag zero, and a zero-filled
    /// address space of the default capacity.
    fn default() -> (c: CPU)
        ensures
            registers_zeroed(c),
            c.memory.is_zeroed(DEFAULT_MEMORY_CAPACITY as nat),
    {
        CPU::with_capacity(DEFAULT_MEMORY_CAPACITY)
    }
}

#[allow(non_snake_case)]
impl CPU {
    /// A fresh processor with a main memory of the given capacity:
    /// every register and flag zero, every memory byte zero.
    pub fn with_capacity(capacity: usize) -> (c: CPU)
        ensures
            registers_zeroed(c),
            c.memory.is_zeroed(capacity as nat),
    {
        let c = CPU {
            memory: Mem::new(capacity),
            AH: 0,
            AL: 0,
            BH: 0,
            BL: 0,
            CH: 0,
            CL: 0,
            DH: 0,
            DL: 0,
            AX: 0,
            BX: 0,
            CX: 0,
            DX: 0,
            SP: 0,
            BP: 0,
            DI: 0,
            SI: 0,
            TF: false,
            DF: false,
            IF: false,
            OF: false,
            SF: false,
            ZF: false,
            AF: false,
            PF: false,
            CF: false,
        };
        c
    }

    /// Writes a value to one register of the closed enumeration,
    /// following the three name-dependent write policies.
    #[verifier::rlimit(50)]
    pub fn set_register_id(&mut self, register: Register, value: u16)
        ensures
            *final(self) == set_reg(*old(self), register, value),
    {
        match register {
            Register::AH => {
                self.AH = (value >> 8) as u8;
                self.AX = (self.AH as u16) * 16 + (self.AL as u16);
            },
            Register::AL => {
                self.AL = (value >> 8) as u8;
                self.AX = (self.AL as u16) * 16 + (self.AH as u16);
            },
            Register::BH => {
                self.BH = (value >> 8) as u8;
                self.BX = (self.BH as u16) * 16 + (self.BL as u16);
            },
            Register::BL => {
                self.BL = (value >> 8) as u8;
                self.BX = (self.BL as u16) * 16 + (self.BH as u16);
            },
            Register::CH => {
                self.CH = (value >> 8) as u8;
                self.CX = (self.CH as u16) * 16 + (self.CL as u16);
            },
            Register::CL => {
                self.CL = (value >> 8) as u8;
                self.CX = (self.CL as u16) * 16 + (self.CH as u16);
            },
            Register::DH => {
                self.DH = (value >> 8) as u8;
                self.DX = (self.DH as u16) * 16 + (self.DL as u16);
            },
            Register::DL => {
                self.DL = (value >> 8) as u8;
                self.DX = (self.DL as u16) * 16 + (self.DH as u16);
            },
            Register::AX => {
                self.AX = value;
                self.AL = value as u8;
                self.AH = (value >> 8) as u8;
            },
            Register::BX => {
                self.BX = value;
                self.BL = value as u8;
                self.BH = (value >> 8) as u8;
            },
            Register::CX => {
                self.CX = value;
                self.CL = value as u8;
                self.CH = (value >> 8) as u8;
            },
            Register::DX => {
                self.DX = value;
                self.DL = value as u8;
                self.DH = (value >> 8) as u8;
            },
            Register::SP => {
                self.SP = value;
            },
            Register::BP => {
                self.BP = value;
            },
            Register::DI => {
                self.DI = value;
            },
            Register::SI => {
                self.SI = value;
            },
        }
    }

    /// The named-write primitive. A name in the fixed 16-name set follows
    /// its register's write policy; any other name leaves all state
    /// unchanged, with no failure signalled. No flags are touched in any
    /// case.
    pub fn setRegister(&mut self, register: &str, value: u16)
        ensures
            *final(self) == set_named(*old(self), register@, value),
    {
        match reg_of_name(register) {
            Some(r) => self.set_register_id(r, value),
            None => (),
        }
    }

    /// Power-on setup, distinct from construction: issues exactly one
    /// named write, setting AX to 302 — so AH becomes 1 and AL becomes 46
    /// through the combined-register write policy.
    pub fn initialize(&mut self)
        ensures
            *final(self) == set_reg(*old(self), Register::AX, 302u16),
            final(self).AX == 302u16,
            final(self).AH == 1u8,
            final(self).AL == 46u8,
    {
        self.setRegister("AX", 302);
        proof {
            reveal_strlit("AX");
            reveal_strlit("AH");
            reveal_strlit("AL");
            reveal_strlit("BH");
            reveal_strlit("BL");
            reveal_strlit("CH");
            reveal_strlit("CL");
            reveal_strlit("DH");
            reveal_strlit("DL");
            assert("AX"@[1] != "AH"@[1]);
            assert("AX"@[1] != "AL"@[1]);
            assert("AX"@[0] != "BH"@[0]);
            assert("AX"@[0] != "BL"@[0]);
            assert("AX"@[0] != "CH"@[0]);
            assert("AX"@[0] != "CL"@[0]);
            assert("AX"@[0] != "DH"@[0]);
            assert("AX"@[0] != "DL"@[0]);
            assert(spec_reg_of_name("AX"@) == Some(Register::AX));
            assert(302u16 >> 8 == 1u16) by (bit_vector);
            assert(302u16 as u8 == 46u8) by (bit_vector);
        }
    }
}

} // verus!
