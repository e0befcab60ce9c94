//! The laws the register file obeys, stated and proved once for all inputs.
//!
//! Each law is phrased over the same transition functions that the write
//! primitive's contracts ensure (`set_reg`, `set_named`), so what is proved
//! here holds of every state any sequence of writes can reach.

use crate::cpu::CPU;
use crate::cpu::Register;
use crate::cpu::flags_of;
use crate::cpu::half_write_byte;
use crate::cpu::is_address_register;
use crate::cpu::is_combined_register;
use crate::cpu::is_half_register;
use crate::cpu::owner_of;
use crate::cpu::read_reg;
use crate::cpu::recombined;
use crate::cpu::registers_zeroed;
use crate::cpu::set_named;
use crate::cpu::set_reg;
use crate::cpu::sibling_of;
use crate::cpu::spec_reg_of_name;
use vstd::prelude::*;

verus! {

/// The high half of a combined register.
pub open spec fn high_half_of(r: Register) -> Register
    recommends
        is_combined_register(r),
{
    match r {
        Register::AX => Register::AH,
        Register::BX => Register::BH,
        Register::CX => Register::CH,
        Register::DX => Register::DH,
        _ => r,
    }
}

/// The low half of a combined register.
pub open spec fn low_half_of(r: Register) -> Register
    recommends
        is_combined_register(r),
{
    match r {
        Register::AX => Register::AL,
        Register::BX => Register::BL,
        Register::CX => Register::CL,
        Register::DX => Register::DL,
        _ => r,
    }
}

/// A sequence of named writes applied in order, each one the transition
/// the named-write primitive ensures.
pub open spec fn apply_writes(c: CPU, writes: Seq<(Seq<char>, u16)>) -> CPU
    decreases writes.len(),
{
    if writes.len() == 0 {
        c
    } else {
        apply_writes(set_named(c, writes[0].0, writes[0].1), writes.drop_first())
    }
}

/// Reset determinism: from an all-zero register file, the one write that
/// power-on setup issues (AX := 302) leaves AX = 302, AH = 1, AL = 46,
/// every other register and flag at its zero/false value, and the memory
/// untouched.
pub proof fn lemma_initialize_from_reset(c: CPU)
    requires
        registers_zeroed(c),
    ensures
        ({
            let c2 = set_reg(c, Register::AX, 302u16);
            &&& c2.AX == 302u16
            &&& c2.AH == 1u8
            &&& c2.AL == 46u8
            &&& forall|r: Register|
                !(r is AX || r is AH || r is AL) ==> read_reg(c2, r) == 0u16
            &&& flags_of(c2) =~= seq![false; 9]
            &&& c2.memory == c.memory
        }),
{
    let c2 = set_reg(c, Register::AX, 302u16);
    assert(302u16 >> 8 == 1u16) by (bit_vector);
    assert(302u16 as u8 == 46u8) by (bit_vector);
    assert forall|r: Register|
        !(r is AX || r is AH || r is AL) implies read_reg(c2, r) == 0u16 by {
        assert(read_reg(c, r) == 0u16);
    }
}

/// A combined-register write is self-consistent: the register takes the
/// full supplied value, its high half the value's high byte, and its low
/// half the value's low byte.
pub proof fn lemma_combined_write_self_consistent(c: CPU, r: Register, v: u16)
    requires
        is_combined_register(r),
    ensures
        ({
            let c2 = set_reg(c, r, v);
            &&& read_reg(c2, r) == v
            &&& read_reg(c2, high_half_of(r)) == v >> 8
            &&& read_reg(c2, low_half_of(r)) == v & 0xFF
        }),
{
    assert((v >> 8) as u8 as u16 == v >> 8) by (bit_vector);
    assert(v as u8 as u16 == v & 0xFF) by (bit_vector);
}

/// An address/index-register write is isolated: the target takes the
/// value; every other register, every flag, and the memory are unchanged.
pub proof fn lemma_address_write_isolated(c: CPU, r: Register, v: u16)
    requires
        is_address_register(r),
    ensures
        ({
            let c2 = set_reg(c, r, v);
            &&& read_reg(c2, r) == v
            &&& forall|r2: Register| r2 != r ==> read_reg(c2, r2) == read_reg(c, r2)
            &&& flags_of(c2) =~= flags_of(c)
            &&& c2.memory == c.memory
        }),
{
}

/// A half-register write stores the high byte of the supplied value in
/// the target half — the low byte of the caller's value is discarded —
/// and recomputes the owning combined register as the freshly written
/// half scaled by 16 plus the sibling half unscaled, whatever value the
/// sibling held. The sibling itself, all other registers, the flags and
/// the memory are unchanged.
pub proof fn lemma_half_write_recombines(c: CPU, r: Register, v: u16)
    requires
        is_half_register(r),
    ensures
        ({
            let c2 = set_reg(c, r, v);
            &&& read_reg(c2, r) == half_write_byte(v) as u16
            &&& read_reg(c2, owner_of(r)) == recombined(
                half_write_byte(v),
                read_reg(c, sibling_of(r)) as u8,
            )
            &&& read_reg(c2, sibling_of(r)) == read_reg(c, sibling_of(r))
            &&& forall|r2: Register|
                r2 != r && r2 != owner_of(r) ==> read_reg(c2, r2) == read_reg(c, r2)
            &&& flags_of(c2) =~= flags_of(c)
            &&& c2.memory == c.memory
        }),
{
}

/// A named write with any name outside the fixed 16-name set is a silent
/// no-op: the whole processor state, flags and memory included, is
/// byte-for-byte what it was.
pub proof fn lemma_unknown_name_noop(c: CPU, name: Seq<char>, v: u16)
    requires
        spec_reg_of_name(name) is None,
    ensures
        set_named(c, name, v) == c,
{
}

/// One write to a known register never touches a flag.
pub proof fn lemma_write_preserves_flags(c: CPU, r: Register, v: u16)
    ensures
        flags_of(set_reg(c, r, v)) == flags_of(c),
{
    assert(flags_of(set_reg(c, r, v)) =~= flags_of(c));
}

/// No sequence of named writes — known names, unknown names, any values —
/// ever changes any flag; in particular every flag stays at the false
/// value construction gave it.
pub proof fn lemma_writes_preserve_flags(c: CPU, writes: Seq<(Seq<char>, u16)>)
    ensures
        flags_of(apply_writes(c, writes)) == flags_of(c),
    decreases writes.len(),
{
    if writes.len() == 0 {
    } else {
        let c1 = set_named(c, writes[0].0, writes[0].1);
        match spec_reg_of_name(writes[0].0) {
            Some(r) => lemma_write_preserves_flags(c, r, writes[0].1),
            None => (),
        }
        lemma_writes_preserve_flags(c1, writes.drop_first());
    }
}

} // verus!
