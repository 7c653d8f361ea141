//! The CPU register file: the 8-bit registers A..L, the four flag bits held
//! in the upper nibble of F, and the 16-bit SP and PC. The flags are stored
//! as booleans, so the low nibble of the assembled F byte is zero by
//! construction, and every paired view (AF, BC, DE, HL) is defined from the
//! component bytes.

use vstd::prelude::*;

verus! {

/// Names of the registers, both the 8-bit file and the 16-bit pairs.
#[derive(Debug, Copy, Clone, PartialEq, Eq, Structural)]
pub enum Register {
    A,
    B,
    C,
    D,
    E,
    H,
    L,
    AF,
    BC,
    DE,
    HL,
    SP,
    PC,
}

/// The four flag bits of F: Z (bit 7), N (bit 6), H (bit 5), C (bit 4).
#[derive(Debug, Copy, Clone, PartialEq, Eq, Structural)]
pub enum Flag {
    Zero,
    Subtraction,
    HalfCarry,
    Carry,
}

/// The register file. Flags are kept as booleans; `spec_f` and `f` assemble
/// the F byte, whose low nibble is therefore always zero.
#[derive(Debug, Copy, Clone, PartialEq, Eq, Structural)]
pub struct Registers {
    pub a: u8,
    pub b: u8,
    pub c: u8,
    pub d: u8,
    pub e: u8,
    pub h: u8,
    pub l: u8,
    pub flag_z: bool,
    pub flag_n: bool,
    pub flag_h: bool,
    pub flag_c: bool,
    pub sp: u16,
    pub pc: u16,
}

/// The F byte assembled from four flag bits.
pub open spec fn mk_f(z: bool, n: bool, h: bool, c: bool) -> u8 {
    (if z {
        0x80u8
    } else {
        0u8
    }) | (if n {
        0x40u8
    } else {
        0u8
    }) | (if h {
        0x20u8
    } else {
        0u8
    }) | (if c {
        0x10u8
    } else {
        0u8
    })
}

/// Every F byte assembled from flag bits has a zero low nibble, and each
/// flag can be read back from its bit.
pub proof fn lemma_f_props(z: bool, n: bool, h: bool, c: bool)
    by (bit_vector)
    ensures
        mk_f(z, n, h, c) & 0x0F == 0,
        (mk_f(z, n, h, c) & 0x80 != 0) == z,
        (mk_f(z, n, h, c) & 0x40 != 0) == n,
        (mk_f(z, n, h, c) & 0x20 != 0) == h,
        (mk_f(z, n, h, c) & 0x10 != 0) == c,
        mk_f(z, n, h, c) & 0xF0 == mk_f(z, n, h, c),
        mk_f(z, n, h, c) <= 0xF0,
        !z && !n && !h && !c ==> mk_f(z, n, h, c) == 0,
{
}

/// Writing A = v / 256 and F = the masked low byte of v makes AF read back
/// as v with its low nibble cleared.
pub proof fn lemma_af_compose(value: u16)
    by (bit_vector)
    ensures
        ((value / 256) as u8) as u16 * 256 + (((value % 256) as u8 & 0xF0) as u16) == value
            & 0xFFF0,
{
}

/// Reassembling the four flag bits of a byte gives the byte's upper nibble.
pub proof fn lemma_f_decompose(v: u8)
    by (bit_vector)
    ensures
        mk_f(v & 0x80 != 0, v & 0x40 != 0, v & 0x20 != 0, v & 0x10 != 0) == v & 0xF0,
        v & 0xF0 <= 0xF0,
{
}

impl Registers {
    /// The F byte of this register file.
    pub open spec fn spec_f(self) -> u8 {
        mk_f(self.flag_z, self.flag_n, self.flag_h, self.flag_c)
    }

    /// The AF pair: A in the high byte, F in the low byte.
    pub open spec fn spec_af(self) -> u16 {
        (self.a * 256 + self.spec_f()) as u16
    }

    /// The BC pair.
    pub open spec fn spec_bc(self) -> u16 {
        (self.b * 256 + self.c) as u16
    }

    /// The DE pair.
    pub open spec fn spec_de(self) -> u16 {
        (self.d * 256 + self.e) as u16
    }

    /// The HL pair.
    pub open spec fn spec_hl(self) -> u16 {
        (self.h * 256 + self.l) as u16
    }

    /// A fresh register file: every register zero, every flag clear.
    pub fn new() -> (r: Registers)
        ensures
            r.a == 0 && r.b == 0 && r.c == 0 && r.d == 0 && r.e == 0 && r.h == 0 && r.l == 0,
            !r.flag_z && !r.flag_n && !r.flag_h && !r.flag_c,
            r.sp == 0 && r.pc == 0,
    {
        Registers {
            a: 0,
            b: 0,
            c: 0,
            d: 0,
            e: 0,
            h: 0,
            l: 0,
            flag_z: false,
            flag_n: false,
            flag_h: false,
            flag_c: false,
            sp: 0,
            pc: 0,
        }
    }

    /// Whether `register` names one of the eight-bit registers this file
    /// can read directly (F is only reachable through `f` and the pairs).
    pub open spec fn spec_is_8bit(register: Register) -> bool {
        ||| register is A
        ||| register is B
        ||| register is C
        ||| register is D
        ||| register is E
        ||| register is H
        ||| register is L
    }

    /// Whether `register` names a 16-bit register or pair.
    pub open spec fn spec_is_16bit(register: Register) -> bool {
        ||| register is AF
        ||| register is BC
        ||| register is DE
        ||| register is HL
        ||| register is SP
        ||| register is PC
    }

    /// The value of an 8-bit register.
    pub open spec fn spec_get8(self, register: Register) -> u8 {
        match register {
            Register::A => self.a,
            Register::B => self.b,
            Register::C => self.c,
            Register::D => self.d,
            Register::E => self.e,
            Register::H => self.h,
            Register::L => self.l,
            _ => 0,
        }
    }

    /// The value of a 16-bit register or pair.
    pub open spec fn spec_get16(self, register: Register) -> u16 {
        match register {
            Register::AF => self.spec_af(),
            Register::BC => self.spec_bc(),
            Register::DE => self.spec_de(),
            Register::HL => self.spec_hl(),
            Register::SP => self.sp,
            Register::PC => self.pc,
            _ => 0,
        }
    }

    /// The register file with one 8-bit register replaced.
    pub open spec fn spec_set8(self, register: Register, value: u8) -> Registers {
        match register {
            Register::A => Registers { a: value, ..self },
            Register::B => Registers { b: value, ..self },
            Register::C => Registers { c: value, ..self },
            Register::D => Registers { d: value, ..self },
            Register::E => Registers { e: value, ..self },
            Register::H => Registers { h: value, ..self },
            Register::L => Registers { l: value, ..self },
            _ => self,
        }
    }

    pub fn get_8bit_register(&self, register: Register) -> (r: u8)
        requires
            Self::spec_is_8bit(register),
        ensures
            r == self.spec_get8(register),
    {
        match register {
            Register::A => self.a,
            Register::B => self.b,
            Register::C => self.c,
            Register::D => self.d,
            Register::E => self.e,
            Register::H => self.h,
            Register::L => self.l,
            _ => 0,
        }
    }

    pub fn set_8bit_register(&mut self, register: Register, value: u8)
        requires
            Self::spec_is_8bit(register),
        ensures
            *final(self) == old(self).spec_set8(register, value),
            final(self).spec_get8(register) == value,
            forall|o: Register|
                Self::spec_is_8bit(o) && o != register ==> final(self).spec_get8(o) == old(
                    self,
                ).spec_get8(o),
    {
        match register {
            Register::A => self.a = value,
            Register::B => self.b = value,
            Register::C => self.c = value,
            Register::D => self.d = value,
            Register::E => self.e = value,
            Register::H => self.h = value,
            Register::L => self.l = value,
            _ => (),
        }
    }

    pub fn get_16bit_register(&self, register: Register) -> (r: u16)
        requires
            Self::spec_is_16bit(register),
        ensures
            r == self.spec_get16(register),
    {
        match register {
            Register::AF => self.af(),
            Register::BC => self.bc(),
            Register::DE => self.de(),
            Register::HL => self.hl(),
            Register::SP => self.sp,
            Register::PC => self.pc,
            _ => 0,
        }
    }

    pub fn set_16bit_register(&mut self, register: Register, value: u16)
        requires
            Self::spec_is_16bit(register),
        ensures
            register is AF ==> final(self).spec_af() == (value & 0xFFF0)
                && *final(self) == old(self).spec_with_af(value),
            register is BC ==> *final(self) == old(self).spec_with_bc(value),
            register is DE ==> *final(self) == old(self).spec_with_de(value),
            register is HL ==> *final(self) == old(self).spec_with_hl(value),
            register is SP ==> *final(self) == (Registers { sp: value, ..*old(self) }),
            register is PC ==> *final(self) == (Registers { pc: value, ..*old(self) }),
    {
        match register {
            Register::AF => {
                self.set_af(value);
                proof {
                    lemma_af_compose(value);
                }
            },
            Register::BC => self.set_bc(value),
            Register::DE => self.set_de(value),
            Register::HL => self.set_hl(value),
            Register::SP => self.sp = value,
            Register::PC => self.pc = value,
            _ => (),
        }
    }

    // --- 8-bit register getters/setters ---
    pub fn a(&self) -> (r: u8)
        ensures
            r == self.a,
    {
        self.a
    }

    pub fn a_ref(&mut self) -> (r: &mut u8)
        ensures
            *r == old(self).a,
            *final(self) == (Registers { a: *final(r), ..*old(self) }),
    {
        &mut self.a
    }

    pub fn set_a(&mut self, val: u8)
        ensures
            *final(self) == (Registers { a: val, ..*old(self) }),
    {
        self.a = val;
    }

    pub fn b(&self) -> (r: u8)
        ensures
            r == self.b,
    {
        self.b
    }

    pub fn b_ref(&mut self) -> (r: &mut u8)
        ensures
            *r == old(self).b,
            *final(self) == (Registers { b: *final(r), ..*old(self) }),
    {
        &mut self.b
    }

    pub fn set_b(&mut self, val: u8)
        ensures
            *final(self) == (Registers { b: val, ..*old(self) }),
    {
        self.b = val;
    }

    pub fn c(&self) -> (r: u8)
        ensures
            r == self.c,
    {
        self.c
    }

    pub fn c_ref(&mut self) -> (r: &mut u8)
        ensures
            *r == old(self).c,
            *final(self) == (Registers { c: *final(r), ..*old(self) }),
    {
        &mut self.c
    }

    pub fn set_c(&mut self, val: u8)
        ensures
            *final(self) == (Registers { c: val, ..*old(self) }),
    {
        self.c = val;
    }

    pub fn d(&self) -> (r: u8)
        ensures
            r == self.d,
    {
        self.d
    }

    pub fn d_ref(&mut self) -> (r: &mut u8)
        ensures
            *r == old(self).d,
            *final(self) == (Registers { d: *final(r), ..*old(self) }),
    {
        &mut self.d
    }

    pub fn set_d(&mut self, val: u8)
        ensures
            *final(self) == (Registers { d: val, ..*old(self) }),
    {
        self.d = val;
    }

    pub fn e(&self) -> (r: u8)
        ensures
            r == self.e,
    {
        self.e
    }

    pub fn e_ref(&mut self) -> (r: &mut u8)
        ensures
            *r == old(self).e,
            *final(self) == (Registers { e: *final(r), ..*old(self) }),
    {
        &mut self.e
    }

    pub fn set_e(&mut self, val: u8)
        ensures
            *final(self) == (Registers { e: val, ..*old(self) }),
    {
        self.e = val;
    }

    /// The F byte. Its low nibble is always zero.
    pub fn f(&self) -> (r: u8)
        ensures
            r == self.spec_f(),
            r & 0x0F == 0,
    {
        proof {
            lemma_f_props(self.flag_z, self.flag_n, self.flag_h, self.flag_c);
        }
        (if self.flag_z {
            0x80u8
        } else {
            0u8
        }) | (if self.flag_n {
            0x40u8
        } else {
            0u8
        }) | (if self.flag_h {
            0x20u8
        } else {
            0u8
        }) | (if self.flag_c {
            0x10u8
        } else {
            0u8
        })
    }

    /// The register file with the flags replaced by the upper nibble of `val`.
    pub open spec fn spec_with_f(self, val: u8) -> Registers {
        Registers {
            flag_z: val & 0x80 != 0,
            flag_n: val & 0x40 != 0,
            flag_h: val & 0x20 != 0,
            flag_c: val & 0x10 != 0,
            ..self
        }
    }

    /// Stores `val & 0xF0` into F: the low nibble is discarded.
    pub fn set_f(&mut self, val: u8)
        ensures
            *final(self) == old(self).spec_with_f(val),
            final(self).spec_f() == val & 0xF0,
    {
        proof {
            lemma_f_decompose(val);
        }
        self.flag_z = val & 0x80 != 0;
        self.flag_n = val & 0x40 != 0;
        self.flag_h = val & 0x20 != 0;
        self.flag_c = val & 0x10 != 0;
    }

    pub fn h(&self) -> (r: u8)
        ensures
            r == self.h,
    {
        self.h
    }

    pub fn h_ref(&mut self) -> (r: &mut u8)
        ensures
            *r == old(self).h,
            *final(self) == (Registers { h: *final(r), ..*old(self) }),
    {
        &mut self.h
    }

    pub fn set_h(&mut self, val: u8)
        ensures
            *final(self) == (Registers { h: val, ..*old(self) }),
    {
        self.h = val;
    }

    pub fn l(&self) -> (r: u8)
        ensures
            r == self.l,
    {
        self.l
    }

    pub fn l_ref(&mut self) -> (r: &mut u8)
        ensures
            *r == old(self).l,
            *final(self) == (Registers { l: *final(r), ..*old(self) }),
    {
        &mut self.l
    }

    pub fn set_l(&mut self, val: u8)
        ensures
            *final(self) == (Registers { l: val, ..*old(self) }),
    {
        self.l = val;
    }

    // --- 16-bit register pair getters/setters ---
    pub fn af(&self) -> (r: u16)
        ensures
            r == self.spec_af(),
    {
        proof {
            lemma_f_props(self.flag_z, self.flag_n, self.flag_h, self.flag_c);
        }
        self.a as u16 * 256 + self.f() as u16
    }

    /// The register file with AF replaced by `val` (the low nibble of F is
    /// discarded on the way in).
    pub open spec fn spec_with_af(self, val: u16) -> Registers {
        (Registers { a: (val / 256) as u8, ..self }).spec_with_f((val % 256) as u8)
    }

    pub fn set_af(&mut self, val: u16)
        ensures
            *final(self) == old(self).spec_with_af(val),
            final(self).a == val / 256,
            final(self).spec_f() == (val % 256) as u8 & 0xF0,
    {
        self.a = (val / 256) as u8;
        self.set_f((val % 256) as u8);
    }

    pub fn bc(&self) -> (r: u16)
        ensures
            r == self.spec_bc(),
    {
        self.b as u16 * 256 + self.c as u16
    }

    /// The register file with BC replaced by `val`.
    pub open spec fn spec_with_bc(self, val: u16) -> Registers {
        Registers { b: (val / 256) as u8, c: (val % 256) as u8, ..self }
    }

    pub fn set_bc(&mut self, val: u16)
        ensures
            *final(self) == old(self).spec_with_bc(val),
            final(self).spec_bc() == val,
    {
        self.b = (val / 256) as u8;
        self.c = (val % 256) as u8;
    }

    pub fn de(&self) -> (r: u16)
        ensures
            r == self.spec_de(),
    {
        self.d as u16 * 256 + self.e as u16
    }

    /// The register file with DE replaced by `val`.
    pub open spec fn spec_with_de(self, val: u16) -> Registers {
        Registers { d: (val / 256) as u8, e: (val % 256) as u8, ..self }
    }

    pub fn set_de(&mut self, val: u16)
        ensures
            *final(self) == old(self).spec_with_de(val),
            final(self).spec_de() == val,
    {
        self.d = (val / 256) as u8;
        self.e = (val % 256) as u8;
    }

    pub fn hl(&self) -> (r: u16)
        ensures
            r == self.spec_hl(),
    {
        self.h as u16 * 256 + self.l as u16
    }

    /// The register file with HL replaced by `val`.
    pub open spec fn spec_with_hl(self, val: u16) -> Registers {
        Registers { h: (val / 256) as u8, l: (val % 256) as u8, ..self }
    }

    pub fn set_hl(&mut self, val: u16)
        ensures
            *final(self) == old(self).spec_with_hl(val),
            final(self).spec_hl() == val,
    {
        self.h = (val / 256) as u8;
        self.l = (val % 256) as u8;
    }

    // --- SP and PC ---
    pub fn sp(&self) -> (r: u16)
        ensures
            r == self.sp,
    {
        self.sp
    }

    pub fn set_sp(&mut self, val: u16)
        ensures
            *final(self) == (Registers { sp: val, ..*old(self) }),
    {
        self.sp = val;
    }

    /// SP wraps modulo 2^16.
    pub fn increment_sp(&mut self)
        ensures
            *final(self) == (Registers { sp: crate::bits::add16(old(self).sp, 1), ..*old(self) }),
    {
        self.sp = if self.sp == 0xFFFF {
            0
        } else {
            self.sp + 1
        };
    }

    /// SP wraps modulo 2^16.
    pub fn decrement_sp(&mut self)
        ensures
            *final(self) == (Registers { sp: crate::bits::sub16(old(self).sp, 1), ..*old(self) }),
    {
        self.sp = if self.sp == 0 {
            0xFFFF
        } else {
            self.sp - 1
        };
    }

    pub fn pc(&self) -> (r: u16)
        ensures
            r == self.pc,
    {
        self.pc
    }

    pub fn set_pc(&mut self, val: u16)
        ensures
            *final(self) == (Registers { pc: val, ..*old(self) }),
    {
        self.pc = val;
    }

    /// PC wraps modulo 2^16.
    pub fn increment_pc(&mut self)
        ensures
            *final(self) == (Registers { pc: crate::bits::add16(old(self).pc, 1), ..*old(self) }),
    {
        self.pc = if self.pc == 0xFFFF {
            0
        } else {
            self.pc + 1
        };
    }

    // --- Flag getters/setters ---
    /// The value of one flag bit.
    pub open spec fn spec_get_flag(self, flag: Flag) -> bool {
        match flag {
            Flag::Zero => self.flag_z,
            Flag::Subtraction => self.flag_n,
            Flag::HalfCarry => self.flag_h,
            Flag::Carry => self.flag_c,
        }
    }

    /// The register file with one flag bit replaced.
    pub open spec fn spec_with_flag(self, flag: Flag, val: bool) -> Registers {
        match flag {
            Flag::Zero => Registers { flag_z: val, ..self },
            Flag::Subtraction => Registers { flag_n: val, ..self },
            Flag::HalfCarry => Registers { flag_h: val, ..self },
            Flag::Carry => Registers { flag_c: val, ..self },
        }
    }

    pub fn get_flag(&self, flag: Flag) -> (r: bool)
        ensures
            r == self.spec_get_flag(flag),
    {
        match flag {
            Flag::Zero => self.flag_z,
            Flag::Subtraction => self.flag_n,
            Flag::HalfCarry => self.flag_h,
            Flag::Carry => self.flag_c,
        }
    }

    pub fn set_flag(&mut self, flag: Flag, val: bool)
        ensures
            *final(self) == old(self).spec_with_flag(flag, val),
    {
        match flag {
            Flag::Zero => self.flag_z = val,
            Flag::Subtraction => self.flag_n = val,
            Flag::HalfCarry => self.flag_h = val,
            Flag::Carry => self.flag_c = val,
        }
    }

    pub fn clear_flag(&mut self, flag: Flag)
        ensures
            *final(self) == old(self).spec_with_flag(flag, false),
    {
        self.set_flag(flag, false);
    }

    pub fn flip_flag(&mut self, flag: Flag)
        ensures
            *final(self) == old(self).spec_with_flag(flag, !old(self).spec_get_flag(flag)),
    {
        let cur = self.get_flag(flag);
        self.set_flag(flag, !cur);
    }

    /// Clears Z, N, H and C at once (F becomes 0).
    pub fn clear_all_flags(&mut self)
        ensures
            *final(self) == (Registers {
                flag_z: false,
                flag_n: false,
                flag_h: false,
                flag_c: false,
                ..*old(self)
            }),
            final(self).spec_f() == 0,
    {
        proof {
            lemma_f_props(false, false, false, false);
        }
        self.flag_z = false;
        self.flag_n = false;
        self.flag_h = false;
        self.flag_c = false;
    }

    pub fn zero_flag(&self) -> (r: bool)
        ensures
            r == self.flag_z,
    {
        self.flag_z
    }

    pub fn set_zero_flag(&mut self, val: bool)
        ensures
            *final(self) == (Registers { flag_z: val, ..*old(self) }),
    {
        self.flag_z = val;
    }

    pub fn subtraction_flag(&self) -> (r: bool)
        ensures
            r == self.flag_n,
    {
        self.flag_n
    }

    pub fn set_subtraction_flag(&mut self, val: bool)
        ensures
            *final(self) == (Registers { flag_n: val, ..*old(self) }),
    {
        self.flag_n = val;
    }

    pub fn half_carry_flag(&self) -> (r: bool)
        ensures
            r == self.flag_h,
    {
        self.flag_h
    }

    pub fn set_half_carry_flag(&mut self, val: bool)
        ensures
            *final(self) == (Registers { flag_h: val, ..*old(self) }),
    {
        self.flag_h = val;
    }

    pub fn carry_flag(&self) -> (r: bool)
        ensures
            r == self.flag_c,
    {
        self.flag_c
    }

    pub fn set_carry_flag(&mut self, val: bool)
        ensures
            *final(self) == (Registers { flag_c: val, ..*old(self) }),
    {
        self.flag_c = val;
    }
}

} // verus!
