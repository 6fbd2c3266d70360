//! The processor core: registers, flags, memory and stack buffers, the
//! opcode table, per-instruction effects, and the fetch-decode-execute loop.

use vstd::prelude::*;

verus! {

/// Carry flag bit within the flag byte.
pub const FLAG_C: u8 = 1u8 << 1;
/// Negate (subtract) flag bit within the flag byte.
pub const FLAG_N: u8 = 1u8 << 2;
/// Parity flag bit within the flag byte (reserved for the conditional return).
pub const FLAG_P: u8 = 1u8 << 3;
/// Half-carry flag bit within the flag byte.
pub const FLAG_H: u8 = 1u8 << 5;
/// Zero flag bit within the flag byte.
pub const FLAG_Z: u8 = 1u8 << 7;

/// The flag byte with the bits of `mask` forced to `on`; every other bit
/// keeps its old value.
pub open spec fn flag_set(f: u8, mask: u8, on: bool) -> u8 {
    if on {
        f | mask
    } else {
        f & !mask
    }
}

/// Whether any bit of `mask` is set in the flag byte.
pub open spec fn flag_get(f: u8, mask: u8) -> bool {
    f & mask != 0
}

/// The register file: program counter, stack pointer, eight 8-bit
/// general registers, and the flag byte `f`.
#[derive(Debug, Clone, Copy, PartialEq, Eq, Structural)]
pub struct Register {
    pub pc: u16,
    pub sp: u16,

    pub a: u8,
    pub b: u8,
    pub c: u8,
    pub d: u8,
    pub e: u8,
    pub h: u8,
    pub l: u8,
    pub f: u8,
}

impl Register {
    pub fn set_zero_flag(&mut self, b: bool)
        ensures
            *final(self) == (Register { f: flag_set(old(self).f, FLAG_Z, b), ..*old(self) }),
    {
        if b {
            self.f = self.f | FLAG_Z;
        } else {
            self.f = self.f & !FLAG_Z;
        }
    }

    pub fn zero_flag(&self) -> (r: bool)
        ensures
            r == flag_get(self.f, FLAG_Z),
    {
        (self.f & FLAG_Z) != 0
    }

    pub fn set_carry_flag(&mut self, b: bool)
        ensures
            *final(self) == (Register { f: flag_set(old(self).f, FLAG_C, b), ..*old(self) }),
    {
        if b {
            self.f = self.f | FLAG_C;
        } else {
            self.f = self.f & !FLAG_C;
        }
    }

    pub fn carry_flag(&self) -> (r: bool)
        ensures
            r == flag_get(self.f, FLAG_C),
    {
        (self.f & FLAG_C) != 0
    }

    pub fn set_half_carry_flag(&mut self, b: bool)
        ensures
            *final(self) == (Register { f: flag_set(old(self).f, FLAG_H, b), ..*old(self) }),
    {
        if b {
            self.f = self.f | FLAG_H;
        } else {
            self.f = self.f & !FLAG_H;
        }
    }

    pub fn half_carry_flag(&self) -> (r: bool)
        ensures
            r == flag_get(self.f, FLAG_H),
    {
        (self.f & FLAG_H) != 0
    }

    pub fn set_n_flag(&mut self, b: bool)
        ensures
            *final(self) == (Register { f: flag_set(old(self).f, FLAG_N, b), ..*old(self) }),
    {
        if b {
            self.f = self.f | FLAG_N;
        } else {
            self.f = self.f & !FLAG_N;
        }
    }

    pub fn n_flag(&self) -> (r: bool)
        ensures
            r == flag_get(self.f, FLAG_N),
    {
        (self.f & FLAG_N) != 0
    }
}

/// Setting one of the four status flags to true and then to false leaves
/// every other bit of the flag byte exactly as it was, whatever the prior
/// value of the byte; the flag itself ends up cleared.
pub proof fn lemma_flag_set_clear_isolation(f: u8, mask: u8)
    requires
        mask == FLAG_C || mask == FLAG_N || mask == FLAG_H || mask == FLAG_Z,
    ensures
        !flag_get(flag_set(flag_set(f, mask, true), mask, false), mask),
        forall|i: u8|
            i < 8 && (mask >> i) & 1 == 0 ==> (flag_set(flag_set(f, mask, true), mask, false) >> i)
                & 1 == (f >> i) & 1,
{
    assert(((f | mask) & !mask) & mask == 0) by (bit_vector);
    assert forall|i: u8| i < 8 && (mask >> i) & 1 == 0 implies (flag_set(
        flag_set(f, mask, true),
        mask,
        false,
    ) >> i) & 1 == (f >> i) & 1 by {
        assert((((f | mask) & !mask) >> i) & 1 == (f >> i) & 1) by (bit_vector)
            requires
                (mask >> i) & 1 == 0,
                i < 8,
        ;
    }
}

/// The machine state: the memory image, the stack buffer, and the
/// register file.  Every instruction effect operates on one of these.
#[derive(Debug)]
pub struct State {
    pub mem: Vec<u8>,
    pub stack: Vec<u8>,
    pub reg: Register,
}

/// The mathematical model of a machine state: the memory and stack
/// buffers as byte sequences, and the register file.
#[verifier::ext_equal]
pub struct StateView {
    pub mem: Seq<u8>,
    pub stack: Seq<u8>,
    pub reg: Register,
}

impl View for State {
    type V = StateView;

    open spec fn view(&self) -> StateView {
        StateView { mem: self.mem@, stack: self.stack@, reg: self.reg }
    }
}

impl PartialEq for State {
    fn eq(&self, other: &State) -> (r: bool) {
        let r = bytes_equal(&self.mem, &other.mem) && bytes_equal(&self.stack, &other.stack)
            && self.reg == other.reg;
        proof {
            if r {
                assert(self@ =~= other@);
            }
        }
        r
    }
}

impl vstd::std_specs::cmp::PartialEqSpecImpl for State {
    open spec fn obeys_eq_spec() -> bool {
        true
    }

    open spec fn eq_spec(&self, other: &State) -> bool {
        self@ == other@
    }
}

/// Element-wise comparison of two byte buffers.
fn bytes_equal(a: &Vec<u8>, b: &Vec<u8>) -> (r: bool)
    ensures
        r == (a@ == b@),
{
    if a.len() != b.len() {
        return false;
    }
    let mut i: usize = 0;
    while i < a.len()
        invariant
            i <= a.len(),
            a@.len() == b@.len(),
            forall|j: int| 0 <= j < i ==> a@[j] == b@[j],
        decreases a.len() - i,
    {
        if a[i] != b[i] {
            return false;
        }
        i += 1;
    }
    assert(a@ =~= b@);
    true
}

/// A machine state over the given memory image: zeroed stack of
/// `stack_size` bytes, stack pointer at the top of the stack buffer,
/// program counter at `start_pc`, all other registers zero.
pub fn initial_state(mem: Vec<u8>, stack_size: usize, start_pc: u16) -> (s: State)
    requires
        stack_size <= u16::MAX,
    ensures
        s.mem@ == mem@,
        s.stack@ == Seq::new(stack_size as nat, |i: int| 0u8),
        s.reg == (Register {
            pc: start_pc,
            sp: stack_size as u16,
            a: 0,
            b: 0,
            c: 0,
            d: 0,
            e: 0,
            h: 0,
            l: 0,
            f: 0,
        }),
{
    let mut stack: Vec<u8> = Vec::new();
    let mut i: usize = 0;
    while i < stack_size
        invariant
            i <= stack_size,
            stack@.len() == i,
            forall|j: int| 0 <= j < i ==> stack@[j] == 0u8,
        decreases stack_size - i,
    {
        stack.push(0);
        i += 1;
    }
    assert(stack@ =~= Seq::new(stack_size as nat, |i: int| 0u8));
    State {
        mem,
        stack,
        reg: Register {
            pc: start_pc,
            sp: stack_size as u16,
            a: 0,
            b: 0,
            c: 0,
            d: 0,
            e: 0,
            h: 0,
            l: 0,
            f: 0,
        },
    }
}

/// The 16-bit address formed by a register pair, high register first.
pub open spec fn spec_u16_reg(reg1: u8, reg2: u8) -> u16 {
    (reg1 * 256 + reg2) as u16
}

/// The 16-bit operand of the instruction at `pc`, stored little-endian in
/// the two bytes that follow the opcode byte: `pc` addresses the opcode
/// itself, so the low byte sits at `pc + 1` and the high byte at `pc + 2`.
/// This offset convention is deliberate and must be preserved.
pub open spec fn spec_read_u16_le(pc: u16, mem: Seq<u8>) -> u16 {
    (mem[pc + 2] * 256 + mem[pc + 1]) as u16
}

/// Combines two 8-bit registers into a 16-bit value, high register first.
pub fn u16_reg(reg1: u8, reg2: u8) -> (r: u16)
    ensures
        r == spec_u16_reg(reg1, reg2),
{
    let r = ((reg1 as u16) << 8) | reg2 as u16;
    proof {
        assert(((reg1 as u16) << 8) | reg2 as u16 == (reg1 * 256 + reg2) as u16) by (bit_vector);
    }
    r
}

/// Reads the little-endian 16-bit operand of the instruction at `pc`: the
/// two bytes following the opcode byte, low byte first.
pub fn read_u16_le(pc: u16, mem: &[u8]) -> (r: u16)
    requires
        pc + 2 < mem@.len(),
    ensures
        r == spec_read_u16_le(pc, mem@),
{
    let a1 = mem[pc as usize + 2] as u16;
    let a2 = mem[pc as usize + 1] as u16;
    let r = (a1 << 8) | a2;
    proof {
        let b1 = mem@[pc + 2];
        let b2 = mem@[pc + 1];
        assert(((b1 as u16) << 8) | (b2 as u16) == (b1 * 256 + b2) as u16) by (bit_vector);
    }
    r
}

/// Reads the 8-bit immediate operand of the instruction at `pc`: the byte
/// immediately following the opcode byte.
pub fn read_u8(pc: u16, mem: &[u8]) -> (r: u8)
    requires
        pc + 1 < mem@.len(),
    ensures
        r == mem@[pc + 1],
{
    mem[pc as usize + 1]
}

/// Reads the memory byte addressed by a register pair, high register
/// first.
pub fn read_reg(reg1: u8, reg2: u8, mem: &[u8]) -> (r: u8)
    requires
        spec_u16_reg(reg1, reg2) < mem@.len(),
    ensures
        r == mem@[spec_u16_reg(reg1, reg2) as int],
{
    let ptr = u16_reg(reg1, reg2) as usize;
    mem[ptr]
}

/// The closed enumeration of implemented instruction effects; dispatch
/// selects one of these by opcode.
#[derive(Debug, Clone, Copy, PartialEq, Eq, Structural)]
pub enum Effect {
    Nop,
    Jp,
    IncA,
    IncL,
    LdBcA,
    LdDe,
    Call,
    Rst38,
    OrD,
    SubByte,
    Djnz,
    AddAHl,
    AddHlHl,
    RetP,
}

impl StateView {
    /// No-operation: the state is unchanged.
    pub open spec fn nop(self) -> StateView {
        self
    }

    pub open spec fn jp_enabled(self) -> bool {
        self.reg.pc + 2 < self.mem.len()
    }

    /// Immediate jump: the program counter becomes the little-endian
    /// 16-bit operand.
    pub open spec fn jp(self) -> StateView {
        StateView { reg: (Register { pc: spec_read_u16_le(self.reg.pc, self.mem), ..self.reg }), ..self }
    }

    /// Increment of register `a`, wrapping modulo 256; no flag effects.
    pub open spec fn inc_a(self) -> StateView {
        StateView { reg: (Register { a: (((self.reg.a + 1) % 256) as u8), ..self.reg }), ..self }
    }

    /// Increment of register `l`, wrapping modulo 256; no flag effects.
    pub open spec fn inc_l(self) -> StateView {
        StateView { reg: (Register { l: (((self.reg.l + 1) % 256) as u8), ..self.reg }), ..self }
    }

    pub open spec fn ld_bc_a_enabled(self) -> bool {
        spec_u16_reg(self.reg.b, self.reg.c) < self.mem.len() && self.reg.pc + 2 <= 0xFFFF
    }

    /// Load of register `a` from the memory byte addressed by the `b`/`c`
    /// register pair; the program counter advances by the operand length.
    pub open spec fn ld_bc_a(self) -> StateView {
        StateView {
            reg: (Register {
                a: self.mem[spec_u16_reg(self.reg.b, self.reg.c) as int],
                pc: ((self.reg.pc + 2) as u16),
                ..self.reg
            }),
            ..self
        }
    }

    pub open spec fn ld_de_enabled(self) -> bool {
        self.reg.pc + 2 < self.mem.len() && self.reg.pc + 2 <= 0xFFFF
    }

    /// Immediate load into the `d`/`e` register pair: two successive
    /// immediate bytes, high component first; the program counter
    /// advances by 2.
    pub open spec fn ld_de(self) -> StateView {
        StateView {
            reg: (Register {
                d: self.mem[self.reg.pc + 1],
                e: self.mem[self.reg.pc + 2],
                pc: ((self.reg.pc + 2) as u16),
                ..self.reg
            }),
            ..self
        }
    }

    pub open spec fn call_to_enabled(self) -> bool {
        self.reg.pc + 3 <= 0xFFFF && self.reg.sp >= 2 && self.reg.sp <= self.stack.len()
    }

    /// Transfer of control to `to`: the return address (the address of
    /// the byte after this 3-byte instruction) is pushed onto the stack,
    /// high byte first, the stack pointer pre-decremented before each
    /// byte write.
    pub open spec fn call_to(self, to: u16) -> StateView {
        let ret = (self.reg.pc + 3) as u16;
        StateView {
            stack: self.stack.update(self.reg.sp - 1, (ret / 256) as u8).update(
                self.reg.sp - 2,
                (ret % 256) as u8,
            ),
            reg: (Register { pc: to, sp: ((self.reg.sp - 2) as u16), ..self.reg }),
            ..self
        }
    }

    pub open spec fn call_enabled(self) -> bool {
        self.reg.pc + 2 < self.mem.len() && self.call_to_enabled()
    }

    /// Subroutine call: the target is the little-endian 16-bit operand.
    pub open spec fn call(self) -> StateView {
        self.call_to(spec_read_u16_le(self.reg.pc, self.mem))
    }

    /// Restart: a call to the fixed vector 0x38.
    pub open spec fn rst_38(self) -> StateView {
        self.call_to(0x38)
    }

    /// Bitwise OR of register `d` into the accumulator; no flag effects.
    pub open spec fn or_d(self) -> StateView {
        StateView { reg: (Register { a: self.reg.a | self.reg.d, ..self.reg }), ..self }
    }

    pub open spec fn sub_byte_enabled(self) -> bool {
        self.reg.pc + 1 < self.mem.len() && self.reg.pc < 0xFFFF
    }

    /// Immediate subtraction from the accumulator, wrapping modulo 256:
    /// the zero flag follows the result, the carry flag follows unsigned
    /// underflow, the half-carry flag follows a low-nibble borrow, and
    /// the negate flag is set unconditionally; the program counter
    /// advances by 1.
    pub open spec fn sub_byte(self) -> StateView {
        let sub_val = self.mem[self.reg.pc + 1];
        let a_val = ((self.reg.a + 256 - sub_val) % 256) as u8;
        let carry = self.reg.a < sub_val;
        let half_carry = (self.reg.a & 0xF) < (sub_val & 0xF);
        let f = flag_set(
            flag_set(flag_set(flag_set(self.reg.f, FLAG_Z, a_val == 0), FLAG_C, carry), FLAG_H, half_carry),
            FLAG_N,
            true,
        );
        StateView {
            reg: (Register { a: a_val, pc: ((self.reg.pc + 1) as u16), f, ..self.reg }),
            ..self
        }
    }

    pub open spec fn djnz_enabled(self) -> bool {
        self.reg.b != 1 ==> {
            &&& self.reg.pc + 1 < self.mem.len()
            &&& self.reg.pc + self.mem[self.reg.pc + 1] <= 0xFFFF
        }
    }

    /// Decrement-and-jump-if-nonzero: register `b` is decremented with
    /// wraparound; if the result is nonzero, the immediate byte is added
    /// to the program counter as an unsigned offset.
    pub open spec fn djnz(self) -> StateView {
        let b_val = ((self.reg.b + 255) % 256) as u8;
        if b_val != 0 {
            StateView {
                reg: (Register {
                    b: b_val,
                    pc: ((self.reg.pc + self.mem[self.reg.pc + 1]) as u16),
                    ..self.reg
                }),
                ..self
            }
        } else {
            StateView { reg: (Register { b: b_val, ..self.reg }), ..self }
        }
    }

    pub open spec fn add_a_hl_enabled(self) -> bool {
        spec_u16_reg(self.reg.h, self.reg.l) < self.mem.len()
    }

    /// Addition into the accumulator of the memory byte addressed by the
    /// `h`/`l` register pair, wrapping modulo 256: the zero flag follows
    /// the result, the carry flag follows 8-bit overflow, the half-carry
    /// flag follows low-nibble overflow, and the negate flag is cleared.
    pub open spec fn add_a_hl(self) -> StateView {
        let add = self.mem[spec_u16_reg(self.reg.h, self.reg.l) as int];
        let a_val = ((self.reg.a + add) % 256) as u8;
        let carry = self.reg.a + add > 0xFF;
        let half_carry = (self.reg.a & 0xF) + (add & 0xF) >= 0x10;
        let f = flag_set(
            flag_set(flag_set(flag_set(self.reg.f, FLAG_Z, a_val == 0), FLAG_C, carry), FLAG_H, half_carry),
            FLAG_N,
            false,
        );
        StateView { reg: (Register { a: a_val, f, ..self.reg }), ..self }
    }

    /// Register-pair doubling: the `h`/`l` pair, taken as one 16-bit
    /// value, is added to itself, wrapping modulo 2^16; the carry flag
    /// follows 16-bit overflow, the half-carry flag follows bit 10 of the
    /// result, the zero flag follows the result, and the negate flag is
    /// cleared.  The result is written back high byte to `h`, low byte to
    /// `l`.
    pub open spec fn add_hl_hl(self) -> StateView {
        let hl = spec_u16_reg(self.reg.h, self.reg.l);
        let r = ((hl + hl) % 0x10000) as u16;
        let carry = hl + hl > 0xFFFF;
        let half_carry = r & 0x400 == 0x400;
        let f = flag_set(
            flag_set(flag_set(flag_set(self.reg.f, FLAG_Z, r == 0), FLAG_C, carry), FLAG_H, half_carry),
            FLAG_N,
            false,
        );
        StateView {
            reg: (Register { h: ((r / 256) as u8), l: ((r % 256) as u8), f, ..self.reg }),
            ..self
        }
    }

    /// Conditional return: a recognized opcode whose semantics are not
    /// yet implemented; the state is left unchanged.
    pub open spec fn ret_p(self) -> StateView {
        self
    }
}

/// Whether the instruction effect can run against the state without any
/// memory, stack, or address-arithmetic bounds violation.
pub open spec fn effect_enabled_spec(v: StateView, e: Effect) -> bool {
    match e {
        Effect::Nop => true,
        Effect::Jp => v.jp_enabled(),
        Effect::IncA => true,
        Effect::IncL => true,
        Effect::LdBcA => v.ld_bc_a_enabled(),
        Effect::LdDe => v.ld_de_enabled(),
        Effect::Call => v.call_enabled(),
        Effect::Rst38 => v.call_to_enabled(),
        Effect::OrD => true,
        Effect::SubByte => v.sub_byte_enabled(),
        Effect::Djnz => v.djnz_enabled(),
        Effect::AddAHl => v.add_a_hl_enabled(),
        Effect::AddHlHl => true,
        Effect::RetP => true,
    }
}

/// The state after the instruction effect runs, for an enabled effect.
pub open spec fn effect_apply(v: StateView, e: Effect) -> StateView {
    match e {
        Effect::Nop => v.nop(),
        Effect::Jp => v.jp(),
        Effect::IncA => v.inc_a(),
        Effect::IncL => v.inc_l(),
        Effect::LdBcA => v.ld_bc_a(),
        Effect::LdDe => v.ld_de(),
        Effect::Call => v.call(),
        Effect::Rst38 => v.rst_38(),
        Effect::OrD => v.or_d(),
        Effect::SubByte => v.sub_byte(),
        Effect::Djnz => v.djnz(),
        Effect::AddAHl => v.add_a_hl(),
        Effect::AddHlHl => v.add_hl_hl(),
        Effect::RetP => v.ret_p(),
    }
}

/// No-operation: leaves every field of the machine state untouched.
pub fn nop(s: &mut State)
    ensures
        final(s)@ == old(s)@.nop(),
{
}

/// Immediate jump: assigns the little-endian 16-bit operand to the
/// program counter.
pub fn jp(s: &mut State)
    requires
        old(s)@.jp_enabled(),
    ensures
        final(s)@ == old(s)@.jp(),
{
    let address = read_u16_le(s.reg.pc, s.mem.as_slice());
    s.reg.pc = address;
}

/// Increments register `a`, wrapping modulo 256.
pub fn inc_a(s: &mut State)
    ensures
        final(s)@ == old(s)@.inc_a(),
{
    s.reg.a = s.reg.a.wrapping_add(1);
}

/// Increments register `l`, wrapping modulo 256.
pub fn inc_l(s: &mut State)
    ensures
        final(s)@ == old(s)@.inc_l(),
{
    s.reg.l = s.reg.l.wrapping_add(1);
}

/// Loads register `a` from the memory byte addressed by the `b`/`c`
/// register pair and advances the program counter by 2.
pub fn ld_bc_a(s: &mut State)
    requires
        old(s)@.ld_bc_a_enabled(),
    ensures
        final(s)@ == old(s)@.ld_bc_a(),
{
    s.reg.a = read_reg(s.reg.b, s.reg.c, s.mem.as_slice());
    s.reg.pc = s.reg.pc + 2;
}

/// Loads the `d`/`e` register pair from two successive immediate bytes,
/// high component first, and advances the program counter by 2.
pub fn ld_de(s: &mut State)
    requires
        old(s)@.ld_de_enabled(),
    ensures
        final(s)@ == old(s)@.ld_de(),
{
    let d = read_u8(s.reg.pc, s.mem.as_slice());
    let e = read_u8(s.reg.pc + 1, s.mem.as_slice());
    s.reg.pc = s.reg.pc + 2;
    s.reg.d = d;
    s.reg.e = e;
}

/// Subroutine call: pushes the return address and jumps to the
/// little-endian 16-bit operand.
pub fn call(s: &mut State)
    requires
        old(s)@.call_enabled(),
    ensures
        final(s)@ == old(s)@.call(),
{
    let to = read_u16_le(s.reg.pc, s.mem.as_slice());
    call_to(s, to);
}

fn call_to(s: &mut State, to: u16)
    requires
        old(s)@.call_to_enabled(),
    ensures
        final(s)@ == old(s)@.call_to(to),
{
    let pc_p = s.reg.pc + 3;
    s.reg.sp = s.reg.sp - 1;
    let hi = ((pc_p & 0xFF00) >> 8) as u8;
    proof {
        assert(((pc_p & 0xFF00) >> 8) as u8 == pc_p / 256) by (bit_vector);
    }
    s.stack[s.reg.sp as usize] = hi;
    s.reg.sp = s.reg.sp - 1;
    let lo = (pc_p & 0x00FF) as u8;
    proof {
        assert((pc_p & 0x00FF) as u8 == pc_p % 256) by (bit_vector);
    }
    s.stack[s.reg.sp as usize] = lo;
    s.reg.pc = to;
    assert(s@ =~= old(s)@.call_to(to));
}

/// Restart: pushes the return address and jumps to the fixed vector 0x38.
pub fn rst_38(s: &mut State)
    requires
        old(s)@.call_to_enabled(),
    ensures
        final(s)@ == old(s)@.rst_38(),
{
    call_to(s, 0x38);
}

/// Bitwise OR of register `d` into the accumulator.
pub fn or_d(s: &mut State)
    ensures
        final(s)@ == old(s)@.or_d(),
{
    s.reg.a = s.reg.a | s.reg.d;
}

/// Subtracts the immediate byte from the accumulator, wrapping, derives
/// the four flags, and advances the program counter by 1.
pub fn sub_byte(s: &mut State)
    requires
        old(s)@.sub_byte_enabled(),
    ensures
        final(s)@ == old(s)@.sub_byte(),
{
    let sub_val = read_u8(s.reg.pc, s.mem.as_slice());
    let half_carry = (s.reg.a & 0xF) < (sub_val & 0xF);
    let carry = s.reg.a < sub_val;
    let a_val = s.reg.a.wrapping_sub(sub_val);
    s.reg.a = a_val;
    let z = a_val == 0;
    s.reg.pc = s.reg.pc + 1;

    s.reg.set_zero_flag(z);
    s.reg.set_carry_flag(carry);
    s.reg.set_half_carry_flag(half_carry);
    s.reg.set_n_flag(true);
    assert(s@ =~= old(s)@.sub_byte());
}

/// Decrements register `b` with wraparound; if the result is nonzero,
/// adds the immediate byte to the program counter as an unsigned offset.
pub fn djnz(s: &mut State)
    requires
        old(s)@.djnz_enabled(),
    ensures
        final(s)@ == old(s)@.djnz(),
{
    let b_val = s.reg.b.wrapping_sub(1);
    s.reg.b = b_val;
    if s.reg.b != 0 {
        let ix = read_u8(s.reg.pc, s.mem.as_slice());
        s.reg.pc = s.reg.pc + ix as u16;
    }
}

/// Adds the memory byte addressed by the `h`/`l` register pair into the
/// accumulator, wrapping, and derives the four flags.
pub fn add_a_hl(s: &mut State)
    requires
        old(s)@.add_a_hl_enabled(),
    ensures
        final(s)@ == old(s)@.add_a_hl(),
{
    let add = read_reg(s.reg.h, s.reg.l, s.mem.as_slice());
    proof {
        let a = s.reg.a;
        assert(a & 0xF < 16 && add & 0xF < 16 && ((((a & 0xF) + (add & 0xF)) as u8) & 0x10 == 0x10
            <==> (a & 0xF) + (add & 0xF) >= 0x10)) by (bit_vector);
    }
    let half_carry = ((s.reg.a & 0xF) + (add & 0xF)) & 0x10 == 0x10;
    let carry = s.reg.a as u16 + add as u16 > 0xFF;
    let a_val = s.reg.a.wrapping_add(add);
    s.reg.a = a_val;

    s.reg.set_zero_flag(a_val == 0);
    s.reg.set_carry_flag(carry);
    s.reg.set_half_carry_flag(half_carry);
    s.reg.set_n_flag(false);
    assert(s@ =~= old(s)@.add_a_hl());
}

/// Doubles the `h`/`l` register pair as one 16-bit value, wrapping, and
/// derives the four flags.
pub fn add_hl_hl(s: &mut State)
    ensures
        final(s)@ == old(s)@.add_hl_hl(),
{
    let hl = u16_reg(s.reg.h, s.reg.l);
    let carry = hl > 0x7FFF;
    let r = hl.wrapping_add(hl);
    let half_carry = r & 0x400 == 0x400;
    let h = ((r & 0xFF00) >> 8) as u8;
    let l = (r & 0xFF) as u8;
    proof {
        assert(((r & 0xFF00) >> 8) as u8 == r / 256) by (bit_vector);
        assert((r & 0xFF) as u8 == r % 256) by (bit_vector);
    }
    s.reg.h = h;
    s.reg.l = l;

    s.reg.set_zero_flag(r == 0);
    s.reg.set_carry_flag(carry);
    s.reg.set_half_carry_flag(half_carry);
    s.reg.set_n_flag(false);
    assert(s@ =~= old(s)@.add_hl_hl());
}

/// Conditional return: a recognized opcode whose semantics are not yet
/// implemented; leaves the state unchanged.
pub fn ret_p(s: &mut State)
    ensures
        final(s)@ == old(s)@.ret_p(),
{
}

/// Runs one instruction effect against the state.
fn dispatch_effect(s: &mut State, e: Effect)
    requires
        effect_enabled_spec(old(s)@, e),
    ensures
        final(s)@ == effect_apply(old(s)@, e),
{
    match e {
        Effect::Nop => nop(s),
        Effect::Jp => jp(s),
        Effect::IncA => inc_a(s),
        Effect::IncL => inc_l(s),
        Effect::LdBcA => ld_bc_a(s),
        Effect::LdDe => ld_de(s),
        Effect::Call => call(s),
        Effect::Rst38 => rst_38(s),
        Effect::OrD => or_d(s),
        Effect::SubByte => sub_byte(s),
        Effect::Djnz => djnz(s),
        Effect::AddAHl => add_a_hl(s),
        Effect::AddHlHl => add_hl_hl(s),
        Effect::RetP => ret_p(s),
    }
}

/// The fixed opcode table: which effect, if any, each 8-bit opcode value
/// selects.  A miss is the unknown-opcode condition, not an error of the
/// table.
pub open spec fn opcode_effect(op: u8) -> Option<Effect> {
    match op {
        0x00 => Some(Effect::Nop),
        0xC3 => Some(Effect::Jp),
        0x0C => Some(Effect::IncA),
        0x2C => Some(Effect::IncL),
        0x02 => Some(Effect::LdBcA),
        0xCD => Some(Effect::Call),
        0xB2 => Some(Effect::OrD),
        0xD6 => Some(Effect::SubByte),
        0x10 => Some(Effect::Djnz),
        0x11 => Some(Effect::LdDe),
        0x86 => Some(Effect::AddAHl),
        0x29 => Some(Effect::AddHlHl),
        0xFF => Some(Effect::Rst38),
        0xF0 => Some(Effect::RetP),
        _ => None,
    }
}

/// The display mnemonic each implemented opcode is registered under.
pub open spec fn opcode_mnemonic(op: u8) -> Seq<char> {
    match op {
        0x00 => "NOP"@,
        0xC3 => "JP"@,
        0x0C => "INC A"@,
        0x2C => "INC L"@,
        0x02 => "LD (BC),A"@,
        0xCD => "CALL"@,
        0xB2 => "OR D"@,
        0xD6 => "SUB byte"@,
        0x10 => "DJNZ"@,
        0x11 => "LD DE,*"@,
        0x86 => "ADD A,(HL)"@,
        0x29 => "ADD HL,HL"@,
        0xFF => "RST 38H"@,
        0xF0 => "RET P"@,
        _ => Seq::empty(),
    }
}

/// An instruction descriptor: the opcode value, its display mnemonic, and
/// its effect.  Built once at table construction, never mutated.
#[derive(Debug)]
pub struct Instr {
    pub mnemonic: String,
    pub op: u8,
    pub effect: Effect,
}

/// The opcode table: a dense array with one slot per 8-bit opcode value,
/// an empty slot standing for an unimplemented opcode.
pub struct InstrSet {
    set: Vec<Option<Instr>>,
}

impl InstrSet {
    /// The table's slots, one per opcode value.
    pub closed spec fn entries(self) -> Seq<Option<Instr>> {
        self.set@
    }

    /// The table has one slot per opcode value, and each slot agrees with
    /// the fixed opcode table.
    pub open spec fn wf(self) -> bool {
        &&& self.entries().len() == 256
        &&& forall|op: u8|
            match opcode_effect(op) {
                Some(e) => #[trigger] self.entries()[op as int] matches Some(i) && i.op == op
                    && i.effect == e && i.mnemonic@ == opcode_mnemonic(op),
                None => self.entries()[op as int] is None,
            }
    }

    /// An empty table: one empty slot per opcode value.
    pub fn new() -> (r: InstrSet)
        ensures
            r.entries().len() == 256,
            forall|j: int| 0 <= j < 256 ==> r.entries()[j] is None,
    {
        let mut set: Vec<Option<Instr>> = Vec::new();
        let mut i: usize = 0;
        while i < 256
            invariant
                i <= 256,
                set@.len() == i,
                forall|j: int| 0 <= j < i ==> set@[j] is None,
            decreases 256 - i,
        {
            set.push(None);
            i += 1;
        }
        InstrSet { set }
    }

    /// The descriptor for the opcode, or nothing where the table has no
    /// entry.
    pub fn get(&self, op: u8) -> (r: Option<&Instr>)
        requires
            self.wf(),
        ensures
            (match r {
                Some(instr) => opcode_effect(op) == Some(instr.effect) && instr.op == op
                    && instr.mnemonic@ == opcode_mnemonic(op),
                None => opcode_effect(op) is None,
            }),
    {
        self.set[op as usize].as_ref()
    }

    /// Fills the slot for `op` with a descriptor; every other slot keeps
    /// its entry.
    pub fn add_instr(&mut self, op: u8, mnemonic: &str, effect: Effect)
        requires
            old(self).entries().len() == 256,
        ensures
            final(self).entries().len() == 256,
            final(self).entries()[op as int] matches Some(i) && i.op == op && i.effect == effect
                && i.mnemonic@ == mnemonic@,
            forall|j: int|
                0 <= j < 256 && j != op ==> final(self).entries()[j] == old(self).entries()[j],
    {
        let instr = Instr { op, mnemonic: mnemonic.to_owned(), effect };
        self.set[op as usize] = Some(instr);
    }
}

/// The opcode table with every implemented instruction registered; the
/// result agrees slot for slot with the fixed opcode table.
pub fn instruction_set() -> (r: InstrSet)
    ensures
        r.wf(),
{
    let mut instr_set = InstrSet::new();
    instr_set.add_instr(0x00, "NOP", Effect::Nop);
    instr_set.add_instr(0xC3, "JP", Effect::Jp);
    instr_set.add_instr(0x0C, "INC A", Effect::IncA);
    instr_set.add_instr(0x2C, "INC L", Effect::IncL);
    instr_set.add_instr(0x02, "LD (BC),A", Effect::LdBcA);
    instr_set.add_instr(0xCD, "CALL", Effect::Call);
    instr_set.add_instr(0xB2, "OR D", Effect::OrD);
    instr_set.add_instr(0xD6, "SUB byte", Effect::SubByte);
    instr_set.add_instr(0x10, "DJNZ", Effect::Djnz);
    instr_set.add_instr(0x11, "LD DE,*", Effect::LdDe);
    instr_set.add_instr(0x86, "ADD A,(HL)", Effect::AddAHl);
    instr_set.add_instr(0x29, "ADD HL,HL", Effect::AddHlHl);
    instr_set.add_instr(0xFF, "RST 38H", Effect::Rst38);
    instr_set.add_instr(0xF0, "RET P", Effect::RetP);
    instr_set
}

/// A terminal condition of the execution loop, carrying the faulting
/// address for diagnostics.
#[derive(Debug, Clone, Copy, PartialEq, Eq, Structural)]
pub enum Fault {
    /// The byte fetched at `addr` has no opcode table entry.
    UnknownOpcode { op: u8, addr: u16 },
    /// The instruction at `addr` would touch memory or the stack out of
    /// bounds, or move an address past the 16-bit range.
    OutOfBounds { addr: u16 },
}

/// One iteration of the fetch-decode-execute loop: fetch the byte at the
/// program counter, look it up in the opcode table, run its effect, then
/// advance the program counter by 1.  The result is the next state, and
/// the fault if the iteration halted.
pub open spec fn step_spec(v: StateView) -> (StateView, Option<Fault>) {
    if v.reg.pc >= v.mem.len() {
        (v, Some(Fault::OutOfBounds { addr: v.reg.pc }))
    } else {
        let op = v.mem[v.reg.pc as int];
        match opcode_effect(op) {
            None => (v, Some(Fault::UnknownOpcode { op, addr: v.reg.pc })),
            Some(e) => {
                if !effect_enabled_spec(v, e) {
                    (v, Some(Fault::OutOfBounds { addr: v.reg.pc }))
                } else {
                    let v2 = effect_apply(v, e);
                    if v2.reg.pc == 0xFFFF {
                        (v2, Some(Fault::OutOfBounds { addr: 0xFFFF }))
                    } else {
                        (
                            StateView { reg: (Register { pc: ((v2.reg.pc + 1) as u16), ..v2.reg }), ..v2 },
                            None,
                        )
                    }
                }
            },
        }
    }
}

/// The execution loop run for at most `fuel` iterations: the state it
/// ends in, and the fault it halted with, or nothing if the budget ran
/// out while still running.
pub open spec fn run_spec(v: StateView, fuel: nat) -> (StateView, Option<Fault>)
    decreases fuel,
{
    if fuel == 0 {
        (v, None)
    } else {
        let (v1, f) = step_spec(v);
        if f is Some {
            (v1, f)
        } else {
            run_spec(v1, (fuel - 1) as nat)
        }
    }
}

/// No implemented instruction effect writes to memory.
pub proof fn lemma_effect_preserves_mem(v: StateView, e: Effect)
    ensures
        effect_apply(v, e).mem == v.mem,
{
    match e {
        Effect::Nop => {},
        Effect::Jp => {},
        Effect::IncA => {},
        Effect::IncL => {},
        Effect::LdBcA => {},
        Effect::LdDe => {},
        Effect::Call => {},
        Effect::Rst38 => {},
        Effect::OrD => {},
        Effect::SubByte => {},
        Effect::Djnz => {},
        Effect::AddAHl => {},
        Effect::AddHlHl => {},
        Effect::RetP => {},
    }
}

/// The execution loop never writes to memory, however long it runs: none
/// of the implemented instructions does.
pub proof fn lemma_run_preserves_mem(v: StateView, fuel: nat)
    ensures
        run_spec(v, fuel).0.mem == v.mem,
    decreases fuel,
{
    if fuel > 0 {
        let (v1, f) = step_spec(v);
        if v.reg.pc < v.mem.len() {
            match opcode_effect(v.mem[v.reg.pc as int]) {
                Some(e) => {
                    lemma_effect_preserves_mem(v, e);
                },
                None => {},
            }
        }
        if f is None {
            lemma_run_preserves_mem(v1, (fuel - 1) as nat);
        }
    }
}

/// Running against a state whose next opcode has no table entry halts at
/// once: the error identifies that opcode value and its address, and the
/// whole state — memory included — is exactly as it was.
pub proof fn lemma_run_unknown_opcode(v: StateView, fuel: nat)
    requires
        fuel > 0,
        v.reg.pc < v.mem.len(),
        opcode_effect(v.mem[v.reg.pc as int]) is None,
    ensures
        run_spec(v, fuel) == (
            v,
            Some(Fault::UnknownOpcode { op: v.mem[v.reg.pc as int], addr: v.reg.pc }),
        ),
{
}

/// Whether the instruction effect can run against the state without a
/// bounds violation; decides exactly the condition the specification-side
/// dispatch checks.
fn effect_enabled(s: &State, e: Effect) -> (r: bool)
    ensures
        r == effect_enabled_spec(s@, e),
{
    match e {
        Effect::Nop => true,
        Effect::Jp => s.reg.pc as usize + 2 < s.mem.len(),
        Effect::IncA => true,
        Effect::IncL => true,
        Effect::LdBcA => (u16_reg(s.reg.b, s.reg.c) as usize) < s.mem.len() && s.reg.pc <= 0xFFFD,
        Effect::LdDe => s.reg.pc as usize + 2 < s.mem.len() && s.reg.pc <= 0xFFFD,
        Effect::Call => s.reg.pc as usize + 2 < s.mem.len() && s.reg.pc <= 0xFFFC && s.reg.sp >= 2
            && s.reg.sp as usize <= s.stack.len(),
        Effect::Rst38 => s.reg.pc <= 0xFFFC && s.reg.sp >= 2 && s.reg.sp as usize <= s.stack.len(),
        Effect::OrD => true,
        Effect::SubByte => s.reg.pc as usize + 1 < s.mem.len() && s.reg.pc < 0xFFFF,
        Effect::Djnz => {
            if s.reg.b == 1 {
                true
            } else if s.reg.pc as usize + 1 < s.mem.len() {
                let ix = s.mem[s.reg.pc as usize + 1];
                s.reg.pc as u32 + ix as u32 <= 0xFFFF
            } else {
                false
            }
        },
        Effect::AddAHl => (u16_reg(s.reg.h, s.reg.l) as usize) < s.mem.len(),
        Effect::AddHlHl => true,
        Effect::RetP => true,
    }
}

/// The execution loop: fetches the byte at the program counter, looks it
/// up in the opcode table, runs its effect, advances the program counter
/// by 1, and repeats, for at most `max_steps` instructions.  It returns
/// the fault it halted on — an unknown opcode, or a bounds violation that
/// would otherwise occur — or nothing if the step budget ran out while
/// still running.  Memory is never written.
pub fn start(state: &mut State, max_steps: usize) -> (r: Result<(), Fault>)
    ensures
        final(state)@ == run_spec(old(state)@, max_steps as nat).0,
        (match run_spec(old(state)@, max_steps as nat).1 {
            Some(f) => r == Err::<(), Fault>(f),
            None => r == Ok::<(), Fault>(()),
        }),
        final(state)@.mem == old(state)@.mem,
{
    let instr_set = instruction_set();
    let ghost v0 = state@;
    let mut steps: usize = 0;
    while steps < max_steps
        invariant
            steps <= max_steps,
            instr_set.wf(),
            v0 == old(state)@,
            state@.mem == v0.mem,
            run_spec(v0, max_steps as nat) == run_spec(state@, (max_steps - steps) as nat),
        decreases max_steps - steps,
    {
        let ghost pre = state@;
        let ghost rem = (max_steps - steps) as nat;
        if state.reg.pc as usize >= state.mem.len() {
            proof {
                assert(run_spec(pre, rem) == (pre, Some(Fault::OutOfBounds { addr: pre.reg.pc })));
            }
            return Err(Fault::OutOfBounds { addr: state.reg.pc });
        }
        let op = state.mem[state.reg.pc as usize];
        let instr_lookup = instr_set.get(op);
        if instr_lookup.is_none() {
            proof {
                assert(run_spec(pre, rem) == (
                    pre,
                    Some(Fault::UnknownOpcode { op, addr: pre.reg.pc }),
                ));
            }
            return Err(Fault::UnknownOpcode { op, addr: state.reg.pc });
        }
        let instr = instr_lookup.unwrap();
        let e = instr.effect;
        if !effect_enabled(state, e) {
            proof {
                assert(run_spec(pre, rem) == (pre, Some(Fault::OutOfBounds { addr: pre.reg.pc })));
            }
            return Err(Fault::OutOfBounds { addr: state.reg.pc });
        }
        dispatch_effect(state, e);
        proof {
            lemma_effect_preserves_mem(pre, e);
        }
        if state.reg.pc == 0xFFFF {
            proof {
                assert(run_spec(pre, rem) == (state@, Some(Fault::OutOfBounds { addr: 0xFFFFu16 })));
            }
            return Err(Fault::OutOfBounds { addr: 0xFFFF });
        }
        state.reg.pc = state.reg.pc + 1;
        steps = steps + 1;
        proof {
            assert(step_spec(pre) == (state@, None::<Fault>));
            assert(run_spec(pre, rem) == run_spec(state@, (rem - 1) as nat));
        }
    }
    Ok(())
}

} // verus!

