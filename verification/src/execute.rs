//! The instruction executor and the addressing-mode resolver.
//!
//! `interpret_payload` turns a decoded addressing mode and the current
//! register file into an effective address and an operand byte, reporting
//! page-cross cycle penalties. `execute` has one arm per mnemonic; its
//! whole effect on registers, flags and memory is pinned down by
//! `exec_post`, and the cycles it reports by `exec_cycles`.

use vstd::prelude::*;

use crate::cpu::{Cpu, CpuState, Machine};
use crate::cpu::{mem_frame, stack_addr, word};
use crate::error::CpuError;
use crate::instruction::{AddressingMode, Instruction, OpCode};
use crate::status::Status;

verus! {

/// Memory and the device map are identical in the two machine states.
pub open spec fn same_mem(pre: Machine, post: Machine) -> bool {
    &&& post.mem == pre.mem
    &&& post.cov == pre.cov
}

/// A carry flag as the 0-or-1 summand it contributes.
pub open spec fn carry_in(c: bool) -> int {
    if c {
        1
    } else {
        0
    }
}

/// The full 9-bit sum an `ADC` computes.
pub open spec fn adc_sum(a: u8, m: u8, c: bool) -> int {
    a + m + carry_in(c)
}

/// The low 8 bits of the `ADC` sum: the new accumulator.
pub open spec fn adc_result(a: u8, m: u8, c: bool) -> u8 {
    (adc_sum(a, m, c) % 256) as u8
}

/// Bit 8 of the `ADC` sum: the carry out.
pub open spec fn adc_carry(a: u8, m: u8, c: bool) -> bool {
    adc_sum(a, m, c) >= 256
}

/// Signed overflow of an `ADC`: set when both summands agree in sign and
/// the result disagrees.
pub open spec fn adc_overflow(a: u8, m: u8, c: bool) -> bool {
    ((a ^ adc_result(a, m, c)) & (m ^ adc_result(a, m, c)) & 0x80) != 0
}

/// Bit 7 of a byte: the sign the Negative flag copies.
pub open spec fn is_negative(b: u8) -> bool {
    b >= 128
}

/// A status value with Zero and Negative refreshed from a result byte.
pub open spec fn with_zn(p: Status, r: u8) -> Status {
    Status { zero: r == 0, negative: is_negative(r), ..p }
}

/// The 8-bit difference a compare instruction derives its flags from.
pub open spec fn cmp_diff(reg: u8, m: u8) -> u8 {
    reg.wrapping_sub(m)
}

/// The flags a compare leaves: Carry iff `reg >= m`, Zero and Negative
/// from the wrapped difference.
pub open spec fn cmp_status(p: Status, reg: u8, m: u8) -> Status {
    Status {
        carry: reg >= m,
        zero: cmp_diff(reg, m) == 0,
        negative: is_negative(cmp_diff(reg, m)),
        ..p
    }
}

/// Whether two addresses lie on different 256-byte pages.
pub open spec fn page_crossed(a: u16, b: u16) -> bool {
    a / 256 != b / 256
}

/// A branch displacement byte sign-extended to 16 bits (two's complement).
pub open spec fn sign_extend(d: u8) -> u16 {
    if d < 128 {
        d as u16
    } else {
        (0xFF00 + d) as u16
    }
}

/// Where the high byte of an indirect jump pointer is read: the documented
/// page-boundary bug wraps within the pointer's page instead of carrying.
pub open spec fn indirect_hi_addr(w: u16) -> u16 {
    if w % 256 == 255 {
        (w - 255) as u16
    } else {
        (w + 1) as u16
    }
}

/// The shifted byte `ASL` produces.
pub open spec fn asl_result(b: u8) -> u8 {
    ((b * 2) % 256) as u8
}

/// The rotated byte `ROL` produces: shift left, carry into bit 0.
pub open spec fn rol_result(b: u8, c: bool) -> u8 {
    ((b * 2) % 256 + carry_in(c)) as u8
}

/// The rotated byte `ROR` produces: shift right, carry into bit 7.
pub open spec fn ror_result(b: u8, c: bool) -> u8 {
    (carry_in(c) * 128 + b / 2) as u8
}

/// The status byte `PHP`, `BRK` and the interrupt sequences push: the live
/// flags with Break and Unused forced as each sequence demands.
pub open spec fn pushed_status(p: Status, brk: bool) -> u8 {
    (Status { brk: brk, unused: true, ..p }).spec_bits()
}

/// The status `PLP` and `RTI` load: the popped byte with Break cleared and
/// Unused forced on.
pub open spec fn popped_status(b: u8) -> Status {
    Status { brk: false, unused: true, ..Status::spec_from_bits(b) }
}

/// High byte of a 16-bit word.
pub open spec fn hi_byte(w: u16) -> u8 {
    (w / 256) as u8
}

/// Low byte of a 16-bit word.
pub open spec fn lo_byte(w: u16) -> u8 {
    (w % 256) as u8
}


/// `ADC` semantics, stated in full: for every accumulator value, operand
/// and carry-in, the result is the sum modulo 256, Carry is set exactly
/// when the sum reaches 256, Overflow follows the sign rule
/// `(A ^ result) & (M ^ result) & 0x80`, Zero holds exactly of a zero
/// result, and Negative of a result of 128 or more.
pub proof fn lemma_adc_flags(a: u8, m: u8, c: bool)
    ensures
        adc_result(a, m, c) == (a + m + carry_in(c)) % 256,
        adc_carry(a, m, c) == (a + m + carry_in(c) >= 256),
        adc_overflow(a, m, c) == (((a ^ adc_result(a, m, c)) & (m ^ adc_result(a, m, c)) & 0x80)
            != 0),
        with_zn(Status::spec_empty(), adc_result(a, m, c)).zero == (adc_result(a, m, c) == 0),
        with_zn(Status::spec_empty(), adc_result(a, m, c)).negative == (adc_result(a, m, c)
            >= 128),
{
}

/// Compare semantics: for every register value and operand, the compare
/// flags have Carry exactly when the register is at least the operand, and
/// Zero exactly when the two are equal.
pub proof fn lemma_cmp_flags(reg: u8, m: u8)
    ensures
        cmp_status(Status::spec_empty(), reg, m).carry == (reg >= m),
        cmp_status(Status::spec_empty(), reg, m).zero == (reg == m),
{
}

/// The indirect-jump page-boundary bug: for every pointer word, the high
/// byte of the jump target is read from `W & 0xFF00` when the pointer's low
/// byte is `0xFF`, and from `W + 1` otherwise.
pub proof fn lemma_indirect_page_bug(w: u16)
    ensures
        (w & 0x00FF) == 0x00FF ==> indirect_hi_addr(w) == (w & 0xFF00),
        (w & 0x00FF) != 0x00FF ==> indirect_hi_addr(w) == w + 1,
{
    assert(((w & 0x00FF) == 0x00FF) == (w % 256 == 255)) by (bit_vector);
    assert(w % 256 == 255 ==> (w & 0xFF00) == w - 255) by (bit_vector);
}

/// The page-cross test used for cycle penalties agrees with the high-byte
/// formulation: two addresses lie on different pages exactly when they
/// differ in `& 0xFF00`.
pub proof fn lemma_page_crossed_high_byte(a: u16, b: u16)
    ensures
        page_crossed(a, b) == ((a & 0xFF00) != (b & 0xFF00)),
{
    assert((a / 256 != b / 256) == ((a & 0xFF00) != (b & 0xFF00))) by (bit_vector);
}

/// `PHP` followed by `PLP` restores the status register, except that Break
/// is clear and Unused is set after the pop: the pushed byte round-trips
/// through the `NV-BDIZC` packing.
pub proof fn lemma_php_plp_round_trip(p: Status)
    ensures
        popped_status(pushed_status(p, true)) == (Status { brk: false, unused: true, ..p }),
{
    crate::status::lemma_bits_round_trip(Status { brk: true, unused: true, ..p });
}

/// Whether the mode addresses the accumulator rather than memory, for the
/// read-modify-write instructions.
pub open spec fn acc_mode(m: AddressingMode) -> bool {
    m is Accumulator || m is Implied
}

/// The effective address an addressing mode resolves to in machine state
/// `c`, after all indexing and indirection. For `Accumulator` and
/// `Immediate` the value is a sentinel that is never dereferenced; for
/// `Relative` it is the sign-extended displacement the branch arms add to
/// the program counter.
pub open spec fn resolved_address(c: Machine, mode: AddressingMode) -> u16 {
    match mode {
        AddressingMode::Accumulator => c.regs.a as u16,
        AddressingMode::Implied => 0,
        AddressingMode::Immediate(_) => c.regs.pc.wrapping_sub(1),
        AddressingMode::Relative(d) => sign_extend(d),
        AddressingMode::ZeroPage(a) => a as u16,
        AddressingMode::ZeroPageX(a) => ((a + c.regs.x) % 256) as u16,
        AddressingMode::ZeroPageY(a) => ((a + c.regs.y) % 256) as u16,
        AddressingMode::Absolute(w) => w,
        AddressingMode::AbsoluteX(w) => w.wrapping_add(c.regs.x as u16),
        AddressingMode::AbsoluteY(w) => w.wrapping_add(c.regs.y as u16),
        AddressingMode::Indirect(w) => word(c.mem[w], c.mem[indirect_hi_addr(w)]),
        AddressingMode::IndirectX(p) => word(
            c.mem[((p + c.regs.x) % 256) as u16],
            c.mem[((p + c.regs.x + 1) % 256) as u16],
        ),
        AddressingMode::IndirectY(p) => word(
            c.mem[p as u16],
            c.mem[((p + 1) % 256) as u16],
        ).wrapping_add(c.regs.y as u16),
    }
}

/// The operand byte the mode yields: the accumulator for register modes,
/// the immediate payload, or the byte at the effective address.
pub open spec fn resolved_operand(c: Machine, mode: AddressingMode) -> u8 {
    match mode {
        AddressingMode::Accumulator => c.regs.a,
        AddressingMode::Implied => c.regs.a,
        AddressingMode::Immediate(v) => v,
        _ => c.mem[resolved_address(c, mode)],
    }
}

/// The page-cross cycle penalty of resolving the mode: 1 when indexing
/// moved the effective address onto a different page than its base.
pub open spec fn resolve_penalty(c: Machine, mode: AddressingMode) -> u8 {
    match mode {
        AddressingMode::AbsoluteX(w) => if page_crossed(w, w.wrapping_add(c.regs.x as u16)) {
            1
        } else {
            0
        },
        AddressingMode::AbsoluteY(w) => if page_crossed(w, w.wrapping_add(c.regs.y as u16)) {
            1
        } else {
            0
        },
        AddressingMode::IndirectY(p) => {
            let base = word(c.mem[p as u16], c.mem[((p + 1) % 256) as u16]);
            if page_crossed(base, base.wrapping_add(c.regs.y as u16)) {
                1
            } else {
                0
            }
        },
        _ => 0,
    }
}

/// The address a taken branch lands on: the program counter after operand
/// fetch plus the sign-extended displacement, wrapping.
pub open spec fn branch_target(c: Machine, mode: AddressingMode) -> u16 {
    c.regs.pc.wrapping_add(resolved_address(c, mode))
}

/// What a branch instruction does: move the program counter to the target
/// when its predicate holds, change nothing otherwise. Memory and all other
/// registers are untouched either way.
pub open spec fn branch_post(pre: Machine, post: Machine, mode: AddressingMode, taken: bool) -> bool {
    &&& post.regs == (if taken {
        CpuState { pc: branch_target(pre, mode), ..pre.regs }
    } else {
        pre.regs
    })
    &&& same_mem(pre, post)
}

/// `post`'s memory is `pre`'s after one bus write (dropped if unmapped).
pub open spec fn mem_write1(pre: Machine, post: Machine, a1: u16, v1: u8) -> bool {
    &&& post.cov == pre.cov
    &&& post.mem == crate::bus::mem_write(pre.mem, pre.cov, a1, v1)
}

/// `post`'s memory is `pre`'s after two bus writes, in order.
pub open spec fn mem_write2(pre: Machine, post: Machine, a1: u16, v1: u8, a2: u16, v2: u8) -> bool {
    &&& post.cov == pre.cov
    &&& post.mem == crate::bus::mem_write(
        crate::bus::mem_write(pre.mem, pre.cov, a1, v1),
        pre.cov,
        a2,
        v2,
    )
}

/// `post`'s memory is `pre`'s after three bus writes, in order.
pub open spec fn mem_write3(
    pre: Machine,
    post: Machine,
    a1: u16,
    v1: u8,
    a2: u16,
    v2: u8,
    a3: u16,
    v3: u8,
) -> bool {
    &&& post.cov == pre.cov
    &&& post.mem == crate::bus::mem_write(
        crate::bus::mem_write(
            crate::bus::mem_write(pre.mem, pre.cov, a1, v1),
            pre.cov,
            a2,
            v2,
        ),
        pre.cov,
        a3,
        v3,
    )
}

/// Whether a branch mnemonic's predicate holds of the status register.
/// Non-branch mnemonics yield `false`.
pub open spec fn branch_taken(op: OpCode, p: Status) -> bool {
    match op {
        OpCode::BCC => !p.carry,
        OpCode::BCS => p.carry,
        OpCode::BEQ => p.zero,
        OpCode::BNE => !p.zero,
        OpCode::BMI => p.negative,
        OpCode::BPL => !p.negative,
        OpCode::BVS => p.overflow,
        OpCode::BVC => !p.overflow,
        _ => false,
    }
}

/// The cycle penalty a branch adds: 1 when taken, 1 more when the new
/// program counter sits on a different page than the pre-branch one.
pub open spec fn branch_penalty(pre: Machine, instr: Instruction) -> int {
    if branch_taken(instr.opcode, pre.regs.p) {
        1 + (if page_crossed(pre.regs.pc, branch_target(pre, instr.mode)) {
            1int
        } else {
            0int
        })
    } else {
        0
    }
}

/// The total cycles an instruction consumes: the base count from the
/// decoder, plus the resolver's page-cross penalty, plus the branch
/// penalty.
pub open spec fn exec_cycles(pre: Machine, instr: Instruction) -> int {
    instr.cycles + resolve_penalty(pre, instr.mode) + branch_penalty(pre, instr)
}

/// The executor's whole effect, one arm per mnemonic: how `post`'s
/// registers, flags and memory derive from `pre`'s, given the decoded
/// instruction. The cycles-remaining counter is untouched (the clock owns
/// it), which the `regs()` equalities already state.
pub open spec fn exec_post(pre: Machine, post: Machine, instr: Instruction) -> bool {
    let data = resolved_operand(pre, instr.mode);
    let address = resolved_address(pre, instr.mode);
    let r = pre.regs;
    match instr.opcode {
        OpCode::ADC => {
            let res = adc_result(r.a, data, r.p.carry);
            &&& post.regs == (CpuState {
                a: res,
                p: Status {
                    carry: adc_carry(r.a, data, r.p.carry),
                    overflow: adc_overflow(r.a, data, r.p.carry),
                    zero: res == 0,
                    negative: is_negative(res),
                    ..r.p
                },
                ..r
            })
            &&& same_mem(pre, post)
        },
        OpCode::SBC => {
            let m = (255 - data) as u8;
            let res = adc_result(r.a, m, r.p.carry);
            &&& post.regs == (CpuState {
                a: res,
                p: Status {
                    carry: adc_carry(r.a, m, r.p.carry),
                    overflow: adc_overflow(r.a, m, r.p.carry),
                    zero: res == 0,
                    negative: is_negative(res),
                    ..r.p
                },
                ..r
            })
            &&& same_mem(pre, post)
        },
        OpCode::AND => {
            let res = r.a & data;
            &&& post.regs == (CpuState { a: res, p: with_zn(r.p, res), ..r })
            &&& same_mem(pre, post)
        },
        OpCode::ORA => {
            let res = r.a | data;
            &&& post.regs == (CpuState { a: res, p: with_zn(r.p, res), ..r })
            &&& same_mem(pre, post)
        },
        OpCode::EOR => {
            let res = r.a ^ data;
            &&& post.regs == (CpuState { a: res, p: with_zn(r.p, res), ..r })
            &&& same_mem(pre, post)
        },
        OpCode::ASL => {
            let res = asl_result(data);
            let p2 = Status { carry: is_negative(data), ..with_zn(r.p, res) };
            if acc_mode(instr.mode) {
                &&& post.regs == (CpuState { a: res, p: p2, ..r })
                &&& same_mem(pre, post)
            } else {
                &&& post.regs == (CpuState { p: p2, ..r })
                &&& mem_write1(pre, post, address, res)
            }
        },
        OpCode::LSR => {
            let res = (data / 2) as u8;
            let p2 = Status { carry: data % 2 == 1, ..with_zn(r.p, res) };
            if acc_mode(instr.mode) {
                &&& post.regs == (CpuState { a: res, p: p2, ..r })
                &&& same_mem(pre, post)
            } else {
                &&& post.regs == (CpuState { p: p2, ..r })
                &&& mem_write1(pre, post, address, res)
            }
        },
        OpCode::ROL => {
            let res = rol_result(data, r.p.carry);
            let p2 = Status { carry: is_negative(data), ..with_zn(r.p, res) };
            if acc_mode(instr.mode) {
                &&& post.regs == (CpuState { a: res, p: p2, ..r })
                &&& same_mem(pre, post)
            } else {
                &&& post.regs == (CpuState { p: p2, ..r })
                &&& mem_write1(pre, post, address, res)
            }
        },
        OpCode::ROR => {
            let res = ror_result(data, r.p.carry);
            let p2 = Status { carry: data % 2 == 1, ..with_zn(r.p, res) };
            if acc_mode(instr.mode) {
                &&& post.regs == (CpuState { a: res, p: p2, ..r })
                &&& same_mem(pre, post)
            } else {
                &&& post.regs == (CpuState { p: p2, ..r })
                &&& mem_write1(pre, post, address, res)
            }
        },
        OpCode::CMP => {
            &&& post.regs == (CpuState { p: cmp_status(r.p, r.a, data), ..r })
            &&& same_mem(pre, post)
        },
        OpCode::CPX => {
            &&& post.regs == (CpuState { p: cmp_status(r.p, r.x, data), ..r })
            &&& same_mem(pre, post)
        },
        OpCode::CPY => {
            &&& post.regs == (CpuState { p: cmp_status(r.p, r.y, data), ..r })
            &&& same_mem(pre, post)
        },
        OpCode::BIT => {
            &&& post.regs == (CpuState {
                p: Status {
                    zero: (r.a & data) == 0,
                    overflow: (data & 0x40) == 0x40,
                    negative: is_negative(data),
                    ..r.p
                },
                ..r
            })
            &&& same_mem(pre, post)
        },
        OpCode::INC => {
            let res = data.wrapping_add(1);
            &&& post.regs == (CpuState { p: with_zn(r.p, res), ..r })
            &&& mem_write1(pre, post, address, res)
        },
        OpCode::DEC => {
            let res = data.wrapping_sub(1);
            &&& post.regs == (CpuState { p: with_zn(r.p, res), ..r })
            &&& mem_write1(pre, post, address, res)
        },
        OpCode::INX => {
            let res = r.x.wrapping_add(1);
            &&& post.regs == (CpuState { x: res, p: with_zn(r.p, res), ..r })
            &&& same_mem(pre, post)
        },
        OpCode::INY => {
            let res = r.y.wrapping_add(1);
            &&& post.regs == (CpuState { y: res, p: with_zn(r.p, res), ..r })
            &&& same_mem(pre, post)
        },
        OpCode::DEX => {
            let res = r.x.wrapping_sub(1);
            &&& post.regs == (CpuState { x: res, p: with_zn(r.p, res), ..r })
            &&& same_mem(pre, post)
        },
        OpCode::DEY => {
            let res = r.y.wrapping_sub(1);
            &&& post.regs == (CpuState { y: res, p: with_zn(r.p, res), ..r })
            &&& same_mem(pre, post)
        },
        OpCode::BCC => branch_post(pre, post, instr.mode, !r.p.carry),
        OpCode::BCS => branch_post(pre, post, instr.mode, r.p.carry),
        OpCode::BEQ => branch_post(pre, post, instr.mode, r.p.zero),
        OpCode::BNE => branch_post(pre, post, instr.mode, !r.p.zero),
        OpCode::BMI => branch_post(pre, post, instr.mode, r.p.negative),
        OpCode::BPL => branch_post(pre, post, instr.mode, !r.p.negative),
        OpCode::BVS => branch_post(pre, post, instr.mode, r.p.overflow),
        OpCode::BVC => branch_post(pre, post, instr.mode, !r.p.overflow),
        OpCode::JMP => {
            &&& post.regs == (CpuState { pc: address, ..r })
            &&& same_mem(pre, post)
        },
        OpCode::JSR => {
            let ret = r.pc.wrapping_sub(1);
            &&& post.regs == (CpuState { pc: address, s: r.s.wrapping_sub(2), ..r })
            &&& mem_write2(
                pre,
                post,
                stack_addr(r.s),
                hi_byte(ret),
                stack_addr(r.s.wrapping_sub(1)),
                lo_byte(ret),
            )
        },
        OpCode::RTS => {
            let lo = pre.mem[stack_addr(r.s.wrapping_add(1))];
            let hi = pre.mem[stack_addr(r.s.wrapping_add(2))];
            &&& post.regs == (CpuState {
                pc: word(lo, hi).wrapping_add(1),
                s: r.s.wrapping_add(2),
                ..r
            })
            &&& same_mem(pre, post)
        },
        OpCode::RTI => {
            let pb = pre.mem[stack_addr(r.s.wrapping_add(1))];
            let lo = pre.mem[stack_addr(r.s.wrapping_add(2))];
            let hi = pre.mem[stack_addr(r.s.wrapping_add(3))];
            &&& post.regs == (CpuState {
                pc: word(lo, hi),
                s: r.s.wrapping_add(3),
                p: popped_status(pb),
                ..r
            })
            &&& same_mem(pre, post)
        },
        OpCode::BRK => {
            let pc1 = r.pc.wrapping_add(1);
            &&& post.regs == (CpuState {
                pc: word(pre.mem[0xFFFE], pre.mem[0xFFFF]),
                s: r.s.wrapping_sub(3),
                p: Status { brk: false, interrupt: true, ..r.p },
                ..r
            })
            &&& mem_write3(
                pre,
                post,
                stack_addr(r.s),
                hi_byte(pc1),
                stack_addr(r.s.wrapping_sub(1)),
                lo_byte(pc1),
                stack_addr(r.s.wrapping_sub(2)),
                pushed_status(r.p, true),
            )
        },
        OpCode::PHA => {
            &&& post.regs == (CpuState { s: r.s.wrapping_sub(1), ..r })
            &&& mem_write1(pre, post, stack_addr(r.s), r.a)
        },
        OpCode::PHP => {
            &&& post.regs == (CpuState {
                s: r.s.wrapping_sub(1),
                p: Status { brk: false, unused: false, ..r.p },
                ..r
            })
            &&& mem_write1(pre, post, stack_addr(r.s), pushed_status(r.p, true))
        },
        OpCode::PLA => {
            let v = pre.mem[stack_addr(r.s.wrapping_add(1))];
            &&& post.regs == (CpuState { a: v, s: r.s.wrapping_add(1), p: with_zn(r.p, v), ..r })
            &&& same_mem(pre, post)
        },
        OpCode::PLP => {
            let v = pre.mem[stack_addr(r.s.wrapping_add(1))];
            &&& post.regs == (CpuState { s: r.s.wrapping_add(1), p: popped_status(v), ..r })
            &&& same_mem(pre, post)
        },
        OpCode::LDA => {
            &&& post.regs == (CpuState { a: data, p: with_zn(r.p, data), ..r })
            &&& same_mem(pre, post)
        },
        OpCode::LDX => {
            &&& post.regs == (CpuState { x: data, p: with_zn(r.p, data), ..r })
            &&& same_mem(pre, post)
        },
        OpCode::LDY => {
            &&& post.regs == (CpuState { y: data, p: with_zn(r.p, data), ..r })
            &&& same_mem(pre, post)
        },
        OpCode::STA => {
            &&& post.regs == r
            &&& mem_write1(pre, post, address, r.a)
        },
        OpCode::STX => {
            &&& post.regs == r
            &&& mem_write1(pre, post, address, r.x)
        },
        OpCode::STY => {
            &&& post.regs == r
            &&& mem_write1(pre, post, address, r.y)
        },
        OpCode::TAX => {
            &&& post.regs == (CpuState { x: r.a, p: with_zn(r.p, r.a), ..r })
            &&& same_mem(pre, post)
        },
        OpCode::TAY => {
            &&& post.regs == (CpuState { y: r.a, p: with_zn(r.p, r.a), ..r })
            &&& same_mem(pre, post)
        },
        OpCode::TXA => {
            &&& post.regs == (CpuState { a: r.x, p: with_zn(r.p, r.x), ..r })
            &&& same_mem(pre, post)
        },
        OpCode::TYA => {
            &&& post.regs == (CpuState { a: r.y, p: with_zn(r.p, r.y), ..r })
            &&& same_mem(pre, post)
        },
        OpCode::TSX => {
            &&& post.regs == (CpuState { x: r.s, p: with_zn(r.p, r.s), ..r })
            &&& same_mem(pre, post)
        },
        OpCode::TXS => {
            &&& post.regs == (CpuState { s: r.x, ..r })
            &&& same_mem(pre, post)
        },
        OpCode::CLC => {
            &&& post.regs == (CpuState { p: Status { carry: false, ..r.p }, ..r })
            &&& same_mem(pre, post)
        },
        OpCode::SEC => {
            &&& post.regs == (CpuState { p: Status { carry: true, ..r.p }, ..r })
            &&& same_mem(pre, post)
        },
        OpCode::CLI => {
            &&& post.regs == (CpuState { p: Status { interrupt: false, ..r.p }, ..r })
            &&& same_mem(pre, post)
        },
        OpCode::SEI => {
            &&& post.regs == (CpuState { p: Status { interrupt: true, ..r.p }, ..r })
            &&& same_mem(pre, post)
        },
        OpCode::CLD => {
            &&& post.regs == (CpuState { p: Status { decimal: false, ..r.p }, ..r })
            &&& same_mem(pre, post)
        },
        OpCode::SED => {
            &&& post.regs == (CpuState { p: Status { decimal: true, ..r.p }, ..r })
            &&& same_mem(pre, post)
        },
        OpCode::CLV => {
            &&& post.regs == (CpuState { p: Status { overflow: false, ..r.p }, ..r })
            &&& same_mem(pre, post)
        },
        OpCode::NOP => {
            &&& post.regs == r
            &&& same_mem(pre, post)
        },
    }
}


impl Cpu {
    /// Resolve a decoded addressing mode against the current register file:
    /// produce the operand byte and the effective address, and add the
    /// page-cross penalty to `cycles`.
    pub fn interpret_payload(&self, mode: &AddressingMode, cycles: &mut u8) -> (r: (u8, u16))
        requires
            self.wf(),
            *old(cycles) <= 200,
        ensures
            r.0 == resolved_operand(self.m(), *mode),
            r.1 == resolved_address(self.m(), *mode),
            *final(cycles) == *old(cycles) + resolve_penalty(self.m(), *mode),
    {
        let address: u16 = match mode {
            AddressingMode::Accumulator => {
                return (self.a(), self.a() as u16);
            },
            AddressingMode::Implied => {
                return (self.a(), 0);
            },
            AddressingMode::Immediate(value) => {
                return (*value, self.prog_counter().wrapping_sub(1));
            },
            AddressingMode::Relative(d) => {
                if *d < 128 {
                    *d as u16
                } else {
                    0xFF00 + *d as u16
                }
            },
            AddressingMode::ZeroPage(a) => *a as u16,
            AddressingMode::ZeroPageX(a) => (*a as u16 + self.x() as u16) % 256,
            AddressingMode::ZeroPageY(a) => (*a as u16 + self.y() as u16) % 256,
            AddressingMode::Absolute(w) => *w,
            AddressingMode::AbsoluteX(w) => {
                let addr = w.wrapping_add(self.x() as u16);
                if *w / 256 != addr / 256 {
                    *cycles = *cycles + 1;
                }
                addr
            },
            AddressingMode::AbsoluteY(w) => {
                let addr = w.wrapping_add(self.y() as u16);
                if *w / 256 != addr / 256 {
                    *cycles = *cycles + 1;
                }
                addr
            },
            AddressingMode::Indirect(w) => {
                let lo = self.read(*w);
                let hi_addr = if *w % 256 == 255 {
                    *w - 255
                } else {
                    *w + 1
                };
                let hi = self.read(hi_addr);
                lo as u16 + 256 * hi as u16
            },
            AddressingMode::IndirectX(p) => {
                let lo = self.read((*p as u16 + self.x() as u16) % 256);
                let hi = self.read((*p as u16 + self.x() as u16 + 1) % 256);
                lo as u16 + 256 * hi as u16
            },
            AddressingMode::IndirectY(p) => {
                let lo = self.read(*p as u16);
                let hi = self.read((*p as u16 + 1) % 256);
                let base = lo as u16 + 256 * hi as u16;
                let addr = base.wrapping_add(self.y() as u16);
                if base / 256 != addr / 256 {
                    *cycles = *cycles + 1;
                }
                addr
            },
        };
        let data = self.read(address);
        (data, address)
    }

    /// Take a branch: add the sign-extended displacement to the program
    /// counter, charging 1 cycle plus 1 more on a page crossing.
    fn branch(&mut self, address: u16, cycles: &mut u8)
        requires
            old(self).wf(),
            *old(cycles) <= 210,
        ensures
            final(self).wf(),
            final(self).regs() == (CpuState {
                pc: old(self).regs().pc.wrapping_add(address),
                ..old(self).regs()
            }),
            mem_frame(*old(self), *final(self)),
            *final(cycles) == *old(cycles) + 1 + (if page_crossed(
                old(self).regs().pc,
                old(self).regs().pc.wrapping_add(address),
            ) {
                1int
            } else {
                0int
            }),
    {
        *cycles = *cycles + 1;
        let target = self.prog_counter().wrapping_add(address);
        if self.prog_counter() / 256 != target / 256 {
            *cycles = *cycles + 1;
        }
        self.set_prog_counter(target);
    }

    /// Arithmetic, logic, compare, bit-test and load mnemonics: they
    /// read the operand and update registers and flags only.
    #[verifier::rlimit(100)]
    fn exec_arith(&mut self, instruction: Instruction, data: u8, address: u16)
        requires
            old(self).wf(),
            instruction.opcode is ADC || instruction.opcode is SBC || instruction.opcode is AND || instruction.opcode is ORA || instruction.opcode is EOR || instruction.opcode is CMP || instruction.opcode is CPX || instruction.opcode is CPY || instruction.opcode is BIT || instruction.opcode is LDA || instruction.opcode is LDX || instruction.opcode is LDY,
            data == resolved_operand(old(self).m(), instruction.mode),
            address == resolved_address(old(self).m(), instruction.mode),
        ensures
            final(self).wf(),
            exec_post(old(self).m(), final(self).m(), instruction),
    {
        match instruction.opcode {
            OpCode::ADC => {
                let sum: u16 = self.a() as u16 + data as u16 + (if self.status_ref().carry {
                    1
                } else {
                    0
                });
                let result: u8 = (sum % 256) as u8;
                let overflow = ((self.a() ^ result) & (data ^ result) & 0x80) != 0;
                let carry = sum >= 256;
                self.set_status(Status {
                    carry,
                    overflow,
                    zero: result == 0,
                    negative: result >= 128,
                    ..*self.status_ref()
                });
                self.set_a(result);
            },
            OpCode::SBC => {
                let inverted: u8 = 255 - data;
                let sum: u16 = self.a() as u16 + inverted as u16 + (if self.status_ref().carry {
                    1
                } else {
                    0
                });
                let result: u8 = (sum % 256) as u8;
                let overflow = ((self.a() ^ result) & (inverted ^ result) & 0x80) != 0;
                let carry = sum >= 256;
                self.set_status(Status {
                    carry,
                    overflow,
                    zero: result == 0,
                    negative: result >= 128,
                    ..*self.status_ref()
                });
                self.set_a(result);
            },
            OpCode::AND => {
                let result = self.a() & data;
                self.set_status(Status {
                    zero: result == 0,
                    negative: result >= 128,
                    ..*self.status_ref()
                });
                self.set_a(result);
            },
            OpCode::ORA => {
                let result = self.a() | data;
                self.set_status(Status {
                    zero: result == 0,
                    negative: result >= 128,
                    ..*self.status_ref()
                });
                self.set_a(result);
            },
            OpCode::EOR => {
                let result = self.a() ^ data;
                self.set_status(Status {
                    zero: result == 0,
                    negative: result >= 128,
                    ..*self.status_ref()
                });
                self.set_a(result);
            },
            OpCode::CMP => {
                let diff = self.a().wrapping_sub(data);
                self.set_status(Status {
                    carry: self.a() >= data,
                    zero: diff == 0,
                    negative: diff >= 128,
                    ..*self.status_ref()
                });
            },
            OpCode::CPX => {
                let diff = self.x().wrapping_sub(data);
                self.set_status(Status {
                    carry: self.x() >= data,
                    zero: diff == 0,
                    negative: diff >= 128,
                    ..*self.status_ref()
                });
            },
            OpCode::CPY => {
                let diff = self.y().wrapping_sub(data);
                self.set_status(Status {
                    carry: self.y() >= data,
                    zero: diff == 0,
                    negative: diff >= 128,
                    ..*self.status_ref()
                });
            },
            OpCode::BIT => {
                self.set_status(Status {
                    zero: (self.a() & data) == 0,
                    overflow: (data & 0x40) == 0x40,
                    negative: data >= 128,
                    ..*self.status_ref()
                });
            },
            OpCode::LDA => {
                self.set_a(data);
                self.set_status(Status {
                    zero: data == 0,
                    negative: data >= 128,
                    ..*self.status_ref()
                });
            },
            OpCode::LDX => {
                self.set_x(data);
                self.set_status(Status {
                    zero: data == 0,
                    negative: data >= 128,
                    ..*self.status_ref()
                });
            },
            OpCode::LDY => {
                self.set_y(data);
                self.set_status(Status {
                    zero: data == 0,
                    negative: data >= 128,
                    ..*self.status_ref()
                });
            },
            _ => {},
        }
    }

    /// Shift, rotate, increment and decrement mnemonics: they write the
    /// result back to memory, or to the accumulator in accumulator mode.
    #[verifier::rlimit(100)]
    fn exec_shift(&mut self, instruction: Instruction, data: u8, address: u16)
        requires
            old(self).wf(),
            instruction.opcode is ASL || instruction.opcode is LSR || instruction.opcode is ROL || instruction.opcode is ROR || instruction.opcode is INC || instruction.opcode is DEC,
            data == resolved_operand(old(self).m(), instruction.mode),
            address == resolved_address(old(self).m(), instruction.mode),
        ensures
            final(self).wf(),
            exec_post(old(self).m(), final(self).m(), instruction),
    {
        let mode = instruction.mode;
        match instruction.opcode {
            OpCode::ASL => {
                let result: u8 = ((data as u16 * 2) % 256) as u8;
                self.set_status(Status {
                    carry: data >= 128,
                    zero: result == 0,
                    negative: result >= 128,
                    ..*self.status_ref()
                });
                match mode {
                    AddressingMode::Implied | AddressingMode::Accumulator => self.set_a(result),
                    _ => self.write(address, result),
                }
            },
            OpCode::LSR => {
                let result: u8 = data / 2;
                self.set_status(Status {
                    carry: data % 2 == 1,
                    zero: result == 0,
                    negative: result >= 128,
                    ..*self.status_ref()
                });
                match mode {
                    AddressingMode::Implied | AddressingMode::Accumulator => self.set_a(result),
                    _ => self.write(address, result),
                }
            },
            OpCode::ROL => {
                let carry_bit: u8 = if self.status_ref().carry {
                    1
                } else {
                    0
                };
                let result: u8 = ((data as u16 * 2) % 256) as u8 + carry_bit;
                self.set_status(Status {
                    carry: data >= 128,
                    zero: result == 0,
                    negative: result >= 128,
                    ..*self.status_ref()
                });
                match mode {
                    AddressingMode::Implied | AddressingMode::Accumulator => self.set_a(result),
                    _ => self.write(address, result),
                }
            },
            OpCode::ROR => {
                let carry_bit: u8 = if self.status_ref().carry {
                    128
                } else {
                    0
                };
                let result: u8 = carry_bit + data / 2;
                self.set_status(Status {
                    carry: data % 2 == 1,
                    zero: result == 0,
                    negative: result >= 128,
                    ..*self.status_ref()
                });
                match mode {
                    AddressingMode::Implied | AddressingMode::Accumulator => self.set_a(result),
                    _ => self.write(address, result),
                }
            },
            OpCode::INC => {
                let result = data.wrapping_add(1);
                self.write(address, result);
                self.set_status(Status {
                    zero: result == 0,
                    negative: result >= 128,
                    ..*self.status_ref()
                });
            },
            OpCode::DEC => {
                let result = data.wrapping_sub(1);
                self.write(address, result);
                self.set_status(Status {
                    zero: result == 0,
                    negative: result >= 128,
                    ..*self.status_ref()
                });
            },
            _ => {},
        }
    }

    /// Register increment, decrement and transfer mnemonics, and `NOP`.
    #[verifier::rlimit(100)]
    fn exec_reg(&mut self, instruction: Instruction, data: u8, address: u16)
        requires
            old(self).wf(),
            instruction.opcode is INX || instruction.opcode is INY || instruction.opcode is DEX || instruction.opcode is DEY || instruction.opcode is TAX || instruction.opcode is TAY || instruction.opcode is TXA || instruction.opcode is TYA || instruction.opcode is TSX || instruction.opcode is TXS || instruction.opcode is NOP,
            data == resolved_operand(old(self).m(), instruction.mode),
            address == resolved_address(old(self).m(), instruction.mode),
        ensures
            final(self).wf(),
            exec_post(old(self).m(), final(self).m(), instruction),
    {
        match instruction.opcode {
            OpCode::INX => {
                let result = self.x().wrapping_add(1);
                self.set_x(result);
                self.set_status(Status {
                    zero: result == 0,
                    negative: result >= 128,
                    ..*self.status_ref()
                });
            },
            OpCode::INY => {
                let result = self.y().wrapping_add(1);
                self.set_y(result);
                self.set_status(Status {
                    zero: result == 0,
                    negative: result >= 128,
                    ..*self.status_ref()
                });
            },
            OpCode::DEX => {
                let result = self.x().wrapping_sub(1);
                self.set_x(result);
                self.set_status(Status {
                    zero: result == 0,
                    negative: result >= 128,
                    ..*self.status_ref()
                });
            },
            OpCode::DEY => {
                let result = self.y().wrapping_sub(1);
                self.set_y(result);
                self.set_status(Status {
                    zero: result == 0,
                    negative: result >= 128,
                    ..*self.status_ref()
                });
            },
            OpCode::TAX => {
                let v = self.a();
                self.set_x(v);
                self.set_status(Status {
                    zero: v == 0,
                    negative: v >= 128,
                    ..*self.status_ref()
                });
            },
            OpCode::TAY => {
                let v = self.a();
                self.set_y(v);
                self.set_status(Status {
                    zero: v == 0,
                    negative: v >= 128,
                    ..*self.status_ref()
                });
            },
            OpCode::TXA => {
                let v = self.x();
                self.set_a(v);
                self.set_status(Status {
                    zero: v == 0,
                    negative: v >= 128,
                    ..*self.status_ref()
                });
            },
            OpCode::TYA => {
                let v = self.y();
                self.set_a(v);
                self.set_status(Status {
                    zero: v == 0,
                    negative: v >= 128,
                    ..*self.status_ref()
                });
            },
            OpCode::TSX => {
                let v = self.stack_ptr();
                self.set_x(v);
                self.set_status(Status {
                    zero: v == 0,
                    negative: v >= 128,
                    ..*self.status_ref()
                });
            },
            OpCode::TXS => {
                let v = self.x();
                self.set_stack_ptr(v);
            },
            OpCode::NOP => {},
            _ => {},
        }
    }

    /// The flag set/clear mnemonics.
    #[verifier::rlimit(100)]
    fn exec_flag(&mut self, instruction: Instruction, data: u8, address: u16)
        requires
            old(self).wf(),
            instruction.opcode is CLC || instruction.opcode is SEC || instruction.opcode is CLI || instruction.opcode is SEI || instruction.opcode is CLD || instruction.opcode is SED || instruction.opcode is CLV,
            data == resolved_operand(old(self).m(), instruction.mode),
            address == resolved_address(old(self).m(), instruction.mode),
        ensures
            final(self).wf(),
            exec_post(old(self).m(), final(self).m(), instruction),
    {
        match instruction.opcode {
            OpCode::CLC => {
                let mut st = *self.status_ref();
                st.carry = false;
                self.set_status(st);
            },
            OpCode::SEC => {
                let mut st = *self.status_ref();
                st.carry = true;
                self.set_status(st);
            },
            OpCode::CLI => {
                let mut st = *self.status_ref();
                st.interrupt = false;
                self.set_status(st);
            },
            OpCode::SEI => {
                let mut st = *self.status_ref();
                st.interrupt = true;
                self.set_status(st);
            },
            OpCode::CLD => {
                let mut st = *self.status_ref();
                st.decimal = false;
                self.set_status(st);
            },
            OpCode::SED => {
                let mut st = *self.status_ref();
                st.decimal = true;
                self.set_status(st);
            },
            OpCode::CLV => {
                let mut st = *self.status_ref();
                st.overflow = false;
                self.set_status(st);
            },
            _ => {},
        }
    }

    /// Stack, subroutine, interrupt-return, jump and store mnemonics.
    #[verifier::rlimit(100)]
    fn exec_stack(&mut self, instruction: Instruction, data: u8, address: u16)
        requires
            old(self).wf(),
            instruction.opcode is PHA || instruction.opcode is PHP || instruction.opcode is PLA || instruction.opcode is PLP || instruction.opcode is JSR || instruction.opcode is RTS || instruction.opcode is RTI || instruction.opcode is BRK || instruction.opcode is JMP || instruction.opcode is STA || instruction.opcode is STX || instruction.opcode is STY,
            data == resolved_operand(old(self).m(), instruction.mode),
            address == resolved_address(old(self).m(), instruction.mode),
        ensures
            final(self).wf(),
            exec_post(old(self).m(), final(self).m(), instruction),
    {
        match instruction.opcode {
            OpCode::PHA => {
                let a = self.a();
                self.push(a);
            },
            OpCode::PHP => {
                let pushed = Status { brk: true, unused: true, ..*self.status_ref() };
                self.push(pushed.bits());
                self.set_status(Status {
                    brk: false,
                    unused: false,
                    ..*self.status_ref()
                });
            },
            OpCode::PLA => {
                let v = self.pop();
                self.set_a(v);
                self.set_status(Status {
                    zero: v == 0,
                    negative: v >= 128,
                    ..*self.status_ref()
                });
            },
            OpCode::PLP => {
                let v = self.pop();
                let mut st = Status::from_bits(v);
                st.brk = false;
                st.unused = true;
                self.set_status(st);
            },
            OpCode::JSR => {
                let ret = self.prog_counter().wrapping_sub(1);
                self.push((ret / 256) as u8);
                self.push((ret % 256) as u8);
                self.set_prog_counter(address);
            },
            OpCode::RTS => {
                let lo = self.pop();
                let hi = self.pop();
                self.set_prog_counter((lo as u16 + 256 * hi as u16).wrapping_add(1));
            },
            OpCode::RTI => {
                let pb = self.pop();
                let mut st = Status::from_bits(pb);
                st.brk = false;
                st.unused = true;
                self.set_status(st);
                let lo = self.pop();
                let hi = self.pop();
                self.set_prog_counter(lo as u16 + 256 * hi as u16);
            },
            OpCode::BRK => {
                let pc1 = self.prog_counter().wrapping_add(1);
                self.set_prog_counter(pc1);
                self.push((pc1 / 256) as u8);
                self.push((pc1 % 256) as u8);
                let pushed = Status { brk: true, unused: true, ..*self.status_ref() };
                self.push(pushed.bits());
                self.set_status(Status {
                    brk: false,
                    interrupt: true,
                    ..*self.status_ref()
                });
                let lo = self.read(crate::cpu::INTERRUPT_ADDRESS);
                let hi = self.read(crate::cpu::INTERRUPT_ADDRESS + 1);
                self.set_prog_counter(lo as u16 + 256 * hi as u16);
            },
            OpCode::JMP => {
                self.set_prog_counter(address);
            },
            OpCode::STA => {
                let a = self.a();
                self.write(address, a);
            },
            OpCode::STX => {
                let x = self.x();
                self.write(address, x);
            },
            OpCode::STY => {
                let y = self.y();
                self.write(address, y);
            },
            _ => {},
        }
    }

    /// Execute one decoded instruction: mutate registers, flags and memory
    /// as `exec_post` describes, and report the cycles consumed, including
    /// page-cross and branch penalties.
    #[verifier::rlimit(100)]
    pub fn execute(&mut self, instruction: Instruction) -> (r: Result<u8, CpuError>)
        requires
            old(self).wf(),
            instruction.cycles <= 100,
        ensures
            final(self).wf(),
            r matches Ok(n) && n == exec_cycles(old(self).m(), instruction),
            exec_post(old(self).m(), final(self).m(), instruction),
    {
        let opcode = instruction.opcode;
        let mode = instruction.mode;
        let mut cycles = instruction.cycles;
        let (data, address) = self.interpret_payload(&mode, &mut cycles);
        match opcode {
            OpCode::ADC | OpCode::SBC | OpCode::AND | OpCode::ORA | OpCode::EOR | OpCode::CMP
                | OpCode::CPX | OpCode::CPY | OpCode::BIT | OpCode::LDA | OpCode::LDX
                | OpCode::LDY => self.exec_arith(instruction, data, address),
            OpCode::ASL | OpCode::LSR | OpCode::ROL | OpCode::ROR | OpCode::INC
                | OpCode::DEC => self.exec_shift(instruction, data, address),
            OpCode::INX | OpCode::INY | OpCode::DEX | OpCode::DEY | OpCode::TAX | OpCode::TAY
                | OpCode::TXA | OpCode::TYA | OpCode::TSX | OpCode::TXS
                | OpCode::NOP => self.exec_reg(instruction, data, address),
            OpCode::CLC | OpCode::SEC | OpCode::CLI | OpCode::SEI | OpCode::CLD | OpCode::SED
                | OpCode::CLV => self.exec_flag(instruction, data, address),
            OpCode::PHA | OpCode::PHP | OpCode::PLA | OpCode::PLP | OpCode::JSR | OpCode::RTS
                | OpCode::RTI | OpCode::BRK | OpCode::JMP | OpCode::STA | OpCode::STX
                | OpCode::STY => self.exec_stack(instruction, data, address),
            OpCode::BCC => {
                if !self.status_ref().carry {
                    self.branch(address, &mut cycles);
                }
            },
            OpCode::BCS => {
                if self.status_ref().carry {
                    self.branch(address, &mut cycles);
                }
            },
            OpCode::BEQ => {
                if self.status_ref().zero {
                    self.branch(address, &mut cycles);
                }
            },
            OpCode::BNE => {
                if !self.status_ref().zero {
                    self.branch(address, &mut cycles);
                }
            },
            OpCode::BMI => {
                if self.status_ref().negative {
                    self.branch(address, &mut cycles);
                }
            },
            OpCode::BPL => {
                if !self.status_ref().negative {
                    self.branch(address, &mut cycles);
                }
            },
            OpCode::BVS => {
                if self.status_ref().overflow {
                    self.branch(address, &mut cycles);
                }
            },
            OpCode::BVC => {
                if !self.status_ref().overflow {
                    self.branch(address, &mut cycles);
                }
            },
        }
        Ok(cycles)
    }
}

} // verus!
