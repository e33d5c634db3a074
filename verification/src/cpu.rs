//! The CPU facade: registers, flags, cycle counter, and the bus.
//!
//! Contracts describe the machine through spec-level views: `regs()` packs
//! the architectural registers into a `CpuState`; `memv()` and `covs()`
//! give the byte the bus yields for each address and the set of addresses
//! some device claims; `m()` bundles all of them into one `Machine` value
//! that the step relations in `decode` and `execute` are stated over.

use vstd::prelude::*;

use crate::bus::{Bus, Device};
use crate::bus::BusItem;
use crate::error::CpuError;
use crate::instruction::Instruction;
use crate::status::{Status, StatusFlags};

verus! {

/// Where the 16-bit IRQ/BRK vector lives (little-endian).
pub const INTERRUPT_ADDRESS: u16 = 0xFFFE;

/// Where the 16-bit non-maskable-interrupt vector lives (little-endian).
pub const NMI_ADDRESS: u16 = 0xFFFA;

/// Where the 16-bit reset vector lives (little-endian).
pub const RESET_ADDRESS: u16 = 0xFFFC;

/// Base of the stack page: the stack pointer offsets into `$0100..=$01FF`.
pub const STACK_POINTER_BASE_ADDRESS: u16 = 0x0100;

/// The architectural register file, as one spec-level value.
pub ghost struct CpuState {
    pub a: u8,
    pub x: u8,
    pub y: u8,
    pub s: u8,
    pub pc: u16,
    pub p: Status,
    pub cycles: u8,
}

/// The address the stack pointer value `s` points at: `$0100 + s`.
pub open spec fn stack_addr(s: u8) -> u16 {
    (0x0100 + s) as u16
}

/// The 16-bit word assembled from a little-endian byte pair.
pub open spec fn word(lo: u8, hi: u8) -> u16 {
    (lo + 256 * hi) as u16
}

/// A whole machine state as one spec-level value: register file, memory
/// map, and the set of device-claimed addresses. The step relations in
/// `execute` are stated over this view.
pub ghost struct Machine {
    pub regs: CpuState,
    pub mem: Map<u16, u8>,
    pub cov: Set<u16>,
}

/// A MOS 6502-class CPU: register file, status flags, cycles-remaining
/// counter, and the data bus it owns.
pub struct Cpu {
    data_bus: Bus,
    a: u8,
    x: u8,
    y: u8,
    stack_ptr: u8,
    prog_counter: u16,
    status: Status,
    cycles: u8,
}

/// No change to memory or to the device map between `pre` and `post`.
pub open spec fn mem_frame(pre: Cpu, post: Cpu) -> bool {
    &&& post.memv() == pre.memv()
    &&& post.covs() == pre.covs()
}

impl Cpu {
    /// The register file of this CPU.
    pub closed spec fn regs(&self) -> CpuState {
        CpuState {
            a: self.a,
            x: self.x,
            y: self.y,
            s: self.stack_ptr,
            pc: self.prog_counter,
            p: self.status,
            cycles: self.cycles,
        }
    }

    /// The full memory map the bus presents (unclaimed addresses read 0).
    pub closed spec fn memv(&self) -> Map<u16, u8> {
        self.data_bus.mem_map()
    }

    /// The set of addresses some connected device claims.
    pub closed spec fn covs(&self) -> Set<u16> {
        self.data_bus.cov()
    }

    /// The byte the bus yields for `address` (0 when unclaimed).
    pub open spec fn mem(&self, address: u16) -> u8 {
        self.memv()[address]
    }

    /// Whether some connected device claims `address`.
    pub open spec fn covered(&self, address: u16) -> bool {
        self.covs().contains(address)
    }

    /// This CPU's whole machine state as one spec value.
    pub open spec fn m(&self) -> Machine {
        Machine { regs: self.regs(), mem: self.memv(), cov: self.covs() }
    }

    /// Every connected device is well-formed.
    pub closed spec fn wf(&self) -> bool {
        self.data_bus.wf()
    }

    /// Create a CPU with all registers zero, no flags set, and an empty bus.
    pub fn new() -> (r: Cpu)
        ensures
            r.wf(),
            r.regs() == (CpuState {
                a: 0,
                x: 0,
                y: 0,
                s: 0,
                pc: 0,
                p: Status::spec_empty(),
                cycles: 0,
            }),
            forall|a: u16| r.mem(a) == 0,
            forall|a: u16| !r.covered(a),
    {
        Cpu {
            data_bus: Bus::new(),
            a: 0,
            x: 0,
            y: 0,
            stack_ptr: 0,
            prog_counter: 0,
            status: Status::empty(),
            cycles: 0,
        }
    }

    /// Attach a device to the data bus; it is consulted after all devices
    /// already connected.
    pub fn connect(&mut self, item: Device)
        requires
            old(self).wf(),
            item.item_wf(),
        ensures
            final(self).wf(),
            final(self).regs() == old(self).regs(),
            forall|a: u16|
                final(self).mem(a) == (if old(self).covered(a) {
                    old(self).mem(a)
                } else if crate::bus::covers(item, a) {
                    item.item_mem()[a - item.item_start()]
                } else {
                    0
                }),
            forall|a: u16|
                final(self).covered(a) == (old(self).covered(a) || crate::bus::covers(item, a)),
    {
        let ghost item0 = item;
        self.data_bus.connect(item);
        proof {
            assert forall|a: u16|
                (#[trigger] self.mem(a)) == (if old(self).covered(a) {
                    old(self).mem(a)
                } else if crate::bus::covers(item0, a) {
                    item0.item_mem()[a - item0.item_start()]
                } else {
                    0
                }) by {}
            assert forall|a: u16|
                (#[trigger] self.covered(a)) == (old(self).covered(a) || crate::bus::covers(
                    item0,
                    a,
                )) by {}
        }
    }

    /// Read the byte at `address` through the bus.
    pub fn read(&self, address: u16) -> (b: u8)
        requires
            self.wf(),
        ensures
            b == self.mem(address),
    {
        self.data_bus.read(address, false)
    }

    /// Write `value` to `address` through the bus; writes to unclaimed
    /// addresses are dropped.
    pub fn write(&mut self, address: u16, value: u8)
        requires
            old(self).wf(),
        ensures
            final(self).wf(),
            final(self).regs() == old(self).regs(),
            final(self).covs() == old(self).covs(),
            final(self).memv() == crate::bus::mem_write(
                old(self).memv(),
                old(self).covs(),
                address,
                value,
            ),
    {
        self.data_bus.write(address, value);
    }

    /// Whether `flag` is currently raised in the status register.
    pub fn is_flag(&self, flag: StatusFlags) -> (r: bool)
        ensures
            r == self.regs().p.spec_get(flag),
    {
        self.status.get(flag)
    }

    /// Raise or clear one status flag.
    pub fn set_flag(&mut self, flag: StatusFlags, set: bool)
        requires
            old(self).wf(),
        ensures
            final(self).wf(),
            final(self).regs() == (CpuState {
                p: old(self).regs().p.spec_with(flag, set),
                ..old(self).regs()
            }),
            mem_frame(*old(self), *final(self)),
    {
        self.status.set(flag, set);
    }

    /// Fetch the byte at the program counter and advance it (wrapping).
    pub fn fetch(&mut self) -> (r: Result<u8, CpuError>)
        requires
            old(self).wf(),
        ensures
            final(self).wf(),
            r == Ok::<u8, CpuError>(old(self).mem(old(self).regs().pc)),
            final(self).regs() == (CpuState {
                pc: old(self).regs().pc.wrapping_add(1),
                ..old(self).regs()
            }),
            mem_frame(*old(self), *final(self)),
    {
        let value = self.read(self.prog_counter);
        self.prog_counter = self.prog_counter.wrapping_add(1);
        Ok(value)
    }

    /// Push a byte: store it at `$0100 + S`, then decrement `S` (wrapping).
    pub fn push(&mut self, value: u8)
        requires
            old(self).wf(),
        ensures
            final(self).wf(),
            push_post(*old(self), *final(self), value),
    {
        self.write(STACK_POINTER_BASE_ADDRESS + self.stack_ptr as u16, value);
        self.stack_ptr = self.stack_ptr.wrapping_sub(1);
    }

    /// Pop a byte: increment `S` (wrapping), then read `$0100 + S`.
    pub fn pop(&mut self) -> (r: u8)
        requires
            old(self).wf(),
        ensures
            final(self).wf(),
            pop_post(*old(self), *final(self), r),
    {
        self.stack_ptr = self.stack_ptr.wrapping_add(1);
        self.read(STACK_POINTER_BASE_ADDRESS + self.stack_ptr as u16)
    }

    /// A borrow of the status register value.
    pub(crate) fn status_ref(&self) -> (r: &Status)
        ensures
            *r == self.regs().p,
    {
        &self.status
    }

    /// Replace the status register.
    pub(crate) fn set_status(&mut self, st: Status)
        requires
            old(self).wf(),
        ensures
            final(self).wf(),
            final(self).regs() == (CpuState { p: st, ..old(self).regs() }),
            mem_frame(*old(self), *final(self)),
    {
        self.status = st;
    }

    /// Replace the accumulator.
    pub(crate) fn set_a(&mut self, v: u8)
        requires
            old(self).wf(),
        ensures
            final(self).wf(),
            final(self).regs() == (CpuState { a: v, ..old(self).regs() }),
            mem_frame(*old(self), *final(self)),
    {
        self.a = v;
    }

    /// Replace the X index register.
    pub(crate) fn set_x(&mut self, v: u8)
        requires
            old(self).wf(),
        ensures
            final(self).wf(),
            final(self).regs() == (CpuState { x: v, ..old(self).regs() }),
            mem_frame(*old(self), *final(self)),
    {
        self.x = v;
    }

    /// Replace the Y index register.
    pub(crate) fn set_y(&mut self, v: u8)
        requires
            old(self).wf(),
        ensures
            final(self).wf(),
            final(self).regs() == (CpuState { y: v, ..old(self).regs() }),
            mem_frame(*old(self), *final(self)),
    {
        self.y = v;
    }

    /// Replace the stack pointer.
    pub(crate) fn set_stack_ptr(&mut self, v: u8)
        requires
            old(self).wf(),
        ensures
            final(self).wf(),
            final(self).regs() == (CpuState { s: v, ..old(self).regs() }),
            mem_frame(*old(self), *final(self)),
    {
        self.stack_ptr = v;
    }

    /// Replace the program counter.
    pub(crate) fn set_prog_counter(&mut self, v: u16)
        requires
            old(self).wf(),
        ensures
            final(self).wf(),
            final(self).regs() == (CpuState { pc: v, ..old(self).regs() }),
            mem_frame(*old(self), *final(self)),
    {
        self.prog_counter = v;
    }

    /// Replace the cycles-remaining counter.
    pub(crate) fn set_cycles(&mut self, v: u8)
        requires
            old(self).wf(),
        ensures
            final(self).wf(),
            final(self).regs() == (CpuState { cycles: v, ..old(self).regs() }),
            mem_frame(*old(self), *final(self)),
    {
        self.cycles = v;
    }

    /// The accumulator.
    pub fn a(&self) -> (r: u8)
        ensures
            r == self.regs().a,
    {
        self.a
    }

    /// The X index register.
    pub fn x(&self) -> (r: u8)
        ensures
            r == self.regs().x,
    {
        self.x
    }

    /// The Y index register.
    pub fn y(&self) -> (r: u8)
        ensures
            r == self.regs().y,
    {
        self.y
    }

    /// The stack pointer.
    pub fn stack_ptr(&self) -> (r: u8)
        ensures
            r == self.regs().s,
    {
        self.stack_ptr
    }

    /// The program counter.
    pub fn prog_counter(&self) -> (r: u16)
        ensures
            r == self.regs().pc,
    {
        self.prog_counter
    }


    /// Reset the CPU: clear the registers, set the stack pointer to `$FD`,
    /// leave only Unused raised in the status register, load the program
    /// counter from the reset vector at `$FFFC/$FFFD`, and charge 8 cycles.
    pub fn reset(&mut self)
        requires
            old(self).wf(),
        ensures
            final(self).wf(),
            final(self).regs() == (CpuState {
                a: 0,
                x: 0,
                y: 0,
                s: 0xFD,
                pc: word(old(self).mem(RESET_ADDRESS), old(self).mem((RESET_ADDRESS + 1) as u16)),
                p: (Status { unused: true, ..Status::spec_empty() }),
                cycles: 8,
            }),
            mem_frame(*old(self), *final(self)),
    {
        self.a = 0;
        self.x = 0;
        self.y = 0;
        self.stack_ptr = 0xFD;
        let mut status = Status::empty();
        status.unused = true;
        self.status = status;
        let lo = self.read(RESET_ADDRESS);
        let hi = self.read(RESET_ADDRESS + 1);
        self.prog_counter = lo as u16 + 256 * hi as u16;
        self.cycles = 8;
    }

    /// Accept a maskable interrupt: a no-op while InterruptDisable is
    /// raised, otherwise run the interrupt sequence through the vector at
    /// `$FFFE/$FFFF` at a cost of 7 cycles.
    pub fn interrupt(&mut self)
        requires
            old(self).wf(),
        ensures
            final(self).wf(),
            old(self).regs().p.interrupt ==> final(self).regs() == old(self).regs() && mem_frame(
                *old(self),
                *final(self),
            ),
            !old(self).regs().p.interrupt ==> interrupt_post(
                old(self).m(),
                final(self).m(),
                INTERRUPT_ADDRESS,
                7,
            ),
    {
        if !self.status.interrupt {
            self.run_interrupt_sequence(INTERRUPT_ADDRESS, 7);
        }
    }

    /// Accept the non-maskable interrupt: always run the interrupt sequence,
    /// through the vector at `$FFFA/$FFFB`, at a cost of 8 cycles.
    pub fn non_maskable_interrupt(&mut self)
        requires
            old(self).wf(),
        ensures
            final(self).wf(),
            interrupt_post(old(self).m(), final(self).m(), NMI_ADDRESS, 8),
    {
        self.run_interrupt_sequence(NMI_ADDRESS, 8);
    }

    /// The shared interrupt sequence: push the program counter and the
    /// status (Break clear, Unused set), raise InterruptDisable, and vector.
    fn run_interrupt_sequence(&mut self, vector: u16, cost: u8)
        requires
            old(self).wf(),
            vector <= 0xFFFE,
        ensures
            final(self).wf(),
            interrupt_post(old(self).m(), final(self).m(), vector, cost),
    {
        let lo = self.read(vector);
        let hi = self.read(vector + 1);
        let pc = self.prog_counter;
        self.push((pc / 256) as u8);
        self.push((pc % 256) as u8);
        let pushed = Status { brk: false, unused: true, ..self.status };
        self.push(pushed.bits());
        self.status = Status { brk: false, unused: true, interrupt: true, ..self.status };
        self.prog_counter = lo as u16 + 256 * hi as u16;
        self.cycles = cost;
    }

    /// Drive the CPU by one tick: at an instruction boundary fetch, decode
    /// and execute one whole instruction; otherwise just count one cycle
    /// down. `clock_post` states the effect exactly.
    pub fn clock(&mut self) -> (r: Result<(), CpuError>)
        requires
            old(self).wf(),
        ensures
            final(self).wf(),
            clock_post(old(self).m(), final(self).m(), r),
    {
        if self.cycles == 0 {
            let ghost pre = self.m();
            let opcode = match self.fetch() {
                Ok(v) => v,
                Err(e) => return Err(e),
            };
            let ghost m1 = self.m();
            let instruction = match self.decode(opcode) {
                Ok(i) => i,
                Err(e) => return Err(e),
            };
            let n = match self.execute(instruction) {
                Ok(n) => n,
                Err(e) => return Err(e),
            };
            self.cycles = n;
            proof {
                assert(m1 == (Machine {
                    regs: (CpuState { pc: pre.regs.pc.wrapping_add(1), ..pre.regs }),
                    ..pre
                }));
            }
        }
        self.cycles = self.cycles - 1;
        Ok(())
    }

    /// Cycles remaining before the next instruction is fetched.
    pub fn cycles(&self) -> (r: u8)
        ensures
            r == self.regs().cycles,
    {
        self.cycles
    }
}

/// What accepting an interrupt does: the program counter is pushed high
/// byte then low byte, then the status with Break clear and Unused set;
/// InterruptDisable is raised in the live flags; the program counter is
/// loaded from the little-endian word at `vector`; and the cycle counter is
/// set to the sequence's cost.
pub open spec fn interrupt_post(pre: Machine, post: Machine, vector: u16, cost: u8) -> bool {
    &&& post.regs == (CpuState {
        pc: crate::cpu::word(pre.mem[vector], pre.mem[(vector + 1) as u16]),
        s: pre.regs.s.wrapping_sub(3),
        p: (Status { brk: false, unused: true, interrupt: true, ..pre.regs.p }),
        cycles: cost,
        ..pre.regs
    })
    &&& crate::execute::mem_write3(
        pre,
        post,
        stack_addr(pre.regs.s),
        crate::execute::hi_byte(pre.regs.pc),
        stack_addr(pre.regs.s.wrapping_sub(1)),
        crate::execute::lo_byte(pre.regs.pc),
        stack_addr(pre.regs.s.wrapping_sub(2)),
        crate::execute::pushed_status(pre.regs.p, false),
    )
}

/// What one clock tick does. While cycles remain for the in-flight
/// instruction, the tick only decrements the counter. At an instruction
/// boundary the tick fetches the byte at the program counter, decodes it
/// against the canonical table (an undocumented opcode is reported, with
/// the program counter advanced past it and nothing else changed), executes
/// the instruction as `exec_post` dictates, and leaves the cycle counter at
/// the instruction's total cost minus this tick.
pub open spec fn clock_post(pre: Machine, post: Machine, r: Result<(), CpuError>) -> bool {
    if pre.regs.cycles > 0 {
        &&& r is Ok
        &&& post.regs == (CpuState { cycles: (pre.regs.cycles - 1) as u8, ..pre.regs })
        &&& crate::execute::same_mem(pre, post)
    } else {
        let op = pre.mem[pre.regs.pc];
        match crate::decode::opcode_info(op) {
            None => {
                &&& r == Err::<(), CpuError>(CpuError::InvalidOpCode(op))
                &&& post.regs == (CpuState { pc: pre.regs.pc.wrapping_add(1), ..pre.regs })
                &&& crate::execute::same_mem(pre, post)
            },
            Some(info) => {
                let m1 = Machine {
                    regs: (CpuState { pc: pre.regs.pc.wrapping_add(1), ..pre.regs }),
                    ..pre
                };
                let instr = Instruction {
                    opcode: info.0,
                    mode: crate::decode::spec_mode(info.1, m1),
                    cycles: info.2,
                };
                let m2 = Machine {
                    regs: (CpuState {
                        pc: m1.regs.pc.wrapping_add(info.1.operand_bytes()),
                        ..m1.regs
                    }),
                    ..m1
                };
                let mpost = Machine {
                    regs: (CpuState { cycles: pre.regs.cycles, ..post.regs }),
                    ..post
                };
                &&& r is Ok
                &&& crate::execute::exec_post(m2, mpost, instr)
                &&& post.regs.cycles == crate::execute::exec_cycles(m2, instr) - 1
            },
        }
    }
}

/// What one `push` does: the byte lands at `$0100 + S` (if mapped), and `S`
/// decrements with wrap-around; nothing else changes.
pub open spec fn push_post(pre: Cpu, post: Cpu, value: u8) -> bool {
    &&& post.regs() == (CpuState { s: pre.regs().s.wrapping_sub(1), ..pre.regs() })
    &&& post.covs() == pre.covs()
    &&& post.memv() == crate::bus::mem_write(
        pre.memv(),
        pre.covs(),
        stack_addr(pre.regs().s),
        value,
    )
}

/// What one `pop` does: `S` increments with wrap-around and the byte at the
/// new `$0100 + S` is returned; memory is untouched.
pub open spec fn pop_post(pre: Cpu, post: Cpu, r: u8) -> bool {
    &&& post.regs() == (CpuState { s: pre.regs().s.wrapping_add(1), ..pre.regs() })
    &&& r == pre.mem(stack_addr(pre.regs().s.wrapping_add(1)))
    &&& mem_frame(pre, post)
}

/// Push then pop is identity: for any machine where the stack page is
/// mapped, popping right after pushing `b` yields `b` again and returns the
/// stack pointer to its pre-push value.
pub proof fn lemma_push_pop_identity(c0: Cpu, c1: Cpu, c2: Cpu, b: u8, r: u8)
    requires
        push_post(c0, c1, b),
        pop_post(c1, c2, r),
        c0.covered(stack_addr(c0.regs().s)),
    ensures
        r == b,
        c2.regs().s == c0.regs().s,
        c2.regs() == c0.regs(),
{
    assert(c1.regs().s.wrapping_add(1) == c0.regs().s);
    assert(c1.mem(stack_addr(c0.regs().s)) == b);
}

} // verus!
