use vstd::prelude::*;
use crate::alu::AluOut;
use crate::mmu::Mmu;
use crate::mmu::is_ram_address;
use crate::registers::Register16;
use crate::registers::Register8;
use crate::registers::Registers;

verus! {

/// The interrupt master enable. EI arms it (Pending); it takes effect one instruction later.
#[derive(Clone, Copy, Debug, PartialEq, Eq, Structural)]
pub enum Ime {
    Enabled,
    Disabled,
    Pending,
}

/// The processor: registers, interrupt master enable, HALT state and a T-cycle counter.
#[derive(Clone, Copy, Debug, PartialEq, Eq, Structural)]
pub struct Cpu {
    pub reg: Registers,
    pub cycles: u64,
    pub ops: u64,
    pub ime: Ime,
    pub halted: bool,
}

/// Base T-cycle cost of each unprefixed opcode (0xCB's cost is that of the prefixed opcode).
pub open spec fn op_cycles_table() -> Seq<u8> {
    seq![
        4, 12, 8, 8, 4, 4, 8, 4, 20, 8, 8, 8, 4, 4, 8, 4,
        4, 12, 8, 8, 4, 4, 8, 4, 12, 8, 8, 8, 4, 4, 8, 4,
        8, 12, 8, 8, 4, 4, 8, 4, 8, 8, 8, 8, 4, 4, 8, 4,
        8, 12, 8, 8, 12, 12, 12, 4, 8, 8, 8, 8, 4, 4, 8, 4,
        4, 4, 4, 4, 4, 4, 8, 4, 4, 4, 4, 4, 4, 4, 8, 4,
        4, 4, 4, 4, 4, 4, 8, 4, 4, 4, 4, 4, 4, 4, 8, 4,
        4, 4, 4, 4, 4, 4, 8, 4, 4, 4, 4, 4, 4, 4, 8, 4,
        8, 8, 8, 8, 8, 8, 4, 8, 4, 4, 4, 4, 4, 4, 8, 4,
        4, 4, 4, 4, 4, 4, 8, 4, 4, 4, 4, 4, 4, 4, 8, 4,
        4, 4, 4, 4, 4, 4, 8, 4, 4, 4, 4, 4, 4, 4, 8, 4,
        4, 4, 4, 4, 4, 4, 8, 4, 4, 4, 4, 4, 4, 4, 8, 4,
        4, 4, 4, 4, 4, 4, 8, 4, 4, 4, 4, 4, 4, 4, 8, 4,
        8, 12, 12, 16, 12, 16, 8, 16, 8, 16, 12, 0, 12, 24, 8, 16,
        8, 12, 12, 4, 12, 16, 8, 16, 8, 16, 12, 4, 12, 4, 8, 16,
        12, 12, 8, 4, 4, 16, 8, 16, 16, 4, 16, 4, 4, 4, 8, 16,
        12, 12, 8, 4, 4, 16, 8, 16, 12, 8, 16, 4, 4, 4, 8, 16,
    ]
}

/// T-cycle cost of each CB-prefixed opcode.
pub open spec fn cb_cycles(cb: u8) -> u8 {
    if cb % 8 != 6 {
        8
    } else if 0x40 <= cb < 0x80 {
        12
    } else {
        16
    }
}

/// Conditional jumps, relative jumps, calls and returns.
pub open spec fn is_cond_branch(op: u8) -> bool {
    op < 0x40 && op >= 0x20 && op % 8 == 0 || op >= 0xC0 && op % 8 == 0 && op < 0xE0 || op >= 0xC0
        && op < 0xE0 && (op % 8 == 2 || op % 8 == 4)
}

/// Extra cost of a taken conditional branch.
pub open spec fn branch_penalty(op: u8) -> u8 {
    if op < 0x40 || op % 8 == 2 {
        4
    } else {
        12
    }
}

/// The condition encoded in bits 3-4 of a conditional opcode: NZ, Z, NC, C.
pub open spec fn cond_holds(r: Registers, op: u8) -> bool {
    let k = (op / 8) % 4;
    if k == 0 {
        !r.fz
    } else if k == 1 {
        r.fz
    } else if k == 2 {
        !r.fc
    } else {
        r.fc
    }
}

/// T-cycles of executing `op` (and, after 0xCB, `cb`) from registers `r`.
pub open spec fn instr_cycles(op: u8, cb: u8, r: Registers) -> int {
    if op == 0xCB {
        cb_cycles(cb) as int
    } else if is_cond_branch(op) && cond_holds(r, op) {
        op_cycles_table()[op as int] + branch_penalty(op)
    } else {
        op_cycles_table()[op as int] as int
    }
}

/// `x` modulo 2^16.
pub open spec fn wrap16(x: int) -> u16 {
    ((x + 65536) % 65536) as u16
}

/// Both stack bytes below `sp` are plain RAM.
pub open spec fn stack_in_ram(sp: u16) -> bool {
    is_ram_address(wrap16(sp - 1)) && is_ram_address(wrap16(sp - 2))
}

/// `v` was pushed: SP went down by two and, where the stack is RAM, holds `v` little-endian.
pub open spec fn pushed(r0: Registers, r1: Registers, m1: &Mmu, v: u16) -> bool {
    &&& r1 == (Registers { sp: wrap16(r0.sp - 2), ..r0 })
    &&& m1.wf()
    &&& stack_in_ram(r0.sp) ==> m1.read_spec(wrap16(r0.sp - 1)) == v / 256 && m1.read_spec(
        wrap16(r0.sp - 2),
    ) == v % 256
}

/// The 16-bit value at the top of the stack.
pub open spec fn top16(m: &Mmu, sp: u16) -> u16 {
    (m.read_spec(sp) as int + 256 * m.read_spec(wrap16(sp + 1)) as int) as u16
}

/// Registers after popping into `rr`.
pub open spec fn popped(r0: Registers, m: &Mmu, rr: Register16) -> Registers {
    Registers { sp: wrap16(r0.sp + 2), ..r0 }.with16(rr, top16(m, r0.sp))
}

/// The interrupt vector for the lowest set bit among the five interrupt bits of `bits`.
pub open spec fn vector_of(bits: u8) -> (u16, u8) {
    if bits & 0x01 != 0 {
        (0x40, 0x01)
    } else if bits & 0x02 != 0 {
        (0x48, 0x02)
    } else if bits & 0x04 != 0 {
        (0x50, 0x04)
    } else if bits & 0x08 != 0 {
        (0x58, 0x08)
    } else {
        (0x60, 0x10)
    }
}

/// The register named by 8-bit operand number `idx` (B, C, D, E, H, L, and A for 7;
/// 6 names the byte at HL).
pub open spec fn reg_of(idx: u8) -> Register8 {
    if idx == 0 {
        Register8::B
    } else if idx == 1 {
        Register8::C
    } else if idx == 2 {
        Register8::D
    } else if idx == 3 {
        Register8::E
    } else if idx == 4 {
        Register8::H
    } else if idx == 5 {
        Register8::L
    } else {
        Register8::A
    }
}

/// The value of the 8-bit operand numbered `idx` (B, C, D, E, H, L, (HL), A).
pub open spec fn operand_spec(r: Registers, m: &Mmu, idx: u8) -> u8 {
    if idx == 6 {
        m.read_spec(r.spec_get16(Register16::HL))
    } else {
        r.spec_get8(reg_of(idx))
    }
}

/// The 16-bit register numbered `i` in loads and arithmetic (BC, DE, HL, SP).
pub open spec fn rr_of(i: u8) -> Register16 {
    if i == 0 {
        Register16::BC
    } else if i == 1 {
        Register16::DE
    } else if i == 2 {
        Register16::HL
    } else {
        Register16::SP
    }
}

/// The 16-bit register numbered `i` in PUSH and POP (BC, DE, HL, AF).
pub open spec fn rr_stack_of(i: u8) -> Register16 {
    if i == 0 {
        Register16::BC
    } else if i == 1 {
        Register16::DE
    } else if i == 2 {
        Register16::HL
    } else {
        Register16::AF
    }
}

/// The register file with its flags taken from an ALU result.
pub open spec fn with_out(r: Registers, o: AluOut) -> Registers {
    r.with_flags(o.z, o.n, o.h, o.c)
}

impl Cpu {
    /// `new` is `old` with registers `r` and nothing else changed.
    pub open spec fn only_reg(old: Cpu, new: Cpu, r: Registers) -> bool {
        new == Cpu { reg: r, ..old }
    }

    /// Registers after the boot ROM; interrupts disabled.
    pub fn new() -> (r: Cpu)
        ensures
            r.reg == Registers::new_spec(),
            r.ime == Ime::Disabled,
            !r.halted,
            r.cycles == 0,
    {
        Cpu { reg: Registers::new(), cycles: 0, ops: 0, ime: Ime::Disabled, halted: false }
    }

    pub fn base_cycles(op: u8) -> (r: u8)
        ensures
            r == op_cycles_table()[op as int],
            op != 0xCB ==> r >= 4,
            r <= 24,
    {
        let t: [u8; 256] = [
        4, 12, 8, 8, 4, 4, 8, 4, 20, 8, 8, 8, 4, 4, 8, 4,
        4, 12, 8, 8, 4, 4, 8, 4, 12, 8, 8, 8, 4, 4, 8, 4,
        8, 12, 8, 8, 4, 4, 8, 4, 8, 8, 8, 8, 4, 4, 8, 4,
        8, 12, 8, 8, 12, 12, 12, 4, 8, 8, 8, 8, 4, 4, 8, 4,
        4, 4, 4, 4, 4, 4, 8, 4, 4, 4, 4, 4, 4, 4, 8, 4,
        4, 4, 4, 4, 4, 4, 8, 4, 4, 4, 4, 4, 4, 4, 8, 4,
        4, 4, 4, 4, 4, 4, 8, 4, 4, 4, 4, 4, 4, 4, 8, 4,
        8, 8, 8, 8, 8, 8, 4, 8, 4, 4, 4, 4, 4, 4, 8, 4,
        4, 4, 4, 4, 4, 4, 8, 4, 4, 4, 4, 4, 4, 4, 8, 4,
        4, 4, 4, 4, 4, 4, 8, 4, 4, 4, 4, 4, 4, 4, 8, 4,
        4, 4, 4, 4, 4, 4, 8, 4, 4, 4, 4, 4, 4, 4, 8, 4,
        4, 4, 4, 4, 4, 4, 8, 4, 4, 4, 4, 4, 4, 4, 8, 4,
        8, 12, 12, 16, 12, 16, 8, 16, 8, 16, 12, 0, 12, 24, 8, 16,
        8, 12, 12, 4, 12, 16, 8, 16, 8, 16, 12, 4, 12, 4, 8, 16,
        12, 12, 8, 4, 4, 16, 8, 16, 16, 4, 16, 4, 4, 4, 8, 16,
        12, 12, 8, 4, 4, 16, 8, 16, 12, 8, 16, 4, 4, 4, 8, 16,
        ];
        assert(t@ =~= op_cycles_table());
        t[op as usize]
    }

    pub fn cb_op_cycles(cb: u8) -> (r: u8)
        ensures
            r == cb_cycles(cb),
    {
        if cb % 8 != 6 {
            8
        } else if 0x40 <= cb && cb < 0x80 {
            12
        } else {
            16
        }
    }

    pub(crate) fn step_cycles(&mut self, steps: u8)
        ensures
            *final(self) == (Cpu { cycles: ((old(self).cycles + steps) % 0x1_0000_0000_0000_0000) as u64, ..*old(self) }),
    {
        self.cycles = self.cycles.wrapping_add(steps as u64);
    }

    pub(crate) fn consume_u8(&mut self, mmu: &Mmu) -> (r: u8)
        requires
            mmu.wf(),
        ensures
            r == mmu.read_spec(old(self).reg.pc),
            Cpu::only_reg(*old(self), *final(self), Registers { pc: wrap16(old(self).reg.pc + 1), ..old(self).reg }),
    {
        let r: u8 = mmu.read(self.reg.pc);
        self.reg.pc = self.reg.pc.wrapping_add(1);
        r
    }

    pub(crate) fn consume_u16(&mut self, mmu: &Mmu) -> (r: u16)
        requires
            mmu.wf(),
        ensures
            r == mmu.read_spec(old(self).reg.pc) as int + 256 * mmu.read_spec(wrap16(old(self).reg.pc + 1)) as int,
            Cpu::only_reg(*old(self), *final(self), Registers { pc: wrap16(old(self).reg.pc + 2), ..old(self).reg }),
    {
        let r: u16 = mmu.read_16(self.reg.pc);
        self.reg.pc = self.reg.pc.wrapping_add(2);
        r
    }

    pub(crate) fn stack_push_u8(&mut self, mmu: &mut Mmu, value: u8)
        requires
            old(mmu).wf(),
        ensures
            Mmu::stable(old(mmu), final(mmu)),
            final(mmu).wf(),
            Cpu::only_reg(*old(self), *final(self), Registers { sp: wrap16(old(self).reg.sp - 1), ..old(self).reg }),
            Mmu::write_post(old(mmu), final(mmu), wrap16(old(self).reg.sp - 1), value),
    {
        self.reg.sp = self.reg.sp.wrapping_sub(1);
        mmu.write(self.reg.sp, value);
    }

    pub(crate) fn stack_push_u16(&mut self, mmu: &mut Mmu, value: u16)
        requires
            old(mmu).wf(),
        ensures
            Mmu::stable(old(mmu), final(mmu)),
            Cpu::only_reg(*old(self), *final(self), final(self).reg),
            pushed(old(self).reg, final(self).reg, final(mmu), value),
            stack_in_ram(old(self).reg.sp) ==> final(mmu).io == old(mmu).io && final(mmu).ie_flag
                == old(mmu).ie_flag && final(mmu).cart == old(mmu).cart,
    {
        let ghost sp = self.reg.sp;
        let high: u8 = (value / 256) as u8;
        let low: u8 = (value % 256) as u8;
        self.stack_push_u8(mmu, high);
        let ghost mid = *mmu;
        self.stack_push_u8(mmu, low);
        proof {
            if stack_in_ram(sp) {
                crate::mmu::lemma_write_then_read(&mid, mmu, wrap16(sp - 2), low);
                crate::mmu::lemma_write_other_ram(&mid, mmu, wrap16(sp - 2), low, wrap16(sp - 1));
            }
        }
    }

    pub(crate) fn stack_pop_u16(&mut self, mmu: &Mmu) -> (r: u16)
        requires
            mmu.wf(),
        ensures
            r == top16(mmu, old(self).reg.sp),
            Cpu::only_reg(*old(self), *final(self), Registers { sp: wrap16(old(self).reg.sp + 2), ..old(self).reg }),
    {
        let low: u8 = mmu.read(self.reg.sp);
        self.reg.sp = self.reg.sp.wrapping_add(1);
        let high: u8 = mmu.read(self.reg.sp);
        self.reg.sp = self.reg.sp.wrapping_add(1);
        (high as u16) * 256 + (low as u16)
    }

    /// Reads the 8-bit operand numbered `idx`.
    pub(crate) fn load_operand(&self, mmu: &Mmu, idx: u8) -> (r: u8)
        requires
            mmu.wf(),
        ensures
            r == operand_spec(self.reg, mmu, idx),
    {
        if idx == 6 {
            mmu.read(self.reg.get16(&Register16::HL))
        } else {
            let name: Register8 = if idx == 0 {
                Register8::B
            } else if idx == 1 {
                Register8::C
            } else if idx == 2 {
                Register8::D
            } else if idx == 3 {
                Register8::E
            } else if idx == 4 {
                Register8::H
            } else if idx == 5 {
                Register8::L
            } else {
                Register8::A
            };
            self.reg.get8(&name)
        }
    }

    /// Writes the 8-bit operand numbered `idx`.
    pub(crate) fn store_operand(&mut self, mmu: &mut Mmu, idx: u8, value: u8)
        requires
            old(mmu).wf(),
        ensures
            Mmu::stable(old(mmu), final(mmu)),
            final(mmu).wf(),
            idx == 6 ==> *final(self) == *old(self) && Mmu::write_post(
                old(mmu),
                final(mmu),
                old(self).reg.spec_get16(Register16::HL),
                value,
            ),
            idx != 6 ==> Cpu::only_reg(*old(self), *final(self), old(self).reg.with8(reg_of(idx), value))
                && *final(mmu) == *old(mmu),
    {
        if idx == 6 {
            let add: u16 = self.reg.get16(&Register16::HL);
            mmu.write(add, value);
        } else {
            let name: Register8 = if idx == 0 {
                Register8::B
            } else if idx == 1 {
                Register8::C
            } else if idx == 2 {
                Register8::D
            } else if idx == 3 {
                Register8::E
            } else if idx == 4 {
                Register8::H
            } else if idx == 5 {
                Register8::L
            } else {
                Register8::A
            };
            self.reg.set8(&name, value);
        }
    }
}

} // verus!
