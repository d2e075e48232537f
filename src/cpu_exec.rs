use vstd::prelude::*;
use crate::cpu::Cpu;
use crate::cpu::Ime;
use crate::cpu::branch_penalty;
use crate::cpu::cond_holds;
use crate::cpu::is_cond_branch;
use crate::cpu::instr_cycles;
use crate::cpu::pushed;
use crate::cpu::stack_in_ram;
use crate::cpu::vector_of;
use crate::cpu::with_out;
use crate::cpu::wrap16;
use crate::cpu::operand_spec;
use crate::cpu_ops::PostOp;
use crate::cpu_ops::post_hl;
use crate::alu::add16_spec;
use crate::alu::add_sp_spec;
use crate::alu::daa_spec;
use crate::cpu_ops::rot_spec;
use crate::alu::dec8_spec;
use crate::alu::signed8;
use crate::cpu::popped;
use crate::cpu::rr_of;
use crate::cpu::rr_stack_of;
use crate::cpu_ops::after_u16;
use crate::cpu_ops::imm16;
use crate::registers::Registers;
use crate::alu::inc8_spec;
use crate::cpu_ops::after_u8;
use crate::cpu_ops::alu_regs;
use crate::cpu_ops::cb_effect;
use crate::cpu_ops::imm8;
use crate::cpu_ops::stored;
use crate::mmu::Mmu;
use crate::registers::Flag;
use crate::registers::Register16;
use crate::registers::Register8;

verus! {

/// An interrupt is serviced at the next instruction boundary.
pub open spec fn interrupt_due(c: Cpu, m: &Mmu) -> bool {
    (c.ime == Ime::Enabled || c.ime == Ime::Pending) && m.ie_flag & m.io.if_flag & 0x1F != 0
}

/// IME at the start of a tick: a pending enable takes effect.
pub open spec fn promoted(ime: Ime) -> Ime {
    if ime == Ime::Pending {
        Ime::Enabled
    } else {
        ime
    }
}

/// IME after executing `op` from `ime`.
pub open spec fn ime_after(op: u8, ime: Ime) -> Ime {
    if op == 0xF3 {
        Ime::Disabled
    } else if op == 0xFB {
        Ime::Pending
    } else if op == 0xD9 {
        Ime::Enabled
    } else {
        ime
    }
}

/// What the opcodes below 0x40 do.
#[verifier::opaque]
pub open spec fn low_effect(c0: Cpu, c1: Cpu, m0: &Mmu, m1: &Mmu, op: u8) -> bool {
    &&& op < 0x40 && op % 8 == 4 ==> ({
        let o = inc8_spec(operand_spec(c0.reg, m0, op / 8), c0.reg.fc);
        stored(c0, c1, m0, m1, op / 8, o.value, with_out(c0.reg, o))
    })
    &&& op < 0x40 && op % 8 == 5 ==> ({
        let o = dec8_spec(operand_spec(c0.reg, m0, op / 8), c0.reg.fc);
        stored(c0, c1, m0, m1, op / 8, o.value, with_out(c0.reg, o))
    })
    &&& op < 0x40 && op % 8 == 6 ==> stored(c0, c1, m0, m1, op / 8, imm8(m0, c0.reg), after_u8(c0.reg))
    &&& op < 0x40 && op % 16 == 1 ==> *m1 == *m0 && Cpu::only_reg(c0, c1,
        after_u16(c0.reg).with16(rr_of(op / 16), imm16(m0, c0.reg)))
    &&& op < 0x40 && op % 16 == 3 ==> *m1 == *m0 && Cpu::only_reg(c0, c1,
        c0.reg.with16(rr_of(op / 16), wrap16(c0.reg.spec_get16(rr_of(op / 16)) + 1)))
    &&& op < 0x40 && op % 16 == 0x0B ==> *m1 == *m0 && Cpu::only_reg(c0, c1,
        c0.reg.with16(rr_of(op / 16), wrap16(c0.reg.spec_get16(rr_of(op / 16)) - 1)))
    &&& op < 0x40 && op % 16 == 9 ==> *m1 == *m0 && ({
        let o = add16_spec(c0.reg.spec_get16(Register16::HL), c0.reg.spec_get16(rr_of(op / 16)), c0.reg.fz);
        Cpu::only_reg(c0, c1, c0.reg.with_flags(o.z, o.n, o.h, o.c).with16(Register16::HL, o.value))
    })
    &&& op == 0x18 ==> *m1 == *m0 && Cpu::only_reg(c0, c1, Registers {
        pc: wrap16(wrap16(c0.reg.pc + 1) + signed8(imm8(m0, c0.reg))),
        ..c0.reg
    })
    &&& op == 0x00 ==> c1 == c0 && *m1 == *m0
    &&& (op == 0x07 || op == 0x0F || op == 0x17 || op == 0x1F) ==> *m1 == *m0 && ({
        let o = rot_spec(op / 8, c0.reg.a, c0.reg.fc);
        Cpu::only_reg(c0, c1, Registers { a: o.value, ..c0.reg.with_flags(false, false, false, o.c) })
    })
    &&& op == 0x27 ==> *m1 == *m0 && ({
        let o = daa_spec(c0.reg.a, c0.reg.fn_, c0.reg.fh, c0.reg.fc);
        Cpu::only_reg(c0, c1, Registers { a: o.value, ..with_out(c0.reg, o) })
    })
    &&& op == 0x2F ==> *m1 == *m0 && Cpu::only_reg(c0, c1, Registers { a: !c0.reg.a, fn_: true, fh: true, ..c0.reg })
    &&& op == 0x37 ==> *m1 == *m0 && Cpu::only_reg(c0, c1, Registers { fc: true, fn_: false, fh: false, ..c0.reg })
    &&& op == 0x3F ==> *m1 == *m0 && Cpu::only_reg(c0, c1, Registers { fc: !c0.reg.fc, fn_: false, fh: false, ..c0.reg })
    &&& (op == 0x20 || op == 0x28 || op == 0x30 || op == 0x38) ==> *m1 == *m0 && Cpu::only_reg(c0, c1,
        if cond_holds(c0.reg, op) {
            Registers { pc: wrap16(wrap16(c0.reg.pc + 1) + signed8(imm8(m0, c0.reg))), ..c0.reg }
        } else {
            after_u8(c0.reg)
        })
    &&& (op == 0x0A || op == 0x1A) ==> *m1 == *m0 && Cpu::only_reg(c0, c1,
        Registers { a: m0.read_spec(c0.reg.spec_get16(rr_of(op / 16))), ..c0.reg })
    &&& (op == 0x02 || op == 0x12) ==> Cpu::only_reg(c0, c1, c0.reg) && Mmu::write_post(m0, m1,
        c0.reg.spec_get16(rr_of(op / 16)), c0.reg.a)
    &&& (op == 0x22 || op == 0x32) ==> Cpu::only_reg(c0, c1, post_hl(c0.reg, if op == 0x22 {
        PostOp::Inc
    } else {
        PostOp::Dec
    })) && Mmu::write_post(m0, m1, c0.reg.spec_get16(Register16::HL), c0.reg.a)
    &&& (op == 0x2A || op == 0x3A) ==> *m1 == *m0 && Cpu::only_reg(c0, c1, post_hl(
        Registers { a: m0.read_spec(c0.reg.spec_get16(Register16::HL)), ..c0.reg },
        if op == 0x2A {
            PostOp::Inc
        } else {
            PostOp::Dec
        },
    ))
    &&& op == 0x08 ==> Cpu::only_reg(c0, c1, after_u16(c0.reg)) && exists|mid: Mmu|
        mid.wf() && Mmu::write_post(m0, &mid, imm16(m0, c0.reg), (c0.reg.sp % 256) as u8)
            && Mmu::write_post(&mid, m1, wrap16(imm16(m0, c0.reg) + 1), (c0.reg.sp / 256) as u8)
    &&& op == 0x10 ==> c1 == (Cpu { halted: true, ..c0 }) && *m1 == *m0
}

/// What the opcodes from 0xC0 (0xCB aside) do.
#[verifier::opaque]
pub open spec fn high_effect(c0: Cpu, c1: Cpu, m0: &Mmu, m1: &Mmu, op: u8) -> bool {
    &&& op == 0xC3 ==> *m1 == *m0 && Cpu::only_reg(c0, c1, Registers { pc: imm16(m0, c0.reg), ..c0.reg })
    &&& op == 0xE9 ==> *m1 == *m0 && Cpu::only_reg(c0, c1, Registers { pc: c0.reg.spec_get16(Register16::HL), ..c0.reg })
    &&& op == 0xC9 ==> *m1 == *m0 && Cpu::only_reg(c0, c1, popped(c0.reg, m0, Register16::PC))
    &&& (op == 0xC1 || op == 0xD1 || op == 0xE1 || op == 0xF1) ==> *m1 == *m0 && Cpu::only_reg(c0, c1,
        popped(c0.reg, m0, rr_stack_of((op / 16) % 4)))
    &&& (op == 0xC5 || op == 0xD5 || op == 0xE5 || op == 0xF5) ==> pushed(c0.reg, c1.reg, m1,
        c0.reg.spec_get16(rr_stack_of((op / 16) % 4)))
    &&& op >= 0xC0 && op % 8 == 6 ==> *m1 == *m0 && Cpu::only_reg(c0, c1,
        alu_regs(after_u8(c0.reg), (op / 8) % 8, imm8(m0, c0.reg)))
    &&& (op == 0xC2 || op == 0xCA || op == 0xD2 || op == 0xDA) ==> *m1 == *m0 && Cpu::only_reg(c0, c1,
        if cond_holds(c0.reg, op) {
            Registers { pc: imm16(m0, c0.reg), ..c0.reg }
        } else {
            after_u16(c0.reg)
        })
    &&& (op == 0xC0 || op == 0xC8 || op == 0xD0 || op == 0xD8) ==> *m1 == *m0 && Cpu::only_reg(c0, c1,
        if cond_holds(c0.reg, op) {
            popped(c0.reg, m0, Register16::PC)
        } else {
            c0.reg
        })
    &&& op == 0xD9 ==> *m1 == *m0 && c1 == (Cpu { reg: popped(c0.reg, m0, Register16::PC), ime: Ime::Enabled, ..c0 })
    &&& op >= 0xC0 && op % 8 == 7 ==> c1.reg.pc == op - 0xC7 && pushed(c0.reg,
        Registers { pc: c0.reg.pc, ..c1.reg }, m1, c0.reg.pc)
    &&& op == 0xCD ==> c1.reg.pc == imm16(m0, c0.reg) && pushed(after_u16(c0.reg),
        Registers { pc: wrap16(c0.reg.pc + 2), ..c1.reg }, m1, wrap16(c0.reg.pc + 2))
    &&& op == 0xF0 ==> *m1 == *m0 && Cpu::only_reg(c0, c1,
        Registers { a: m0.read_spec((0xFF00 + imm8(m0, c0.reg)) as u16), ..after_u8(c0.reg) })
    &&& op == 0xE0 ==> Cpu::only_reg(c0, c1, after_u8(c0.reg)) && Mmu::write_post(m0, m1,
        (0xFF00 + imm8(m0, c0.reg)) as u16, c0.reg.a)
    &&& op == 0xF2 ==> *m1 == *m0 && Cpu::only_reg(c0, c1,
        Registers { a: m0.read_spec((0xFF00 + c0.reg.c) as u16), ..c0.reg })
    &&& op == 0xE2 ==> c1 == c0 && Mmu::write_post(m0, m1, (0xFF00 + c0.reg.c) as u16, c0.reg.a)
    &&& op == 0xFA ==> *m1 == *m0 && Cpu::only_reg(c0, c1,
        Registers { a: m0.read_spec(imm16(m0, c0.reg)), ..after_u16(c0.reg) })
    &&& op == 0xEA ==> Cpu::only_reg(c0, c1, after_u16(c0.reg)) && Mmu::write_post(m0, m1,
        imm16(m0, c0.reg), c0.reg.a)
    &&& op == 0xF9 ==> *m1 == *m0 && Cpu::only_reg(c0, c1,
        Registers { sp: c0.reg.spec_get16(Register16::HL), ..c0.reg })
    &&& op == 0xE8 ==> *m1 == *m0 && ({
        let r = after_u8(c0.reg);
        let o = add_sp_spec(r.sp, imm8(m0, c0.reg));
        Cpu::only_reg(c0, c1, Registers { sp: o.value, ..r.with_flags(o.z, o.n, o.h, o.c) })
    })
    &&& op == 0xF8 ==> *m1 == *m0 && ({
        let r = after_u8(c0.reg);
        let o = add_sp_spec(r.sp, imm8(m0, c0.reg));
        Cpu::only_reg(c0, c1, r.with_flags(o.z, o.n, o.h, o.c).with16(Register16::HL, o.value))
    })
    &&& (op == 0xC4 || op == 0xCC || op == 0xD4 || op == 0xDC) ==> if cond_holds(c0.reg, op) {
        c1.reg.pc == imm16(m0, c0.reg) && pushed(after_u16(c0.reg),
            Registers { pc: wrap16(c0.reg.pc + 2), ..c1.reg }, m1, wrap16(c0.reg.pc + 2))
    } else {
        Cpu::only_reg(c0, c1, after_u16(c0.reg)) && *m1 == *m0
    }
    &&& (op == 0xD3 || op == 0xDB || op == 0xDD || op == 0xE3 || op == 0xE4 || op == 0xEB || op == 0xEC
        || op == 0xED || op == 0xF4 || op == 0xFC || op == 0xFD) ==> c1 == c0 && *m1 == *m0
    &&& op == 0xF3 ==> c1 == (Cpu { ime: Ime::Disabled, ..c0 }) && *m1 == *m0
    &&& op == 0xFB ==> c1 == (Cpu { ime: Ime::Pending, ..c0 }) && *m1 == *m0
}

/// What executing `op` does to the registers and the bus. (HALT, STOP, DI and EI act on
/// `halted` and `ime`, which `Cpu::execute` states beside this.)
#[verifier::opaque]
pub open spec fn execute_effect(c0: Cpu, c1: Cpu, m0: &Mmu, m1: &Mmu, op: u8) -> bool {
    &&& op == 0xCB ==> cb_effect(Cpu { reg: after_u8(c0.reg), ..c0 }, c1, m0, m1, imm8(m0, c0.reg))
    &&& 0x40 <= op < 0x80 && op != 0x76 ==> stored(c0, c1, m0, m1, (op / 8) % 8,
        operand_spec(c0.reg, m0, op % 8), c0.reg)
    &&& 0x80 <= op < 0xC0 ==> Cpu::only_reg(c0, c1, alu_regs(c0.reg, (op / 8) % 8,
        operand_spec(c0.reg, m0, op % 8))) && *m1 == *m0
    &&& op == 0x76 ==> c1 == (Cpu { halted: true, ..c0 }) && *m1 == *m0
    &&& low_effect(c0, c1, m0, m1, op)
    &&& high_effect(c0, c1, m0, m1, op)
}

/// A fetch-and-execute step from `c0`, `m0` to `c1`, `m1`, taking `r` T-cycles: the
/// opcode at PC is executed (`execute_effect`) at its cost (`instr_cycles`).
pub open spec fn step_post(c0: Cpu, m0: &Mmu, c1: Cpu, m1: &Mmu, r: u8) -> bool {
    &&& Mmu::stable(m0, m1)
    &&& m1.wf()
    &&& r == instr_cycles(m0.read_spec(c0.reg.pc), m0.read_spec(wrap16(c0.reg.pc + 1)), c0.reg)
    &&& 4 <= r <= 24
    &&& c1.cycles == (c0.cycles + r) % 0x1_0000_0000_0000_0000
    &&& c1.ops == (c0.ops + 1) % 0x1_0000_0000_0000_0000
    &&& execute_effect(
        Cpu { reg: after_u8(c0.reg), ..c0 },
        Cpu { cycles: c0.cycles, ops: c0.ops, ..c1 },
        m0,
        m1,
        m0.read_spec(c0.reg.pc),
    )
}

/// Interrupt service from `c0`, `m0` (IME enabled, an enabled interrupt requested):
/// PC is pushed, PC goes to the vector of the highest-priority request, IME is
/// disabled, 20 T-cycles pass, and (with the stack in RAM) that request's IF bit is
/// cleared while the cartridge is untouched.
pub open spec fn serviced(c0: Cpu, m0: &Mmu, c1: Cpu, m1: &Mmu) -> bool {
    let bits = m0.ie_flag & m0.io.if_flag & 0x1F;
    &&& m1.wf()
    &&& Mmu::stable(m0, m1)
    &&& c1 == (Cpu {
        reg: Registers { pc: vector_of(bits).0, sp: wrap16(c0.reg.sp - 2), ..c0.reg },
        ime: Ime::Disabled,
        cycles: ((c0.cycles + 20) % 0x1_0000_0000_0000_0000) as u64,
        ..c0
    })
    &&& pushed(c0.reg, Registers { pc: c0.reg.pc, ..c1.reg }, m1, c0.reg.pc)
    &&& stack_in_ram(c0.reg.sp) ==> m1.io.if_flag == m0.io.if_flag & !vector_of(bits).1 && m1.cart == m0.cart
}

/// One CPU tick from `c0`, `m0` to `c1`, `m1`, taking `r` T-cycles (see `Cpu::tick`).
pub open spec fn tick_post(c0: Cpu, m0: &Mmu, c1: Cpu, m1: &Mmu, r: u8) -> bool {
    &&& Mmu::stable(m0, m1)
    &&& m1.wf()
    &&& 4 <= r <= 44
    &&& c1.cycles == (c0.cycles + r) % 0x1_0000_0000_0000_0000
    &&& c0.halted ==> r == 8 && *m1 == *m0 && c1 == (Cpu {
        halted: m0.ie_flag & m0.io.if_flag == 0,
        ime: promoted(c0.ime),
        cycles: c1.cycles,
        ..c0
    })
    &&& !c0.halted && interrupt_due(c0, m0) ==> 24 <= r
    &&& !c0.halted && !interrupt_due(c0, m0) ==> step_post(Cpu { ime: promoted(c0.ime), ..c0 }, m0, c1, m1, r)
    &&& !c0.halted && interrupt_due(c0, m0) ==> exists|cm: Cpu, mm: Mmu|
        #[trigger] serviced(Cpu { ime: promoted(c0.ime), ..c0 }, m0, cm, &mm) && step_post(cm, &mm, c1, m1, (r - 20) as u8)
    &&& ({
        let v = vector_of(m0.ie_flag & m0.io.if_flag & 0x1F).0;
        !c0.halted && interrupt_due(c0, m0) && stack_in_ram(c0.reg.sp) ==> r
            == 20 + instr_cycles(m0.read_spec(v), m0.read_spec((v + 1) as u16), c0.reg)
    })
}

impl Cpu {
    fn penalty(op: u8) -> (r: u8)
        ensures
            r == branch_penalty(op),
    {
        if op < 0x40 || op % 8 == 2 {
            4
        } else {
            12
        }
    }

    /// Executes opcode `op` (already fetched; PC points past it) and returns its T-cycles:
    /// the base cost, plus the penalty of a conditional branch that was taken.
    #[verifier::rlimit(40)]
    pub fn execute(&mut self, mmu: &mut Mmu, op: u8) -> (r: u8)
        requires
            old(mmu).wf(),
        ensures
            Mmu::stable(old(mmu), final(mmu)),
            final(mmu).wf(),
            r == instr_cycles(op, old(mmu).read_spec(old(self).reg.pc), old(self).reg),
            4 <= r <= 24,
            final(self).halted == (old(self).halted || op == 0x76 || op == 0x10),
            final(self).ime == ime_after(op, old(self).ime),
            final(self).cycles == old(self).cycles,
            final(self).ops == old(self).ops,
            execute_effect(*old(self), *final(self), old(mmu), final(mmu), op),
    {
        proof {
            reveal(execute_effect);
            reveal(low_effect);
            reveal(high_effect);
        }
        let base: u8 = Cpu::base_cycles(op);
        if op == 0xCB {
            let cb: u8 = self.consume_u8(mmu);
            self.execute_cb(mmu, cb);
            return Cpu::cb_op_cycles(cb);
        }
        if 0x40 <= op && op < 0x80 {
            if op == 0x76 {
                self.halt();
            } else {
                self.ld_r8_r8(mmu, (op / 8) % 8, op % 8);
            }
            return base;
        }
        if 0x80 <= op && op < 0xC0 {
            self.alu_r8(mmu, (op / 8) % 8, op % 8);
            return base;
        }
        let taken: bool = if op < 0x40 {
            self.execute_low(mmu, op)
        } else {
            self.execute_high(mmu, op)
        };
        if taken {
            base + Cpu::penalty(op)
        } else {
            base
        }
    }

    /// Executes an opcode below 0x40; returns whether a conditional branch was taken.
    #[verifier::rlimit(40)]
    fn execute_low(&mut self, mmu: &mut Mmu, op: u8) -> (taken: bool)
        requires
            old(mmu).wf(),
            op < 0x40,
        ensures
            Mmu::stable(old(mmu), final(mmu)),
            final(mmu).wf(),
            taken == (is_cond_branch(op) && cond_holds(old(self).reg, op)),
            final(self).halted == (old(self).halted || op == 0x10),
            final(self).ime == ime_after(op, old(self).ime),
            final(self).cycles == old(self).cycles,
            final(self).ops == old(self).ops,
            low_effect(*old(self), *final(self), old(mmu), final(mmu), op),
    {
        proof {
            reveal(low_effect);
        }
        match op {
            0x01 | 0x11 | 0x21 | 0x31 => {
                self.ld_r16_u16(mmu, op / 16);
                false
            },
            0x02 => {
                self.ld_ir16_a(mmu, Register16::BC, PostOp::Nothing);
                false
            },
            0x12 => {
                self.ld_ir16_a(mmu, Register16::DE, PostOp::Nothing);
                false
            },
            0x22 => {
                self.ld_ir16_a(mmu, Register16::HL, PostOp::Inc);
                false
            },
            0x32 => {
                self.ld_ir16_a(mmu, Register16::HL, PostOp::Dec);
                false
            },
            0x0A => {
                self.ld_a_ir16(mmu, Register16::BC, PostOp::Nothing);
                false
            },
            0x1A => {
                self.ld_a_ir16(mmu, Register16::DE, PostOp::Nothing);
                false
            },
            0x2A => {
                self.ld_a_ir16(mmu, Register16::HL, PostOp::Inc);
                false
            },
            0x3A => {
                self.ld_a_ir16(mmu, Register16::HL, PostOp::Dec);
                false
            },
            0x03 | 0x13 | 0x23 | 0x33 => {
                self.inc_r16(op / 16);
                false
            },
            0x0B | 0x1B | 0x2B | 0x3B => {
                self.dec_r16(op / 16);
                false
            },
            0x04 | 0x0C | 0x14 | 0x1C | 0x24 | 0x2C | 0x34 | 0x3C => {
                self.inc_r8(mmu, op / 8);
                false
            },
            0x05 | 0x0D | 0x15 | 0x1D | 0x25 | 0x2D | 0x35 | 0x3D => {
                self.dec_r8(mmu, op / 8);
                false
            },
            0x06 | 0x0E | 0x16 | 0x1E | 0x26 | 0x2E | 0x36 | 0x3E => {
                self.ld_r8_u8(mmu, op / 8);
                false
            },
            0x07 | 0x0F | 0x17 | 0x1F => {
                self.rotate_a(op / 8);
                false
            },
            0x08 => {
                self.ld_iu16_sp(mmu);
                false
            },
            0x09 | 0x19 | 0x29 | 0x39 => {
                self.add_hl_r16(op / 16);
                false
            },
            0x10 => {
                self.halt();
                false
            },
            0x18 => {
                self.jr_i8(mmu);
                false
            },
            0x20 | 0x28 | 0x30 | 0x38 => self.jr_f_i8(mmu, op),
            0x27 => {
                self.daa();
                false
            },
            0x2F => {
                self.cpl();
                false
            },
            0x37 => {
                self.scf();
                false
            },
            0x3F => {
                self.ccf();
                false
            },
            // NOP, and the unused opcodes, which do nothing.
            _ => false,
        }
    }

    /// Executes an opcode from 0xC0 (other than 0xCB); returns whether a conditional
    /// branch was taken.
    #[verifier::rlimit(40)]
    fn execute_high(&mut self, mmu: &mut Mmu, op: u8) -> (taken: bool)
        requires
            old(mmu).wf(),
            op >= 0xC0 && op != 0xCB,
        ensures
            Mmu::stable(old(mmu), final(mmu)),
            final(mmu).wf(),
            taken == (is_cond_branch(op) && cond_holds(old(self).reg, op)),
            final(self).halted == (old(self).halted || op == 0x10),
            final(self).ime == ime_after(op, old(self).ime),
            final(self).cycles == old(self).cycles,
            final(self).ops == old(self).ops,
            high_effect(*old(self), *final(self), old(mmu), final(mmu), op),
    {
        proof {
            reveal(high_effect);
        }
        match op {
            0xC0 | 0xC8 | 0xD0 | 0xD8 => self.ret_f(mmu, op),
            0xC9 => {
                self.ret(mmu);
                false
            },
            0xD9 => {
                self.reti(mmu);
                false
            },
            0xC1 | 0xD1 | 0xE1 | 0xF1 => {
                let rr: Register16 = Cpu::rr_stack_name((op / 16) % 4);
                self.pop_r16(mmu, rr);
                false
            },
            0xC5 | 0xD5 | 0xE5 | 0xF5 => {
                let rr: Register16 = Cpu::rr_stack_name((op / 16) % 4);
                self.push_r16(mmu, rr);
                false
            },
            0xC2 | 0xCA | 0xD2 | 0xDA => self.jp_f_u16(mmu, op),
            0xC3 => {
                self.jp_u16(mmu);
                false
            },
            0xE9 => {
                self.jp_hl();
                false
            },
            0xC4 | 0xCC | 0xD4 | 0xDC => self.call_f_u16(mmu, op),
            0xCD => {
                self.call_u16(mmu);
                false
            },
            0xC6 | 0xCE | 0xD6 | 0xDE | 0xE6 | 0xEE | 0xF6 | 0xFE => {
                self.alu_u8(mmu, (op / 8) % 8);
                false
            },
            0xC7 | 0xCF | 0xD7 | 0xDF | 0xE7 | 0xEF | 0xF7 | 0xFF => {
                self.rst(mmu, op - 0xC7);
                false
            },
            0xE0 => {
                self.ldh_iu8_a(mmu);
                false
            },
            0xF0 => {
                self.ldh_a_iu8(mmu);
                false
            },
            0xE2 => {
                self.ld_ic_a(mmu);
                false
            },
            0xF2 => {
                self.ld_a_ic(mmu);
                false
            },
            0xE8 => {
                self.add_sp_i8(mmu);
                false
            },
            0xF8 => {
                self.ld_hl_sp_i8(mmu);
                false
            },
            0xF9 => {
                self.ld_sp_hl();
                false
            },
            0xEA => {
                self.ld_iu16_a(mmu);
                false
            },
            0xFA => {
                self.ld_a_iu16(mmu);
                false
            },
            0xF3 => {
                self.di();
                false
            },
            0xFB => {
                self.ei();
                false
            },
            // NOP, and the unused opcodes, which do nothing.
            _ => false,
        }
    }

    /// Fetches the opcode at PC and executes it; returns its T-cycles.
    pub fn step(&mut self, mmu: &mut Mmu) -> (r: u8)
        requires
            old(mmu).wf(),
        ensures
            Mmu::stable(old(mmu), final(mmu)),
            final(mmu).wf(),
            r == instr_cycles(
                old(mmu).read_spec(old(self).reg.pc),
                old(mmu).read_spec(wrap16(old(self).reg.pc + 1)),
                old(self).reg,
            ),
            4 <= r <= 24,
            final(self).cycles == (old(self).cycles + r) % 0x1_0000_0000_0000_0000,
            final(self).ops == (old(self).ops + 1) % 0x1_0000_0000_0000_0000,
            step_post(*old(self), old(mmu), *final(self), final(mmu), r),
    {
        let op: u8 = self.consume_u8(mmu);
        let r: u8 = self.execute(mmu, op);
        self.step_cycles(r);
        self.ops = self.ops.wrapping_add(1);
        r
    }

    /// The vector and IF bit of the highest-priority interrupt in `bits`.
    fn interrupt_vector(bits: u8) -> (r: (u16, u8))
        ensures
            r == vector_of(bits),
    {
        if bits & 0x01 != 0 {
            (0x40, 0x01)
        } else if bits & 0x02 != 0 {
            (0x48, 0x02)
        } else if bits & 0x04 != 0 {
            (0x50, 0x04)
        } else if bits & 0x08 != 0 {
            (0x58, 0x08)
        } else {
            (0x60, 0x10)
        }
    }

    /// Services an interrupt: pushes PC, clears its IF bit, jumps to the vector,
    /// disables interrupts, and charges 20 T-cycles.
    pub(crate) fn handle_interrupt(&mut self, mmu: &mut Mmu, vector: u16, bit: u8)
        requires
            old(mmu).wf(),
        ensures
            Mmu::stable(old(mmu), final(mmu)),
            final(mmu).wf(),
            pushed(old(self).reg, crate::registers::Registers { pc: old(self).reg.pc, ..final(self).reg }, final(mmu), old(self).reg.pc),
            final(self).reg.pc == vector,
            final(self).ime == Ime::Disabled,
            final(self).halted == old(self).halted,
            final(self).cycles == (old(self).cycles + 20) % 0x1_0000_0000_0000_0000,
            stack_in_ram(old(self).reg.sp) ==> final(mmu).io.if_flag == old(mmu).io.if_flag & !bit
                && final(mmu).cart == old(mmu).cart,
            final(self).reg == (crate::registers::Registers { pc: vector, sp: wrap16(old(self).reg.sp - 2), ..old(self).reg }),
            *final(self) == (Cpu {
                reg: final(self).reg,
                ime: Ime::Disabled,
                cycles: ((old(self).cycles + 20) % 0x1_0000_0000_0000_0000) as u64,
                ..*old(self)
            }),
    {
        let pc: u16 = self.reg.pc;
        self.stack_push_u16(mmu, pc);
        mmu.io.if_flag = mmu.io.if_flag & !bit;
        self.reg.pc = vector;
        self.ime = Ime::Disabled;
        self.step_cycles(20);
    }

    /// With IME enabled, services the highest-priority requested and enabled interrupt;
    /// returns the T-cycles spent (20, or 0 when none was serviced).
    pub(crate) fn check_interrupts(&mut self, mmu: &mut Mmu) -> (r: u8)
        requires
            old(mmu).wf(),
        ensures
            Mmu::stable(old(mmu), final(mmu)),
            final(mmu).wf(),
            final(self).cycles == (old(self).cycles + r) % 0x1_0000_0000_0000_0000,
            ({
                let bits = old(mmu).ie_flag & old(mmu).io.if_flag & 0x1F;
                if old(self).ime == Ime::Enabled && bits != 0 {
                    &&& r == 20
                    &&& serviced(*old(self), old(mmu), *final(self), final(mmu))
                    &&& final(self).reg.pc == vector_of(bits).0
                    &&& final(self).ime == Ime::Disabled
                    &&& final(self).halted == old(self).halted
                    &&& pushed(old(self).reg, crate::registers::Registers { pc: old(self).reg.pc, ..final(self).reg }, final(mmu), old(self).reg.pc)
                    &&& stack_in_ram(old(self).reg.sp) ==> final(mmu).io.if_flag == old(mmu).io.if_flag & !vector_of(bits).1
                        && final(mmu).cart == old(mmu).cart
                    &&& final(self).reg == (crate::registers::Registers { pc: vector_of(bits).0, sp: wrap16(old(self).reg.sp - 2), ..old(self).reg })
                } else {
                    r == 0 && *final(self) == *old(self) && *final(mmu) == *old(mmu)
                }
            }),
    {
        let bits: u8 = mmu.ie_flag & mmu.io.if_flag & 0x1F;
        if self.ime == Ime::Enabled && bits != 0 {
            let (vector, bit): (u16, u8) = Cpu::interrupt_vector(bits);
            self.handle_interrupt(mmu, vector, bit);
            20
        } else {
            0
        }
    }

    /// One CPU tick: promotes a pending IME, then either services an interrupt and runs
    /// one instruction, or (while halted) waits 8 T-cycles, waking when IE & IF is non-zero.
    /// Returns the T-cycles elapsed.
    pub fn tick(&mut self, mmu: &mut Mmu) -> (r: u8)
        requires
            old(mmu).wf(),
        ensures
            final(mmu).wf(),
            4 <= r <= 44,
            tick_post(*old(self), old(mmu), *final(self), final(mmu), r),
    {
        if self.ime == Ime::Pending {
            self.ime = Ime::Enabled;
        }
        if !self.halted {
            let ghost c0p = *self;
            let ghost m0 = *mmu;
            let serviced_cycles: u8 = self.check_interrupts(mmu);
            let ghost cm = *self;
            let ghost mm = *mmu;
            let spent: u8 = self.step(mmu);
            proof {
                if serviced_cycles == 20 {
                    assert(serviced(c0p, &m0, cm, &mm));
                }
            }
            serviced_cycles + spent
        } else {
            if mmu.ie_flag & mmu.io.if_flag != 0 {
                self.halted = false;
            }
            self.step_cycles(8);
            8
        }
    }

    /// 1 when the Z flag is set, else 0.
    pub fn getz(&self) -> (r: u8)
        ensures
            r == (if self.reg.fz { 1u8 } else { 0u8 }),
    {
        self.reg.getf(&Flag::Z)
    }

    pub fn gete(&self) -> (r: u8)
        ensures
            r == self.reg.e,
    {
        self.reg.get8(&Register8::E)
    }

    pub fn getpc(&self) -> (r: u16)
        ensures
            r == self.reg.pc,
    {
        self.reg.pc
    }
}

/// PUSH rr followed by POP rr' (rr' one of BC, DE, HL) loads rr' with the value rr had,
/// and leaves SP where it was, when the two stack bytes are RAM.
pub proof fn lemma_push_pop(
    r0: crate::registers::Registers,
    r1: crate::registers::Registers,
    m1: &Mmu,
    r2: crate::registers::Registers,
    rr: Register16,
    rr2: Register16,
)
    requires
        pushed(r0, r1, m1, r0.spec_get16(rr)),
        r2 == crate::cpu::popped(r1, m1, rr2),
        stack_in_ram(r0.sp),
        rr2 == Register16::BC || rr2 == Register16::DE || rr2 == Register16::HL,
    ensures
        r2.spec_get16(rr2) == r0.spec_get16(rr),
        r2.sp == r0.sp,
{
    let v = r0.spec_get16(rr);
    assert(wrap16(r1.sp + 1) == wrap16(r0.sp - 1));
    assert(r1.sp == wrap16(r0.sp - 2));
    assert(crate::cpu::top16(m1, r1.sp) == v);
}

/// POP AF leaves F's low nibble zero whatever the stack holds.
pub proof fn lemma_pop_af_low_nibble(r0: crate::registers::Registers, m: &Mmu)
    ensures
        crate::cpu::popped(r0, m, Register16::AF).spec_get8(Register8::F) % 16 == 0,
        crate::cpu::popped(r0, m, Register16::AF).spec_get16(Register16::AF) % 16 == 0,
{
}

proof fn lemma_push_effect(c0: Cpu, c1: Cpu, m0: &Mmu, m1: &Mmu, op: u8)
    requires
        execute_effect(c0, c1, m0, m1, op),
        op == 0xC5 || op == 0xD5 || op == 0xE5 || op == 0xF5,
    ensures
        pushed(c0.reg, c1.reg, m1, c0.reg.spec_get16(rr_stack_of((op / 16) % 4))),
{
    reveal(execute_effect);
    reveal(high_effect);
}

proof fn lemma_pop_effect(c0: Cpu, c1: Cpu, m0: &Mmu, m1: &Mmu, op: u8)
    requires
        execute_effect(c0, c1, m0, m1, op),
        op == 0xC1 || op == 0xD1 || op == 0xE1 || op == 0xF1,
    ensures
        c1.reg == popped(c0.reg, m0, rr_stack_of((op / 16) % 4)),
{
    reveal(execute_effect);
    reveal(high_effect);
}

/// Two ticks that execute PUSH rr and then POP rr' (rr' one of BC, DE, HL), with no
/// interrupt serviced and the two stack bytes in RAM, load rr' with the value rr had
/// and leave SP where it was.
pub proof fn lemma_push_pop_ticks(
    c0: Cpu,
    m0: Mmu,
    c1: Cpu,
    m1: Mmu,
    c2: Cpu,
    m2: Mmu,
    r1: u8,
    r2: u8,
)
    requires
        tick_post(c0, &m0, c1, &m1, r1),
        tick_post(c1, &m1, c2, &m2, r2),
        !c0.halted && !interrupt_due(c0, &m0),
        !c1.halted && !interrupt_due(c1, &m1),
        ({
            let op = m0.read_spec(c0.reg.pc);
            op == 0xC5 || op == 0xD5 || op == 0xE5 || op == 0xF5
        }),
        ({
            let op = m1.read_spec(c1.reg.pc);
            op == 0xC1 || op == 0xD1 || op == 0xE1
        }),
        stack_in_ram(c0.reg.sp),
    ensures
        c2.reg.spec_get16(rr_stack_of((m1.read_spec(c1.reg.pc) / 16) % 4)) == c0.reg.spec_get16(
            rr_stack_of((m0.read_spec(c0.reg.pc) / 16) % 4),
        ),
        c2.reg.sp == c0.reg.sp,
{
    let op1 = m0.read_spec(c0.reg.pc);
    let op2 = m1.read_spec(c1.reg.pc);
    let rr = rr_stack_of((op1 / 16) % 4);
    let rr2 = rr_stack_of((op2 / 16) % 4);
    let r0x = Registers { pc: wrap16(c1.reg.pc + 1), ..after_u8(c0.reg) };
    let r1x = after_u8(c1.reg);
    lemma_push_effect(
        Cpu { reg: after_u8(c0.reg), ime: promoted(c0.ime), ..c0 },
        Cpu { cycles: c0.cycles, ops: c0.ops, ..c1 },
        &m0,
        &m1,
        op1,
    );
    lemma_pop_effect(
        Cpu { reg: after_u8(c1.reg), ime: promoted(c1.ime), ..c1 },
        Cpu { cycles: c1.cycles, ops: c1.ops, ..c2 },
        &m1,
        &m2,
        op2,
    );
    assert(pushed(after_u8(c0.reg), c1.reg, &m1, after_u8(c0.reg).spec_get16(rr)));
    assert(r0x.spec_get16(rr) == c0.reg.spec_get16(rr));
    assert(pushed(r0x, r1x, &m1, r0x.spec_get16(rr)));
    assert(c2.reg == popped(r1x, &m1, rr2));
    lemma_push_pop(r0x, r1x, &m1, c2.reg, rr, rr2);
}

} // verus!
