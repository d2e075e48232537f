use vstd::prelude::*;
use crate::alu::AluOut;
use crate::alu::Alu16Out;
use crate::alu::add8_spec;
use crate::alu::sub8_spec;
use crate::alu::logic_spec;
use crate::alu::inc8_spec;
use crate::alu::dec8_spec;
use crate::alu::rlc8_spec;
use crate::alu::rrc8_spec;
use crate::alu::rl8_spec;
use crate::alu::rr8_spec;
use crate::alu::sla8_spec;
use crate::alu::sra8_spec;
use crate::alu::swap8_spec;
use crate::alu::srl8_spec;
use crate::alu::bit8_spec;
use crate::alu::daa_spec;
use crate::alu::add16_spec;
use crate::alu::add_sp_spec;
use crate::alu::signed8;
use crate::alu::add8;
use crate::alu::sub8;
use crate::alu::and8;
use crate::alu::or8;
use crate::alu::xor8;
use crate::alu::inc8;
use crate::alu::dec8;
use crate::alu::rlc8;
use crate::alu::rrc8;
use crate::alu::rl8;
use crate::alu::rr8;
use crate::alu::sla8;
use crate::alu::sra8;
use crate::alu::srl8;
use crate::alu::swap8;
use crate::alu::bit8;
use crate::alu::setb8;
use crate::alu::resetb8;
use crate::alu::daa8;
use crate::alu::add16;
use crate::alu::add_sp8;
use crate::cpu::Cpu;
use crate::cpu::Ime;
use crate::cpu::with_out;
use crate::cpu::wrap16;
use crate::cpu::pushed;
use crate::cpu::popped;
use crate::cpu::operand_spec;
use crate::cpu::reg_of;
use crate::cpu::rr_of;
use crate::cpu::rr_stack_of;
use crate::cpu::cond_holds;
use crate::mmu::Mmu;
use crate::registers::Flag;
use crate::registers::Register16;
use crate::registers::Registers;

verus! {

/// What LD (HL+) / LD (HL-) do to HL after the access.
#[derive(Clone, Copy, Debug, PartialEq, Eq, Structural)]
pub enum PostOp {
    Inc,
    Dec,
    Nothing,
}

/// ADD, ADC, SUB, SBC, AND, XOR, OR, CP (by `kind`) of `a` and `v` with carry in `c`.
pub open spec fn alu_spec(kind: u8, a: u8, v: u8, c: bool) -> AluOut {
    if kind == 0 {
        add8_spec(a, v, false)
    } else if kind == 1 {
        add8_spec(a, v, c)
    } else if kind == 2 {
        sub8_spec(a, v, false)
    } else if kind == 3 {
        sub8_spec(a, v, c)
    } else if kind == 4 {
        logic_spec(a & v, true)
    } else if kind == 5 {
        logic_spec(a ^ v, false)
    } else if kind == 6 {
        logic_spec(a | v, false)
    } else {
        sub8_spec(a, v, false)
    }
}

/// Registers after ALU operation `kind` on A and `v` (CP leaves A as it was).
pub open spec fn alu_regs(r: Registers, kind: u8, v: u8) -> Registers {
    let o = alu_spec(kind, r.a, v, r.fc);
    if kind == 7 {
        with_out(r, o)
    } else {
        Registers { a: o.value, ..with_out(r, o) }
    }
}

/// RLC, RRC, RL, RR, SLA, SRA, SWAP, SRL (by `kind`) of `v` with carry in `c`.
pub open spec fn rot_spec(kind: u8, v: u8, c: bool) -> AluOut {
    if kind == 0 {
        rlc8_spec(v)
    } else if kind == 1 {
        rrc8_spec(v)
    } else if kind == 2 {
        rl8_spec(v, c)
    } else if kind == 3 {
        rr8_spec(v, c)
    } else if kind == 4 {
        sla8_spec(v)
    } else if kind == 5 {
        sra8_spec(v)
    } else if kind == 6 {
        swap8_spec(v)
    } else {
        srl8_spec(v)
    }
}

/// The operand numbered `idx` now holds `v`: a register, or the byte at HL.
pub open spec fn stored(c0: Cpu, c1: Cpu, m0: &Mmu, m1: &Mmu, idx: u8, v: u8, r: Registers) -> bool {
    &&& m1.wf()
    &&& idx == 6 ==> Cpu::only_reg(c0, c1, r) && Mmu::write_post(m0, m1, r.spec_get16(Register16::HL), v)
    &&& idx != 6 ==> Cpu::only_reg(c0, c1, r.with8(reg_of(idx), v)) && *m1 == *m0
}

/// What CB-prefixed opcode `cb` does.
pub open spec fn cb_effect(c0: Cpu, c1: Cpu, m0: &Mmu, m1: &Mmu, cb: u8) -> bool {
    let idx = cb % 8;
    let k = (cb / 8) % 8;
    let v = operand_spec(c0.reg, m0, idx);
    let r = c0.reg;
    if cb < 0x40 {
        let o = rot_spec(k, v, r.fc);
        stored(c0, c1, m0, m1, idx, o.value, with_out(r, o))
    } else if cb < 0x80 {
        Cpu::only_reg(c0, c1, with_out(r, bit8_spec(k, v, r.fc))) && *m1 == *m0
    } else if cb < 0xC0 {
        stored(c0, c1, m0, m1, idx, v & !(1u8 << k), r)
    } else {
        stored(c0, c1, m0, m1, idx, v | (1u8 << k), r)
    }
}

pub open spec fn post_hl(r: Registers, post: PostOp) -> Registers {
    let hl = r.spec_get16(Register16::HL);
    match post {
        PostOp::Inc => r.with16(Register16::HL, wrap16(hl + 1)),
        PostOp::Dec => r.with16(Register16::HL, wrap16(hl - 1)),
        PostOp::Nothing => r,
    }
}

pub open spec fn after_u8(r: Registers) -> Registers {
    Registers { pc: wrap16(r.pc + 1), ..r }
}

pub open spec fn after_u16(r: Registers) -> Registers {
    Registers { pc: wrap16(r.pc + 2), ..r }
}

pub open spec fn imm8(m: &Mmu, r: Registers) -> u8 {
    m.read_spec(r.pc)
}

pub open spec fn imm16(m: &Mmu, r: Registers) -> u16 {
    (m.read_spec(r.pc) as int + 256 * m.read_spec(wrap16(r.pc + 1)) as int) as u16
}

impl Cpu {
    pub(crate) fn rr_name(i: u8) -> (r: Register16)
        ensures
            r == rr_of(i),
    {
        if i == 0 {
            Register16::BC
        } else if i == 1 {
            Register16::DE
        } else if i == 2 {
            Register16::HL
        } else {
            Register16::SP
        }
    }

    pub(crate) fn rr_stack_name(i: u8) -> (r: Register16)
        ensures
            r == rr_stack_of(i),
    {
        if i == 0 {
            Register16::BC
        } else if i == 1 {
            Register16::DE
        } else if i == 2 {
            Register16::HL
        } else {
            Register16::AF
        }
    }

    fn apply_out(&mut self, o: AluOut)
        ensures
            Cpu::only_reg(*old(self), *final(self), with_out(old(self).reg, o)),
    {
        self.reg.set_flags(o.z, o.n, o.h, o.c);
    }

    /// ALU operation `kind` on A and `v`.
    pub(crate) fn alu_a(&mut self, kind: u8, v: u8)
        ensures
            Cpu::only_reg(*old(self), *final(self), alu_regs(old(self).reg, kind, v)),
    {
        let a: u8 = self.reg.a;
        let c: bool = self.reg.fc;
        let o: AluOut = if kind == 0 {
            add8(a, v, false)
        } else if kind == 1 {
            add8(a, v, c)
        } else if kind == 2 {
            sub8(a, v, false)
        } else if kind == 3 {
            sub8(a, v, c)
        } else if kind == 4 {
            and8(a, v)
        } else if kind == 5 {
            xor8(a, v)
        } else if kind == 6 {
            or8(a, v)
        } else {
            sub8(a, v, false)
        };
        self.apply_out(o);
        if kind != 7 {
            self.reg.a = o.value;
        }
    }

    /// ALU operation on A and the operand numbered `idx`.
    pub(crate) fn alu_r8(&mut self, mmu: &Mmu, kind: u8, idx: u8)
        requires
            mmu.wf(),
        ensures
            Cpu::only_reg(*old(self), *final(self), alu_regs(old(self).reg, kind, operand_spec(old(self).reg, mmu, idx))),
    {
        let v: u8 = self.load_operand(mmu, idx);
        self.alu_a(kind, v);
    }

    /// ALU operation on A and an immediate byte.
    pub(crate) fn alu_u8(&mut self, mmu: &Mmu, kind: u8)
        requires
            mmu.wf(),
        ensures
            Cpu::only_reg(*old(self), *final(self), alu_regs(after_u8(old(self).reg), kind, imm8(mmu, old(self).reg))),
    {
        let v: u8 = self.consume_u8(mmu);
        self.alu_a(kind, v);
    }

    /// LD r,r': copies operand `src` into operand `dst`.
    pub(crate) fn ld_r8_r8(&mut self, mmu: &mut Mmu, dst: u8, src: u8)
        requires
            old(mmu).wf(),
        ensures
            Mmu::stable(old(mmu), final(mmu)),
            stored(*old(self), *final(self), old(mmu), final(mmu), dst,
                operand_spec(old(self).reg, old(mmu), src), old(self).reg),
    {
        let v: u8 = self.load_operand(mmu, src);
        self.store_operand(mmu, dst, v);
    }

    /// LD r,u8.
    pub(crate) fn ld_r8_u8(&mut self, mmu: &mut Mmu, dst: u8)
        requires
            old(mmu).wf(),
        ensures
            Mmu::stable(old(mmu), final(mmu)),
            stored(*old(self), *final(self), old(mmu), final(mmu), dst,
                imm8(old(mmu), old(self).reg), after_u8(old(self).reg)),
    {
        let v: u8 = self.consume_u8(mmu);
        self.store_operand(mmu, dst, v);
    }

    /// INC r / INC (HL): carry kept.
    pub(crate) fn inc_r8(&mut self, mmu: &mut Mmu, idx: u8)
        requires
            old(mmu).wf(),
        ensures
            Mmu::stable(old(mmu), final(mmu)),
            ({
                let o = inc8_spec(operand_spec(old(self).reg, old(mmu), idx), old(self).reg.fc);
                stored(*old(self), *final(self), old(mmu), final(mmu), idx, o.value, with_out(old(self).reg, o))
            }),
    {
        let v: u8 = self.load_operand(mmu, idx);
        let o: AluOut = inc8(v, self.reg.fc);
        self.apply_out(o);
        self.store_operand(mmu, idx, o.value);
    }

    /// DEC r / DEC (HL): carry kept.
    pub(crate) fn dec_r8(&mut self, mmu: &mut Mmu, idx: u8)
        requires
            old(mmu).wf(),
        ensures
            Mmu::stable(old(mmu), final(mmu)),
            ({
                let o = dec8_spec(operand_spec(old(self).reg, old(mmu), idx), old(self).reg.fc);
                stored(*old(self), *final(self), old(mmu), final(mmu), idx, o.value, with_out(old(self).reg, o))
            }),
    {
        let v: u8 = self.load_operand(mmu, idx);
        let o: AluOut = dec8(v, self.reg.fc);
        self.apply_out(o);
        self.store_operand(mmu, idx, o.value);
    }

    /// A CB-prefixed operation: rotate/shift, BIT, RES or SET on the operand numbered `cb % 8`.
    pub(crate) fn execute_cb(&mut self, mmu: &mut Mmu, cb: u8)
        requires
            old(mmu).wf(),
        ensures
            Mmu::stable(old(mmu), final(mmu)),
            cb_effect(*old(self), *final(self), old(mmu), final(mmu), cb),
    {
        let idx: u8 = cb % 8;
        let k: u8 = (cb / 8) % 8;
        let v: u8 = self.load_operand(mmu, idx);
        if cb < 0x40 {
            let c: bool = self.reg.fc;
            let o: AluOut = if k == 0 {
                rlc8(v)
            } else if k == 1 {
                rrc8(v)
            } else if k == 2 {
                rl8(v, c)
            } else if k == 3 {
                rr8(v, c)
            } else if k == 4 {
                sla8(v)
            } else if k == 5 {
                sra8(v)
            } else if k == 6 {
                swap8(v)
            } else {
                srl8(v)
            };
            self.apply_out(o);
            self.store_operand(mmu, idx, o.value);
        } else if cb < 0x80 {
            let o: AluOut = bit8(k, v, self.reg.fc);
            self.apply_out(o);
        } else if cb < 0xC0 {
            let res: u8 = resetb8(k, v);
            self.store_operand(mmu, idx, res);
        } else {
            let res: u8 = setb8(k, v);
            self.store_operand(mmu, idx, res);
        }
    }

    /// RLCA, RRCA, RLA, RRA (by `kind`): as the CB forms on A, but Z is always cleared.
    pub(crate) fn rotate_a(&mut self, kind: u8)
        ensures
            ({
                let o = rot_spec(kind, old(self).reg.a, old(self).reg.fc);
                Cpu::only_reg(*old(self), *final(self), Registers { a: o.value, ..old(self).reg.with_flags(false, false, false, o.c) })
            }),
    {
        let v: u8 = self.reg.a;
        let c: bool = self.reg.fc;
        let o: AluOut = if kind == 0 {
            rlc8(v)
        } else if kind == 1 {
            rrc8(v)
        } else if kind == 2 {
            rl8(v, c)
        } else if kind == 3 {
            rr8(v, c)
        } else if kind == 4 {
            sla8(v)
        } else if kind == 5 {
            sra8(v)
        } else if kind == 6 {
            swap8(v)
        } else {
            srl8(v)
        };
        self.reg.set_flags(false, false, false, o.c);
        self.reg.a = o.value;
    }

    pub(crate) fn daa(&mut self)
        ensures
            ({
                let r = old(self).reg;
                let o = daa_spec(r.a, r.fn_, r.fh, r.fc);
                Cpu::only_reg(*old(self), *final(self), Registers { a: o.value, ..with_out(r, o) })
            }),
    {
        let o: AluOut = daa8(self.reg.a, self.reg.fn_, self.reg.fh, self.reg.fc);
        self.apply_out(o);
        self.reg.a = o.value;
    }

    /// CPL: A = !A; N and H set.
    pub(crate) fn cpl(&mut self)
        ensures
            Cpu::only_reg(*old(self), *final(self), Registers { a: !old(self).reg.a, fn_: true, fh: true, ..old(self).reg }),
    {
        self.reg.a = !self.reg.a;
        self.reg.setf(&Flag::N);
        self.reg.setf(&Flag::H);
    }

    /// SCF: carry set; N and H cleared.
    pub(crate) fn scf(&mut self)
        ensures
            Cpu::only_reg(*old(self), *final(self), Registers { fc: true, fn_: false, fh: false, ..old(self).reg }),
    {
        self.reg.unsetf(&Flag::N);
        self.reg.unsetf(&Flag::H);
        self.reg.setf(&Flag::C);
    }

    /// CCF: carry flipped; N and H cleared.
    pub(crate) fn ccf(&mut self)
        ensures
            Cpu::only_reg(*old(self), *final(self), Registers { fc: !old(self).reg.fc, fn_: false, fh: false, ..old(self).reg }),
    {
        self.reg.unsetf(&Flag::N);
        self.reg.unsetf(&Flag::H);
        if self.reg.getf(&Flag::C) == 0 {
            self.reg.setf(&Flag::C);
        } else {
            self.reg.unsetf(&Flag::C);
        }
    }

    pub(crate) fn ld_r16_u16(&mut self, mmu: &Mmu, i: u8)
        requires
            mmu.wf(),
        ensures
            Cpu::only_reg(*old(self), *final(self), after_u16(old(self).reg).with16(rr_of(i), imm16(mmu, old(self).reg))),
    {
        let v: u16 = self.consume_u16(mmu);
        let name: Register16 = Cpu::rr_name(i);
        self.reg.set16(&name, v);
    }

    pub(crate) fn inc_r16(&mut self, i: u8)
        ensures
            Cpu::only_reg(*old(self), *final(self), old(self).reg.with16(rr_of(i), wrap16(old(self).reg.spec_get16(rr_of(i)) + 1))),
    {
        let name: Register16 = Cpu::rr_name(i);
        let v: u16 = self.reg.get16(&name);
        self.reg.set16(&name, v.wrapping_add(1));
    }

    pub(crate) fn dec_r16(&mut self, i: u8)
        ensures
            Cpu::only_reg(*old(self), *final(self), old(self).reg.with16(rr_of(i), wrap16(old(self).reg.spec_get16(rr_of(i)) - 1))),
    {
        let name: Register16 = Cpu::rr_name(i);
        let v: u16 = self.reg.get16(&name);
        self.reg.set16(&name, v.wrapping_sub(1));
    }

    /// ADD HL,rr: Z kept.
    pub(crate) fn add_hl_r16(&mut self, i: u8)
        ensures
            ({
                let r = old(self).reg;
                let o = add16_spec(r.spec_get16(Register16::HL), r.spec_get16(rr_of(i)), r.fz);
                Cpu::only_reg(*old(self), *final(self), r.with_flags(o.z, o.n, o.h, o.c).with16(Register16::HL, o.value))
            }),
    {
        let name: Register16 = Cpu::rr_name(i);
        let hl: u16 = self.reg.get16(&Register16::HL);
        let v: u16 = self.reg.get16(&name);
        let o: Alu16Out = add16(hl, v, self.reg.fz);
        self.reg.set_flags(o.z, o.n, o.h, o.c);
        self.reg.set16(&Register16::HL, o.value);
    }

    fn apply_post(&mut self, post: PostOp)
        ensures
            Cpu::only_reg(*old(self), *final(self), post_hl(old(self).reg, post)),
    {
        let hl: u16 = self.reg.get16(&Register16::HL);
        match post {
            PostOp::Inc => self.reg.set16(&Register16::HL, hl.wrapping_add(1)),
            PostOp::Dec => self.reg.set16(&Register16::HL, hl.wrapping_sub(1)),
            PostOp::Nothing => {},
        }
    }

    /// LD (rr),A, then HL adjusted by `post`.
    pub(crate) fn ld_ir16_a(&mut self, mmu: &mut Mmu, rr: Register16, post: PostOp)
        requires
            old(mmu).wf(),
        ensures
            Mmu::stable(old(mmu), final(mmu)),
            final(mmu).wf(),
            Mmu::write_post(old(mmu), final(mmu), old(self).reg.spec_get16(rr), old(self).reg.a),
            Cpu::only_reg(*old(self), *final(self), post_hl(old(self).reg, post)),
    {
        let add: u16 = self.reg.get16(&rr);
        mmu.write(add, self.reg.a);
        self.apply_post(post);
    }

    /// LD A,(rr), then HL adjusted by `post`.
    pub(crate) fn ld_a_ir16(&mut self, mmu: &Mmu, rr: Register16, post: PostOp)
        requires
            mmu.wf(),
        ensures
            Cpu::only_reg(*old(self), *final(self), post_hl(Registers { a: mmu.read_spec(old(self).reg.spec_get16(rr)), ..old(self).reg }, post)),
    {
        let add: u16 = self.reg.get16(&rr);
        self.reg.a = mmu.read(add);
        self.apply_post(post);
    }

    /// LD (u16),SP: SP stored little-endian.
    pub(crate) fn ld_iu16_sp(&mut self, mmu: &mut Mmu)
        requires
            old(mmu).wf(),
        ensures
            Mmu::stable(old(mmu), final(mmu)),
            final(mmu).wf(),
            Cpu::only_reg(*old(self), *final(self), after_u16(old(self).reg)),
            ({
                let a = imm16(old(mmu), old(self).reg);
                let sp = old(self).reg.sp;
                exists|mid: Mmu|
                    mid.wf() && Mmu::write_post(old(mmu), &mid, a, (sp % 256) as u8) && Mmu::write_post(
                        &mid,
                        final(mmu),
                        wrap16(a + 1),
                        (sp / 256) as u8,
                    )
            }),
    {
        let value: u16 = self.reg.sp;
        let add: u16 = self.consume_u16(mmu);
        mmu.write(add, (value % 256) as u8);
        let ghost mid = *mmu;
        mmu.write(add.wrapping_add(1), (value / 256) as u8);
        assert(mid.wf() && Mmu::write_post(old(mmu), &mid, add, (value % 256) as u8));
    }

    /// ADD SP,i8.
    pub(crate) fn add_sp_i8(&mut self, mmu: &Mmu)
        requires
            mmu.wf(),
        ensures
            ({
                let r = after_u8(old(self).reg);
                let o = add_sp_spec(r.sp, imm8(mmu, old(self).reg));
                Cpu::only_reg(*old(self), *final(self), Registers { sp: o.value, ..r.with_flags(o.z, o.n, o.h, o.c) })
            }),
    {
        let e: u8 = self.consume_u8(mmu);
        let o: Alu16Out = add_sp8(self.reg.sp, e);
        self.reg.set_flags(o.z, o.n, o.h, o.c);
        self.reg.sp = o.value;
    }

    /// LD HL,SP+i8.
    pub(crate) fn ld_hl_sp_i8(&mut self, mmu: &Mmu)
        requires
            mmu.wf(),
        ensures
            ({
                let r = after_u8(old(self).reg);
                let o = add_sp_spec(r.sp, imm8(mmu, old(self).reg));
                Cpu::only_reg(*old(self), *final(self), r.with_flags(o.z, o.n, o.h, o.c).with16(Register16::HL, o.value))
            }),
    {
        let e: u8 = self.consume_u8(mmu);
        let o: Alu16Out = add_sp8(self.reg.sp, e);
        self.reg.set_flags(o.z, o.n, o.h, o.c);
        self.reg.set16(&Register16::HL, o.value);
    }

    pub(crate) fn ld_sp_hl(&mut self)
        ensures
            Cpu::only_reg(*old(self), *final(self), Registers { sp: old(self).reg.spec_get16(Register16::HL), ..old(self).reg }),
    {
        self.reg.sp = self.reg.get16(&Register16::HL);
    }

    /// PUSH rr.
    pub fn push_r16(&mut self, mmu: &mut Mmu, rr: Register16)
        requires
            old(mmu).wf(),
        ensures
            Mmu::stable(old(mmu), final(mmu)),
            Cpu::only_reg(*old(self), *final(self), final(self).reg),
            pushed(old(self).reg, final(self).reg, final(mmu), old(self).reg.spec_get16(rr)),
    {
        let value: u16 = self.reg.get16(&rr);
        self.stack_push_u16(mmu, value);
    }

    /// POP rr (POP AF drops F's low nibble).
    pub fn pop_r16(&mut self, mmu: &Mmu, rr: Register16)
        requires
            mmu.wf(),
        ensures
            Cpu::only_reg(*old(self), *final(self), popped(old(self).reg, mmu, rr)),
    {
        let value: u16 = self.stack_pop_u16(mmu);
        self.reg.set16(&rr, value);
    }

    /// LD (0xFF00+u8),A.
    pub(crate) fn ldh_iu8_a(&mut self, mmu: &mut Mmu)
        requires
            old(mmu).wf(),
        ensures
            Mmu::stable(old(mmu), final(mmu)),
            final(mmu).wf(),
            Mmu::write_post(old(mmu), final(mmu), (0xFF00 + imm8(old(mmu), old(self).reg)) as u16, old(self).reg.a),
            Cpu::only_reg(*old(self), *final(self), after_u8(old(self).reg)),
    {
        let low: u8 = self.consume_u8(mmu);
        mmu.write(0xFF00 + low as u16, self.reg.a);
    }

    /// LD A,(0xFF00+u8).
    pub(crate) fn ldh_a_iu8(&mut self, mmu: &Mmu)
        requires
            mmu.wf(),
        ensures
            Cpu::only_reg(*old(self), *final(self), Registers { a: mmu.read_spec((0xFF00 + imm8(mmu, old(self).reg)) as u16), ..after_u8(old(self).reg) }),
    {
        let low: u8 = self.consume_u8(mmu);
        self.reg.a = mmu.read(0xFF00 + low as u16);
    }

    /// LD (0xFF00+C),A.
    pub(crate) fn ld_ic_a(&mut self, mmu: &mut Mmu)
        requires
            old(mmu).wf(),
        ensures
            Mmu::stable(old(mmu), final(mmu)),
            final(mmu).wf(),
            Mmu::write_post(old(mmu), final(mmu), (0xFF00 + old(self).reg.c) as u16, old(self).reg.a),
            *final(self) == *old(self),
    {
        mmu.write(0xFF00 + self.reg.c as u16, self.reg.a);
    }

    /// LD A,(0xFF00+C).
    pub(crate) fn ld_a_ic(&mut self, mmu: &Mmu)
        requires
            mmu.wf(),
        ensures
            Cpu::only_reg(*old(self), *final(self), Registers { a: mmu.read_spec((0xFF00 + old(self).reg.c) as u16), ..old(self).reg }),
    {
        self.reg.a = mmu.read(0xFF00 + self.reg.c as u16);
    }

    /// LD (u16),A.
    pub(crate) fn ld_iu16_a(&mut self, mmu: &mut Mmu)
        requires
            old(mmu).wf(),
        ensures
            Mmu::stable(old(mmu), final(mmu)),
            final(mmu).wf(),
            Mmu::write_post(old(mmu), final(mmu), imm16(old(mmu), old(self).reg), old(self).reg.a),
            Cpu::only_reg(*old(self), *final(self), after_u16(old(self).reg)),
    {
        let add: u16 = self.consume_u16(mmu);
        mmu.write(add, self.reg.a);
    }

    /// LD A,(u16).
    pub(crate) fn ld_a_iu16(&mut self, mmu: &Mmu)
        requires
            mmu.wf(),
        ensures
            Cpu::only_reg(*old(self), *final(self), Registers { a: mmu.read_spec(imm16(mmu, old(self).reg)), ..after_u16(old(self).reg) }),
    {
        let add: u16 = self.consume_u16(mmu);
        self.reg.a = mmu.read(add);
    }

    /// JP u16.
    pub(crate) fn jp_u16(&mut self, mmu: &Mmu)
        requires
            mmu.wf(),
        ensures
            Cpu::only_reg(*old(self), *final(self), Registers { pc: imm16(mmu, old(self).reg), ..old(self).reg }),
    {
        let add: u16 = self.consume_u16(mmu);
        self.reg.pc = add;
    }

    /// JP HL: PC takes HL itself.
    pub(crate) fn jp_hl(&mut self)
        ensures
            Cpu::only_reg(*old(self), *final(self), Registers { pc: old(self).reg.spec_get16(Register16::HL), ..old(self).reg }),
    {
        self.reg.pc = self.reg.get16(&Register16::HL);
    }

    /// Whether the condition of conditional opcode `op` holds.
    pub(crate) fn condition(&self, op: u8) -> (r: bool)
        ensures
            r == cond_holds(self.reg, op),
    {
        let k: u8 = (op / 8) % 4;
        if k == 0 {
            !self.reg.fz
        } else if k == 1 {
            self.reg.fz
        } else if k == 2 {
            !self.reg.fc
        } else {
            self.reg.fc
        }
    }

    /// JP cc,u16: the address is always consumed; returns whether the jump was taken.
    pub(crate) fn jp_f_u16(&mut self, mmu: &Mmu, op: u8) -> (taken: bool)
        requires
            mmu.wf(),
        ensures
            taken == cond_holds(old(self).reg, op),
            Cpu::only_reg(*old(self), *final(self), if taken {
                Registers { pc: imm16(mmu, old(self).reg), ..old(self).reg }
            } else {
                after_u16(old(self).reg)
            }),
    {
        let taken: bool = self.condition(op);
        let add: u16 = self.consume_u16(mmu);
        if taken {
            self.reg.pc = add;
        }
        taken
    }

    /// The address `offset` (signed) bytes from PC.
    pub(crate) fn get_relative_add(&self, offset: u8) -> (r: u16)
        ensures
            r == wrap16(self.reg.pc + signed8(offset)),
    {
        if offset >= 128 {
            self.reg.pc.wrapping_sub(256 - offset as u16)
        } else {
            self.reg.pc.wrapping_add(offset as u16)
        }
    }

    /// JR i8: the offset applies to PC after the offset byte.
    pub(crate) fn jr_i8(&mut self, mmu: &Mmu)
        requires
            mmu.wf(),
        ensures
            Cpu::only_reg(*old(self), *final(self), Registers {
                pc: wrap16(wrap16(old(self).reg.pc + 1) + signed8(imm8(mmu, old(self).reg))),
                ..old(self).reg
            }),
    {
        let offset: u8 = self.consume_u8(mmu);
        self.reg.pc = self.get_relative_add(offset);
    }

    /// JR cc,i8; returns whether the jump was taken.
    pub(crate) fn jr_f_i8(&mut self, mmu: &Mmu, op: u8) -> (taken: bool)
        requires
            mmu.wf(),
        ensures
            taken == cond_holds(old(self).reg, op),
            Cpu::only_reg(*old(self), *final(self), if taken {
                Registers {
                    pc: wrap16(wrap16(old(self).reg.pc + 1) + signed8(imm8(mmu, old(self).reg))),
                    ..old(self).reg
                }
            } else {
                after_u8(old(self).reg)
            }),
    {
        let taken: bool = self.condition(op);
        let offset: u8 = self.consume_u8(mmu);
        if taken {
            self.reg.pc = self.get_relative_add(offset);
        }
        taken
    }

    /// CALL u16: pushes the return address and jumps.
    pub(crate) fn call_u16(&mut self, mmu: &mut Mmu)
        requires
            old(mmu).wf(),
        ensures
            Mmu::stable(old(mmu), final(mmu)),
            final(mmu).wf(),
            final(self).reg.pc == imm16(old(mmu), old(self).reg),
            final(self).reg.sp == wrap16(old(self).reg.sp - 2),
            pushed(after_u16(old(self).reg), Registers { pc: wrap16(old(self).reg.pc + 2), ..final(self).reg }, final(mmu), wrap16(old(self).reg.pc + 2)),
            Cpu::only_reg(*old(self), *final(self), final(self).reg),
    {
        let add: u16 = self.consume_u16(mmu);
        let ret: u16 = self.reg.pc;
        self.stack_push_u16(mmu, ret);
        self.reg.pc = add;
    }

    /// CALL cc,u16; returns whether the call was taken.
    pub(crate) fn call_f_u16(&mut self, mmu: &mut Mmu, op: u8) -> (taken: bool)
        requires
            old(mmu).wf(),
        ensures
            Mmu::stable(old(mmu), final(mmu)),
            final(mmu).wf(),
            taken == cond_holds(old(self).reg, op),
            !taken ==> Cpu::only_reg(*old(self), *final(self), after_u16(old(self).reg)) && *final(mmu) == *old(mmu),
            taken ==> final(self).reg.pc == imm16(old(mmu), old(self).reg) && final(self).reg.sp == wrap16(old(self).reg.sp - 2)
                && pushed(after_u16(old(self).reg), Registers { pc: wrap16(old(self).reg.pc + 2), ..final(self).reg }, final(mmu), wrap16(old(self).reg.pc + 2)),
            Cpu::only_reg(*old(self), *final(self), final(self).reg),
    {
        let taken: bool = self.condition(op);
        let add: u16 = self.consume_u16(mmu);
        if taken {
            let ret: u16 = self.reg.pc;
            self.stack_push_u16(mmu, ret);
            self.reg.pc = add;
        }
        taken
    }

    /// RET.
    pub(crate) fn ret(&mut self, mmu: &Mmu)
        requires
            mmu.wf(),
        ensures
            Cpu::only_reg(*old(self), *final(self), popped(old(self).reg, mmu, Register16::PC)),
    {
        self.reg.pc = self.stack_pop_u16(mmu);
    }

    /// RET cc; returns whether the return was taken.
    pub(crate) fn ret_f(&mut self, mmu: &Mmu, op: u8) -> (taken: bool)
        requires
            mmu.wf(),
        ensures
            taken == cond_holds(old(self).reg, op),
            Cpu::only_reg(*old(self), *final(self), if taken {
                popped(old(self).reg, mmu, Register16::PC)
            } else {
                old(self).reg
            }),
    {
        let taken: bool = self.condition(op);
        if taken {
            self.reg.pc = self.stack_pop_u16(mmu);
        }
        taken
    }

    /// RETI: returns and enables interrupts at once.
    pub(crate) fn reti(&mut self, mmu: &Mmu)
        requires
            mmu.wf(),
        ensures
            *final(self) == (Cpu { reg: popped(old(self).reg, mmu, Register16::PC), ime: Ime::Enabled, ..*old(self) }),
    {
        self.ime = Ime::Enabled;
        self.reg.pc = self.stack_pop_u16(mmu);
    }

    /// RST n: pushes PC and jumps to `fixed`.
    pub(crate) fn rst(&mut self, mmu: &mut Mmu, fixed: u8)
        requires
            old(mmu).wf(),
        ensures
            Mmu::stable(old(mmu), final(mmu)),
            pushed(old(self).reg, Registers { pc: old(self).reg.pc, ..final(self).reg }, final(mmu), old(self).reg.pc),
            final(self).reg.pc == fixed,
            Cpu::only_reg(*old(self), *final(self), final(self).reg),
    {
        let pc: u16 = self.reg.pc;
        self.stack_push_u16(mmu, pc);
        self.reg.pc = fixed as u16;
    }

    pub(crate) fn di(&mut self)
        ensures
            *final(self) == (Cpu { ime: Ime::Disabled, ..*old(self) }),
    {
        self.ime = Ime::Disabled;
    }

    pub(crate) fn ei(&mut self)
        ensures
            *final(self) == (Cpu { ime: Ime::Pending, ..*old(self) }),
    {
        self.ime = Ime::Pending;
    }

    /// HALT (and STOP, which is treated the same).
    pub(crate) fn halt(&mut self)
        ensures
            *final(self) == (Cpu { halted: true, ..*old(self) }),
    {
        self.halted = true;
    }
}

} // verus!
