//! Running a loaded program: fetch the instruction at the program counter,
//! carry it out, and move the program counter past it, for a number of steps.

use crate::instruction::{decoded, instruction_length, DecodeError, Instruction};
use crate::machine::Machine;
use crate::registers::R16;
use crate::semantics::{can_execute, is_executable, pc_increment, step};
use crate::state::{MachineState, MEMORY_SIZE};
use vstd::prelude::*;

verus! {

/// What decoding the memory from the program counter on gives.
pub open spec fn next_instruction(s: MachineState) -> Result<Instruction, DecodeError> {
    decoded(s.mem.skip(s.pc as int))
}

/// Whether the machine can carry out its next instruction: it decodes, `exec`
/// can carry it out, and the program counter can move past all its bytes.
pub open spec fn can_run(s: MachineState) -> bool {
    &&& next_instruction(s) is Ok
    &&& can_execute(s, next_instruction(s)->Ok_0)
    &&& s.pc + instruction_length(s.mem8(s.pc)) <= 0xFFFF
}

/// One step of a program: the next instruction is carried out and the program
/// counter is left just past its bytes.
pub open spec fn run_step(s: MachineState) -> MachineState {
    step(s, next_instruction(s)->Ok_0).with_pc((s.pc + instruction_length(s.mem8(s.pc))) as u16)
}

/// The state after running up to `n` steps from `s`; running stops at the
/// first instruction that cannot be carried out.
pub open spec fn run(s: MachineState, n: nat) -> MachineState
    decreases n,
{
    if n == 0 {
        s
    } else {
        let p = run(s, (n - 1) as nat);
        if can_run(p) {
            run_step(p)
        } else {
            p
        }
    }
}

/// Running `a` steps and then `b` more is running `a + b` steps: calling
/// `eval` several times runs the program as far as one call with the sum.
pub proof fn law_run_composes(s: MachineState, a: nat, b: nat)
    ensures
        run(run(s, a), b) == run(s, a + b),
    decreases b,
{
    if b > 0 {
        law_run_composes(s, a, (b - 1) as nat);
        assert((a + b - 1) as nat == a + (b - 1) as nat);
    }
}

/// Once the program stops at an instruction that cannot be carried out,
/// running further steps leaves the machine as it is.
pub proof fn law_run_stays_stopped(s: MachineState, n: nat, m: nat)
    requires
        !can_run(run(s, n)),
    ensures
        run(s, n + m) == run(s, n),
    decreases m,
{
    if m > 0 {
        law_run_stays_stopped(s, n, (m - 1) as nat);
        assert((n + m - 1) as nat == n + (m - 1) as nat);
    }
}

/// Number of bytes of the instruction that starts with `op`.
fn opcode_length(op: u8) -> (n: u16)
    ensures
        n == instruction_length(op),
{
    let x = op / 64;
    let y = (op / 8) % 8;
    let z = op % 8;
    if x == 0 {
        if z == 0 {
            if y == 0 {
                1
            } else if y == 1 {
                3
            } else {
                2
            }
        } else if z == 1 {
            if (op / 8) % 2 == 0 {
                3
            } else {
                1
            }
        } else if z == 6 {
            2
        } else {
            1
        }
    } else if x == 1 || x == 2 {
        1
    } else {
        if z == 0 {
            if y < 4 {
                1
            } else {
                2
            }
        } else if z == 2 {
            if y < 4 || y == 5 || y == 7 {
                3
            } else {
                1
            }
        } else if z == 3 {
            if y == 0 {
                3
            } else if y == 1 {
                2
            } else {
                1
            }
        } else if z == 4 {
            3
        } else if z == 5 {
            if y == 1 {
                3
            } else {
                1
            }
        } else if z == 6 {
            2
        } else {
            1
        }
    }
}

/// Whether `exec` carries out `ins` at all.
fn executable(ins: &Instruction) -> (b: bool)
    ensures
        b == is_executable(*ins),
{
    match ins {
        Instruction::JP { .. } | Instruction::JPHL | Instruction::JPCC { .. } | Instruction::JR {
            ..
        } | Instruction::JRCC { .. } | Instruction::Call { .. } | Instruction::CallCC { .. }
        | Instruction::Ret | Instruction::RetCC { .. } | Instruction::RetI | Instruction::RST {
            ..
        } | Instruction::Halt | Instruction::Stop { .. } | Instruction::DI | Instruction::EI
        | Instruction::NOP => false,
        _ => true,
    }
}

/// How far `exec` moves the program counter for `ins`.
fn increment_of(ins: &Instruction) -> (n: u16)
    ensures
        n == pc_increment(*ins),
{
    match ins {
        Instruction::StoreImmIndirectHL { .. } | Instruction::LoadHLSPOffset { .. }
        | Instruction::AddImm8 { .. } | Instruction::AddCImm8 { .. } | Instruction::SubImm8 { .. }
        | Instruction::SubCImm8 { .. } | Instruction::CmpImm8 { .. } | Instruction::AndImm8 { .. }
        | Instruction::OrImm8 { .. } | Instruction::XorImm8 { .. } | Instruction::AddSPImm8 { .. }
        | Instruction::RLC { .. } | Instruction::RLCIndirectHL | Instruction::RRC { .. }
        | Instruction::RRCIndirectHL | Instruction::RL { .. } | Instruction::RLIndirectHL
        | Instruction::RR { .. } | Instruction::RRIndirectHL | Instruction::SLA { .. }
        | Instruction::SLAIndirectHL | Instruction::SRA { .. } | Instruction::SRAIndirectHL
        | Instruction::Swap { .. } | Instruction::SwapIndirectHL | Instruction::SRL { .. }
        | Instruction::SRLIndirectHL | Instruction::BIT { .. } | Instruction::BITIndirectHL { .. }
        | Instruction::RES { .. } | Instruction::RESIndirectHL { .. } | Instruction::SET { .. }
        | Instruction::SETIndirectHL { .. } => 2,
        Instruction::LoadAcc16 { .. } | Instruction::StoreAcc16 { .. } | Instruction::LoadImm16 {
            ..
        } | Instruction::StoreSP16 { .. } => 3,
        _ => 1,
    }
}

impl Machine {
    /// Whether `exec` can carry out `ins` in the current state.
    fn can_execute_now(&self, ins: &Instruction) -> (b: bool)
        ensures
            b == can_execute(self@, *ins),
    {
        if !executable(ins) {
            return false;
        }
        let pc = self.get_pc();
        if pc as u32 + increment_of(ins) as u32 > 0xFFFF {
            return false;
        }
        match ins {
            Instruction::LoadAccIndirectHLDec | Instruction::StoreAccIndirectHLDec => {
                self.get_r16(R16::HL) >= 1
            },
            Instruction::LoadAccIndirectHLInc | Instruction::StoreAccIndirectHLInc => {
                self.get_r16(R16::HL) < 0xFFFF
            },
            Instruction::StoreSP16 { addr } => *addr < 0xFFFF,
            Instruction::Push { .. } => self.get_r16(R16::SP) >= 2,
            Instruction::Pop { .. } => self.get_r16(R16::SP) <= 0xFFFD,
            Instruction::BIT { bit, .. } | Instruction::BITIndirectHL { bit } | Instruction::RES {
                bit,
                ..
            } | Instruction::RESIndirectHL { bit } | Instruction::SET { bit, .. }
            | Instruction::SETIndirectHL { bit } => *bit < 8,
            _ => true,
        }
    }

    /// Decodes the instruction at the program counter, from the (at most
    /// three) bytes there.
    fn fetch(&self) -> (r: Result<Instruction, DecodeError>)
        ensures
            r == next_instruction(self@),
    {
        proof {
            self.lemma_view_wf();
        }
        let pc = self.get_pc() as usize;
        let end: usize = if pc + 3 <= MEMORY_SIZE {
            pc + 3
        } else {
            MEMORY_SIZE
        };
        let mut window: Vec<u8> = Vec::new();
        let mut j = pc;
        while j < end
            invariant
                pc <= j <= end <= MEMORY_SIZE,
                end <= pc + 3,
                self@.wf(),
                pc == self@.pc,
                window@ =~= self@.mem.subrange(pc as int, j as int),
            decreases end - j,
        {
            window.push(self.get_mem8(j as u16));
            j = j + 1;
        }
        let ghost rest = self@.mem.skip(pc as int);
        proof {
            assert(window@ =~= rest.take((end - pc) as int));
            if rest.len() > 0 {
                crate::laws::law_instruction_length_bounds(rest[0]);
                if end - pc < 3 {
                    assert(rest.take((end - pc) as int) =~= rest);
                } else {
                    crate::laws::law_decode_ignores_trailing_bytes(rest, (end - pc) as int);
                }
            }
        }
        Instruction::decode(window.as_slice())
    }

    /// Carries out one step of the program when the next instruction can be
    /// carried out, and says whether it did.
    fn run_one(&mut self) -> (ran: bool)
        ensures
            ran == can_run(old(self)@),
            final(self)@ == (if ran {
                run_step(old(self)@)
            } else {
                old(self)@
            }),
    {
        let pc = self.get_pc();
        let op = self.get_mem8(pc);
        let len = opcode_length(op);
        if pc as u32 + len as u32 > 0xFFFF {
            return false;
        }
        match self.fetch() {
            Ok(ins) => {
                if !self.can_execute_now(&ins) {
                    return false;
                }
                self.exec(ins);
                self.set_pc(pc + len);
                true
            },
            Err(_) => false,
        }
    }

    /// Runs the program from the program counter for up to `steps`
    /// instructions: each one is decoded from memory, carried out, and the
    /// program counter is moved past its bytes. Running stops early at an
    /// instruction that does not decode or that `exec` cannot carry out.
    /// Returns the number of instructions carried out.
    pub fn eval(&mut self, steps: usize) -> (ran: usize)
        ensures
            ran <= steps,
            final(self)@ == run(old(self)@, ran as nat),
            ran < steps ==> !can_run(final(self)@),
    {
        let mut ran: usize = 0;
        while ran < steps
            invariant
                ran <= steps,
                self@ == run(old(self)@, ran as nat),
            decreases steps - ran,
        {
            if !self.run_one() {
                return ran;
            }
            ran = ran + 1;
        }
        ran
    }

    /// Runs the program until the program counter reaches `target`, for at
    /// most `max_steps` instructions, stopping early at an instruction that
    /// cannot be carried out. Returns the number of instructions carried out.
    pub fn run_until_pc(&mut self, target: u16, max_steps: usize) -> (ran: usize)
        ensures
            ran <= max_steps,
            final(self)@ == run(old(self)@, ran as nat),
            forall|k: nat| k < ran ==> #[trigger] run(old(self)@, k).pc != target,
            ran < max_steps ==> final(self)@.pc == target || !can_run(final(self)@),
    {
        let mut ran: usize = 0;
        while ran < max_steps
            invariant
                ran <= max_steps,
                self@ == run(old(self)@, ran as nat),
                forall|k: nat| k < ran ==> #[trigger] run(old(self)@, k).pc != target,
            decreases max_steps - ran,
        {
            if self.get_pc() == target {
                return ran;
            }
            if !self.run_one() {
                return ran;
            }
            ran = ran + 1;
        }
        ran
    }
}

} // verus!
