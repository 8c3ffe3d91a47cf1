//! A hardware thread (hart) and its two-stage pipeline.
//!
//! Each cycle the hart decodes the word fetched at `pc` and executes the instruction it decoded
//! the cycle before. A decoded instruction may announce a memory load, which the processor
//! performs before the instruction executes; an executed instruction may ask for a store, which
//! the processor performs after the cycle. A jump discards the decoding made in the same cycle,
//! so the next cycle only decodes.

use crate::error::ProcessorException;
use crate::extension::OpcodeHandler;
use crate::instruction::Instruction;
use crate::mmu::{LoadSpec, StoreSpec};
use crate::parts::{spec_instruction_length, spec_opcode, word_parts, InstructionLength, InstructionParts};
use crate::register::RegisterFile;
use crate::rv32i::branch::BranchInstruction;
use vstd::prelude::*;

verus! {

/// Memory accesses that the hart needs after a cycle.
#[derive(Clone, Copy, Debug, PartialEq, Eq, Structural, Hash)]
pub struct MemoryAccess {
    /// A value to load from memory before the next instruction executes.
    pub load: Option<LoadSpec>,
    /// A value to store to memory, having executed an instruction.
    pub store: Option<StoreSpec>,
}

/// The state of a hart's pipeline, as a mathematical value.
pub struct HartState {
    /// The register values, by register number.
    pub regs: Seq<i32>,
    /// Address of the next word to fetch and decode.
    pub pc: u32,
    /// Address of the word decoded most recently: the instruction that executes next.
    pub prev_pc: u32,
    /// Text of the instruction executed most recently, if the last cycle executed one.
    pub last_instr: Option<Seq<char>>,
    /// The decoding of the previous cycle, if there is one to execute.
    pub pending: Option<Result<Instruction, ProcessorException>>,
}

/// The facts that hold of the state of every well-formed hart: 32 registers, register 0
/// reading zero, and a well-formed pending instruction.
pub open spec fn state_wf(s: HartState) -> bool {
    &&& s.regs.len() == 32
    &&& s.regs[0] == 0
    &&& (s.pending matches Some(Ok(i)) ==> i.wf())
}

/// Size of the opcode table: one entry for each value of an opcode byte.
pub const OPCODE_TABLE_SIZE: usize = 256;

/// What the word `raw`, found at address `pc`, decodes to with the opcode table `handlers`.
pub open spec fn spec_decode_word(handlers: Seq<Option<OpcodeHandler>>, raw: u32, pc: u32) -> Result<
    Instruction,
    ProcessorException,
> {
    if spec_instruction_length(raw) != InstructionLength::Word {
        Err(ProcessorException::IllegalInstruction)
    } else {
        match handlers[spec_opcode(raw) as int] {
            None => Err(ProcessorException::IllegalInstruction),
            Some(h) => h.spec_decode(word_parts(raw), pc),
        }
    }
}

/// What the outcome of a fetch decodes to: a failed fetch is the decoding's error.
pub open spec fn spec_decode_fetched(
    handlers: Seq<Option<OpcodeHandler>>,
    fetched: Result<u32, ProcessorException>,
    pc: u32,
) -> Result<Instruction, ProcessorException> {
    match fetched {
        Err(e) => Err(e),
        Ok(raw) => spec_decode_word(handlers, raw, pc),
    }
}

/// The load that a decoding announces, with the register values `regs`.
pub open spec fn announced_load(
    decoded: Option<Result<Instruction, ProcessorException>>,
    regs: Seq<i32>,
) -> Option<LoadSpec> {
    match decoded {
        Some(Ok(i)) => i.spec_load(regs),
        _ => None,
    }
}

/// One cycle of the pipeline from state `s`, with the opcode table `handlers`, the outcome of
/// fetching the word at `s.pc`, and the value `mem` that satisfies the load announced in the
/// previous cycle: the new state and the outcome.
///
/// An error is paired with the address of the faulting instruction, and leaves `pc`, `prev_pc`
/// and the pending decoding as they were.
pub open spec fn spec_cycle(
    handlers: Seq<Option<OpcodeHandler>>,
    s: HartState,
    fetched: Result<u32, ProcessorException>,
    mem: i32,
) -> (HartState, Result<MemoryAccess, (ProcessorException, u32)>) {
    let decoded = spec_decode_fetched(handlers, fetched, s.pc);
    match s.pending {
        None => {
            let pending = Some(decoded);
            (
                HartState {
                    regs: s.regs,
                    pc: s.pc.wrapping_add(4),
                    prev_pc: s.pc,
                    last_instr: None,
                    pending,
                },
                Ok(MemoryAccess { load: announced_load(pending, s.regs), store: None }),
            )
        },
        Some(Err(e)) => (s, Err((e, s.prev_pc))),
        Some(Ok(instr)) => {
            let (regs, res) = instr.spec_execute(s.regs, mem);
            let text = Some(instr.spec_format());
            match res {
                Err(e) => (HartState { regs, last_instr: text, ..s }, Err((e, s.prev_pc))),
                Ok(result) => {
                    let pending = if result.jump is Some {
                        None
                    } else {
                        Some(decoded)
                    };
                    let pc = match result.jump {
                        Some(target) => target,
                        None => s.pc.wrapping_add(4),
                    };
                    (
                        HartState { regs, pc, prev_pc: s.pc, last_instr: text, pending },
                        Ok(MemoryAccess { load: announced_load(pending, regs), store: result.store }),
                    )
                },
            }
        },
    }
}

/// A hardware thread.
pub struct Hart {
    /// Registers of this hart.
    pub registers: RegisterFile,
    /// The program counter: the address of the word to fetch and decode next.
    pub pc: u32,
    /// The address of the word decoded most recently.
    pub prev_pc: u32,
    /// Text of the instruction executed most recently, for display.
    pub last_instr: Option<String>,
    opcodes: Vec<Option<OpcodeHandler>>,
    next_instr: Option<Result<Instruction, ProcessorException>>,
}

impl Hart {
    /// The hart is well formed: a well-formed register file, a full opcode table, and a
    /// well-formed pending instruction.
    pub closed spec fn wf(&self) -> bool {
        &&& self.registers.wf()
        &&& self.opcodes@.len() == OPCODE_TABLE_SIZE
        &&& (self.next_instr matches Some(Ok(i)) ==> i.wf())
    }

    /// The state of a well-formed hart has 32 registers, register 0 reading zero and a
    /// well-formed pending instruction, and its opcode table has an entry for every byte.
    pub proof fn lemma_wf(&self)
        requires
            self.wf(),
        ensures
            state_wf(self.state()),
            self.handlers().len() == OPCODE_TABLE_SIZE,
    {
        self.registers.lemma_wf();
    }

    /// The pipeline state of the hart.
    pub closed spec fn state(&self) -> HartState {
        HartState {
            regs: self.registers@,
            pc: self.pc,
            prev_pc: self.prev_pc,
            last_instr: match self.last_instr {
                Some(s) => Some(s@),
                None => None,
            },
            pending: self.next_instr,
        }
    }

    /// The opcode table: the handler installed for each opcode byte, if any.
    pub closed spec fn handlers(&self) -> Seq<Option<OpcodeHandler>> {
        self.opcodes@
    }

    /// A hart with all registers zero, `pc` at address 0, nothing pending and no handlers.
    pub fn new() -> (r: Self)
        ensures
            r.wf(),
            r.state() == (HartState {
                regs: Seq::new(32, |i: int| 0i32),
                pc: 0,
                prev_pc: 0,
                last_instr: None,
                pending: None,
            }),
            r.handlers() == Seq::new(OPCODE_TABLE_SIZE as nat, |i: int| None::<OpcodeHandler>),
    {
        let mut opcodes: Vec<Option<OpcodeHandler>> = Vec::new();
        let mut i: usize = 0;
        while i < OPCODE_TABLE_SIZE
            invariant
                i <= OPCODE_TABLE_SIZE,
                opcodes@ == Seq::new(i as nat, |j: int| None::<OpcodeHandler>),
            decreases OPCODE_TABLE_SIZE - i,
        {
            opcodes.push(None);
            i = i + 1;
        }
        Hart {
            registers: RegisterFile::new(),
            pc: 0,
            prev_pc: 0,
            last_instr: None,
            opcodes,
            next_instr: None,
        }
    }

    /// The program counter: the address of the word to fetch and decode next.
    pub fn pc(&self) -> (r: u32)
        ensures
            r == self.state().pc,
    {
        self.pc
    }

    /// The address of the word decoded most recently.
    pub fn prev_pc(&self) -> (r: u32)
        ensures
            r == self.state().prev_pc,
    {
        self.prev_pc
    }

    /// Text of the instruction executed most recently, if the last cycle executed one.
    pub fn last_instr(&self) -> (r: &Option<String>)
        ensures
            r matches Some(s) ==> self.state().last_instr == Some(s@),
            r is None ==> self.state().last_instr is None,
    {
        &self.last_instr
    }

    /// The register values, by register number.
    pub fn register_values(&self) -> (r: Vec<i32>)
        requires
            self.wf(),
        ensures
            r@ == self.state().regs,
    {
        self.registers.values()
    }

    /// Install `handler` for `opcode`, replacing any handler installed before.
    pub fn set_handler(&mut self, opcode: u8, handler: OpcodeHandler)
        requires
            old(self).wf(),
        ensures
            final(self).wf(),
            final(self).state() == old(self).state(),
            final(self).handlers() == old(self).handlers().update(opcode as int, Some(handler)),
    {
        self.opcodes.set(opcode as usize, Some(handler));
    }

    /// Reset the hart: the next cycle decodes the word at address 0 and executes nothing.
    ///
    /// The registers keep their values.
    pub fn reset(&mut self)
        requires
            old(self).wf(),
        ensures
            final(self).wf(),
            final(self).handlers() == old(self).handlers(),
            final(self).state() == (HartState {
                pc: 0,
                prev_pc: 0,
                last_instr: None,
                pending: None,
                ..old(self).state()
            }),
    {
        self.pc = 0;
        self.prev_pc = 0;
        self.last_instr = None;
        self.next_instr = None;
    }

    /// Decode the word `raw`, found at the current `pc`.
    fn decode(&self, raw_instr: u32) -> (r: Result<Instruction, ProcessorException>)
        requires
            self.wf(),
        ensures
            r == spec_decode_word(self.handlers(), raw_instr, self.pc),
            r matches Ok(i) ==> i.wf(),
    {
        let parts = InstructionParts::new(raw_instr)?;
        let opcode = parts.opcode();
        match self.opcodes[opcode as usize] {
            Some(handler) => handler.decode(parts, self.pc),
            None => Err(ProcessorException::IllegalInstruction),
        }
    }

    /// Perform one cycle, given the outcome of fetching the word at `pc` and the value `mem`
    /// that satisfies the load announced in the previous cycle (any value if none was).
    ///
    /// A failed fetch becomes the decoding of this cycle: it surfaces, paired with its address,
    /// only if that decoding is ever executed.
    pub fn step(&mut self, fetched: Result<u32, ProcessorException>, mem: i32) -> (r: Result<
        MemoryAccess,
        (ProcessorException, u32),
    >)
        requires
            old(self).wf(),
        ensures
            final(self).wf(),
            final(self).handlers() == old(self).handlers(),
            (final(self).state(), r) == spec_cycle(old(self).handlers(), old(self).state(), fetched, mem),
    {
        let cur_pc = self.pc;
        let mut next_pc = self.pc.wrapping_add(4);
        let decoded = match fetched {
            Ok(raw) => self.decode(raw),
            Err(e) => Err(e),
        };
        let mut next_instr = Some(decoded);
        let store = match self.next_instr {
            Some(Ok(instr)) => {
                self.last_instr = Some(instr.format());
                let result = match instr.execute(&mut self.registers, mem) {
                    Ok(result) => result,
                    Err(e) => {
                        return Err((e, self.prev_pc));
                    },
                };
                if let Some(target) = result.jump {
                    next_instr = None;
                    next_pc = target;
                }
                result.store
            },
            Some(Err(e)) => {
                return Err((e, self.prev_pc));
            },
            None => {
                self.last_instr = None;
                None
            },
        };
        let mut load = None;
        if let Some(Ok(instr)) = next_instr {
            load = match instr.load(&self.registers) {
                Ok(l) => l,
                Err(e) => {
                    return Err((e, next_pc));
                },
            };
        }
        self.pc = next_pc;
        self.prev_pc = cur_pc;
        self.next_instr = next_instr;
        Ok(MemoryAccess { load, store })
    }

    /// Perform one cycle with the word `raw_instr` fetched at `pc` and the value `mem` that
    /// satisfies the load announced in the previous cycle.
    pub fn cycle(&mut self, raw_instr: u32, mem: i32) -> (r: Result<
        MemoryAccess,
        (ProcessorException, u32),
    >)
        requires
            old(self).wf(),
        ensures
            final(self).wf(),
            final(self).handlers() == old(self).handlers(),
            (final(self).state(), r) == spec_cycle(
                old(self).handlers(),
                old(self).state(),
                Ok(raw_instr),
                mem,
            ),
    {
        self.step(Ok(raw_instr), mem)
    }
}

} // verus!

verus! {

/// Pipeline bubble: when the instruction executed in a cycle jumps, the decoding made in that
/// cycle is discarded, and the following cycle executes nothing. It changes no register, renders
/// no instruction and asks for no store.
pub proof fn lemma_jump_bubble(
    handlers: Seq<Option<OpcodeHandler>>,
    s0: HartState,
    fetched0: Result<u32, ProcessorException>,
    mem0: i32,
    fetched1: Result<u32, ProcessorException>,
    mem1: i32,
)
    requires
        s0.pending matches Some(Ok(i)) && i.spec_execute(s0.regs, mem0).1 matches Ok(res)
            && res.jump is Some,
    ensures
        spec_cycle(handlers, s0, fetched0, mem0).1 is Ok,
        spec_cycle(handlers, s0, fetched0, mem0).0.pending is None,
        ({
            let s1 = spec_cycle(handlers, s0, fetched0, mem0).0;
            let (s2, r2) = spec_cycle(handlers, s1, fetched1, mem1);
            &&& s2.regs == s1.regs
            &&& s2.last_instr is None
            &&& r2 matches Ok(access) && access.store is None
        }),
{
}

/// A jump whose target is not a multiple of four fails: executing a JAL, a JALR or a taken
/// BRANCH with a misaligned target raises `InstructionAddressMisaligned`, paired with the address
/// of that instruction, and the pipeline does not advance.
pub proof fn lemma_misaligned_jump(
    handlers: Seq<Option<OpcodeHandler>>,
    s: HartState,
    fetched: Result<u32, ProcessorException>,
    mem: i32,
)
    requires
        s.pending matches Some(Ok(i)) && ({
            ||| i matches Instruction::Jal(j) && j.target() % 4 != 0
            ||| i matches Instruction::Jalr(j) && j.target(s.regs[j.base as int]) % 4 != 0
            ||| i matches Instruction::Branch(b) && b.taken(s.regs) && b.target() % 4 != 0
        }),
    ensures
        spec_cycle(handlers, s, fetched, mem).1 == Err::<MemoryAccess, (ProcessorException, u32)>(
            (ProcessorException::InstructionAddressMisaligned, s.prev_pc),
        ),
        spec_cycle(handlers, s, fetched, mem).0.pc == s.pc,
        spec_cycle(handlers, s, fetched, mem).0.prev_pc == s.prev_pc,
        spec_cycle(handlers, s, fetched, mem).0.pending == s.pending,
{
}

/// An instruction that records its own address records `pc`.
pub open spec fn decoded_at(i: Instruction, pc: u32) -> bool {
    match i {
        Instruction::Auipc(a) => a.pc == pc,
        Instruction::Jal(j) => j.pc == pc,
        Instruction::Jalr(j) => j.pc == pc,
        Instruction::Branch(b) => b.pc == pc,
        _ => true,
    }
}

/// The pending instruction is the one found at `prev_pc`: every cycle keeps this so, which makes
/// `prev_pc` the address that errors of the executing instruction are paired with.
pub proof fn lemma_pending_address(
    handlers: Seq<Option<OpcodeHandler>>,
    s: HartState,
    fetched: Result<u32, ProcessorException>,
    mem: i32,
)
    requires
        s.pending matches Some(Ok(i)) ==> decoded_at(i, s.prev_pc),
    ensures
        ({
            let t = spec_cycle(handlers, s, fetched, mem).0;
            t.pending matches Some(Ok(i)) ==> decoded_at(i, t.prev_pc)
        }),
{
    let decoded = spec_decode_fetched(handlers, fetched, s.pc);
    if let Ok(raw) = fetched {
        if spec_instruction_length(raw) == InstructionLength::Word {
            if let Some(h) = handlers[spec_opcode(raw) as int] {
                let w = word_parts(raw);
                match h {
                    OpcodeHandler::Branch(_) => {
                        if let Ok(i) = BranchInstruction::spec_new(w, s.pc) {
                            assert(i.pc == s.pc);
                        }
                    },
                    _ => {},
                }
            }
        }
    }
}

/// `pc` stays a multiple of four: a cycle that succeeds either moves to the next word or
/// jumps to a target that the jump checked to be aligned.
pub proof fn lemma_pc_stays_aligned(
    handlers: Seq<Option<OpcodeHandler>>,
    s: HartState,
    fetched: Result<u32, ProcessorException>,
    mem: i32,
)
    requires
        s.pc % 4 == 0,
    ensures
        spec_cycle(handlers, s, fetched, mem).0.pc % 4 == 0,
{
    if let Some(Ok(instr)) = s.pending {
        let res = instr.spec_execute(s.regs, mem).1;
        if let Ok(result) = res {
            if let Some(target) = result.jump {
                assert(target % 4 == 0);
            }
        }
    }
}

/// Register 0 stays zero through every cycle, whatever the executed instruction writes to it,
/// and the register file keeps its 32 registers, whether the cycle succeeds or fails.
pub proof fn lemma_register_zero_kept(
    handlers: Seq<Option<OpcodeHandler>>,
    s: HartState,
    fetched: Result<u32, ProcessorException>,
    mem: i32,
)
    requires
        state_wf(s),
    ensures
        spec_cycle(handlers, s, fetched, mem).0.regs.len() == 32,
        spec_cycle(handlers, s, fetched, mem).0.regs[0] == 0,
{
}

/// A word with no handler for its opcode is reported as an illegal instruction paired with its
/// own address, when execution reaches it without a jump.
pub proof fn lemma_illegal_opcode_reported(
    handlers: Seq<Option<OpcodeHandler>>,
    s: HartState,
    raw: u32,
    mem0: i32,
    fetched1: Result<u32, ProcessorException>,
    mem1: i32,
)
    requires
        spec_instruction_length(raw) == InstructionLength::Word,
        handlers[spec_opcode(raw) as int] is None,
        !(s.pending matches Some(Err(_))),
        s.pending matches Some(Ok(i)) ==> i.spec_execute(s.regs, mem0).1 matches Ok(res)
            && res.jump is None,
    ensures
        ({
            let s1 = spec_cycle(handlers, s, Ok(raw), mem0).0;
            &&& spec_cycle(handlers, s, Ok(raw), mem0).1 is Ok
            &&& spec_cycle(handlers, s1, fetched1, mem1).1 == Err::<
                MemoryAccess,
                (ProcessorException, u32),
            >((ProcessorException::IllegalInstruction, s.pc))
        }),
{
}

} // verus!
