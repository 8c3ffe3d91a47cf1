//! The processor: one hart and the memory it runs against.
//!
//! Each cycle the processor fetches the word at the hart's `pc`, performs the load that the
//! previous cycle announced, runs the hart's cycle, and performs the store it asks for. A load
//! therefore sees memory after the previous instruction's store.

use crate::error::ProcessorException;
use crate::extension::{Extension, OpcodeHandler};
use crate::hart::{spec_cycle, state_wf, Hart, HartState};
use crate::mmu::{mmu_load_typed, mmu_store_typed, LoadSpec, MemoryAccessType, MMU};
use vstd::prelude::*;

verus! {

/// Configuration to create a processor.
pub struct ProcessorConfig<E> {
    /// Number of harts to run. Only one hart is active.
    pub harts: usize,
    /// The memory of the system.
    pub mmu: MMU,
    /// Extensions to install, in order: the base instruction set and any others.
    pub extensions: Vec<E>,
}

/// The state of a processor, as a mathematical value.
pub struct ProcessorState {
    /// The hart's pipeline state.
    pub hart: HartState,
    /// The boot image.
    pub rom: Seq<u8>,
    /// The RAM.
    pub ram: Seq<u8>,
    /// The load announced in the previous cycle.
    pub load: Option<LoadSpec>,
    /// The hart's `pc` at the previous cycle: the address of the instruction that executes next.
    pub prev_pc: u32,
}

/// The opcode table after installing `extensions`, in order, into the table `table`.
pub open spec fn install_all<E: Extension>(extensions: Seq<E>, table: Seq<Option<OpcodeHandler>>) -> Seq<
    Option<OpcodeHandler>,
>
    decreases extensions.len(),
{
    if extensions.len() == 0 {
        table
    } else {
        extensions.last().install(install_all(extensions.drop_last(), table))
    }
}

/// One processor cycle from state `p`, with the opcode table `handlers`: the new state and the
/// outcome. Errors are paired with the address of the instruction responsible.
pub open spec fn spec_processor_cycle(handlers: Seq<Option<OpcodeHandler>>, p: ProcessorState) -> (
    ProcessorState,
    Result<(), (ProcessorException, u32)>,
) {
    let fetched = match mmu_load_typed(
        p.rom,
        p.ram,
        LoadSpec { access_type: MemoryAccessType::Word, addr: p.hart.pc as usize },
    ) {
        Ok(w) => Ok(w as u32),
        Err(e) => Err(e),
    };
    let mem = match p.load {
        None => Ok(0i32),
        Some(l) => mmu_load_typed(p.rom, p.ram, l),
    };
    match mem {
        Err(e) => (p, Err((e, p.prev_pc))),
        Ok(m) => {
            let (h, r) = spec_cycle(handlers, p.hart, fetched, m);
            match r {
                Err(e) => (ProcessorState { hart: h, ..p }, Err(e)),
                Ok(access) => match access.store {
                    None => (
                        ProcessorState { hart: h, load: access.load, prev_pc: p.hart.pc, ..p },
                        Ok(()),
                    ),
                    Some(st) => {
                        let (ram, stored) = mmu_store_typed(p.ram, st);
                        match stored {
                            Err(e) => (ProcessorState { hart: h, ram, ..p }, Err((e, p.prev_pc))),
                            Ok(_) => (
                                ProcessorState {
                                    hart: h,
                                    ram,
                                    load: access.load,
                                    prev_pc: p.hart.pc,
                                    ..p
                                },
                                Ok(()),
                            ),
                        }
                    },
                },
            }
        },
    }
}

/// A RISC-V processor with a single hart.
pub struct Processor {
    /// The hart of this processor.
    pub hart: Hart,
    /// The memory of the system.
    pub mmu: MMU,
    load: Option<LoadSpec>,
    prev_pc: u32,
}

impl Processor {
    /// The processor is well formed.
    pub closed spec fn wf(&self) -> bool {
        self.hart.wf()
    }

    /// The hart of a well-formed processor has 32 registers, register 0 reading zero and a
    /// well-formed pending instruction.
    pub proof fn lemma_wf(&self)
        requires
            self.wf(),
        ensures
            state_wf(self.state().hart),
    {
        self.hart.lemma_wf();
    }

    /// The opcode table of the hart.
    pub closed spec fn handlers(&self) -> Seq<Option<OpcodeHandler>> {
        self.hart.handlers()
    }

    /// The state of the processor.
    pub closed spec fn state(&self) -> ProcessorState {
        ProcessorState {
            hart: self.hart.state(),
            rom: self.mmu.rom_view(),
            ram: self.mmu.ram_view(),
            load: self.load,
            prev_pc: self.prev_pc,
        }
    }

    /// The hart of this processor.
    pub fn hart(&self) -> (r: &Hart)
        ensures
            r.state() == self.state().hart,
            self.wf() ==> r.wf(),
    {
        &self.hart
    }

    /// Create a processor: a new hart with each extension installed in order, starting at
    /// address 0 with nothing pending.
    pub fn new<E: Extension>(config: ProcessorConfig<E>) -> (r: Self)
        ensures
            r.wf(),
            r.state() == (ProcessorState {
                hart: HartState {
                    regs: Seq::new(32, |i: int| 0i32),
                    pc: 0,
                    prev_pc: 0,
                    last_instr: None,
                    pending: None,
                },
                rom: config.mmu.rom_view(),
                ram: config.mmu.ram_view(),
                load: None,
                prev_pc: 0,
            }),
            r.handlers() == install_all(
                config.extensions@,
                Seq::new(256, |i: int| None::<OpcodeHandler>),
            ),
    {
        let mut hart = Hart::new();
        let ghost fresh = hart.state();
        let ghost empty = hart.handlers();
        let extensions = config.extensions;
        let mut i: usize = 0;
        while i < extensions.len()
            invariant
                i <= extensions@.len(),
                hart.wf(),
                hart.state() == fresh,
                hart.handlers() == install_all(extensions@.subrange(0, i as int), empty),
            decreases extensions@.len() - i,
        {
            extensions[i].register(&mut hart);
            proof {
                let next = extensions@.subrange(0, i + 1);
                assert(next.drop_last() =~= extensions@.subrange(0, i as int));
                assert(next.last() == extensions@[i as int]);
            }
            i = i + 1;
        }
        assert(extensions@.subrange(0, extensions@.len() as int) =~= extensions@);
        Processor { hart, mmu: config.mmu, load: None, prev_pc: 0 }
    }

    /// Reset the processor: the hart restarts at address 0, and the deferred load and the
    /// previous `pc` are cleared. Registers and memory keep their values.
    pub fn reset(&mut self)
        requires
            old(self).wf(),
        ensures
            final(self).wf(),
            final(self).handlers() == old(self).handlers(),
            final(self).state() == (ProcessorState {
                hart: HartState {
                    pc: 0,
                    prev_pc: 0,
                    last_instr: None,
                    pending: None,
                    ..old(self).state().hart
                },
                load: None,
                prev_pc: 0,
                ..old(self).state()
            }),
    {
        self.hart.reset();
        self.load = None;
        self.prev_pc = 0;
    }

    /// Execute one processor cycle.
    ///
    /// On an exception, returns it with the address of the instruction that caused it.
    pub fn cycle(&mut self) -> (r: Result<(), (ProcessorException, u32)>)
        requires
            old(self).wf(),
        ensures
            final(self).wf(),
            final(self).handlers() == old(self).handlers(),
            (final(self).state(), r) == spec_processor_cycle(
                old(self).handlers(),
                old(self).state(),
            ),
    {
        let prev_pc = self.prev_pc;
        let cur_pc = self.hart.pc();
        let fetched = match self.mmu.load_word(cur_pc as usize) {
            Ok(w) => Ok(w as u32),
            Err(e) => Err(e),
        };
        let mem = match self.load {
            Some(access) => match self.mmu.load(access) {
                Ok(v) => v,
                Err(e) => {
                    return Err((e, prev_pc));
                },
            },
            None => 0,
        };
        let result = self.hart.step(fetched, mem)?;
        if let Some(store) = result.store {
            if let Err(e) = self.mmu.store(store) {
                return Err((e, prev_pc));
            }
        }
        self.prev_pc = cur_pc;
        self.load = result.load;
        Ok(())
    }
}

} // verus!
