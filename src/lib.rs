//! A RISC-V (RV32I) bare-metal emulator core.
//!
//! The library holds the instruction decoder, the memory-management unit with its boot image and
//! RAM, the register file, the two-stage hart pipeline, the processor that drives it, the RV32I
//! instruction set and the decisions of the execution driver. Every item is verified: the contracts
//! are stated over mathematical models of the machine state.

pub mod clock;
pub mod error;
pub mod extension;
pub mod hart;
pub mod instruction;
pub mod mmu;
pub mod options;
pub mod parts;
pub mod processor;
pub mod ram;
pub mod register;
pub mod rom;
pub mod rv32i;
pub mod text;

use crate::error::ProcessorException;
use crate::processor::Processor;
use vstd::prelude::*;

verus! {

/// A control message sent to the emulator over the control channel.
#[derive(Clone, Copy, Debug, PartialEq, Eq, Structural, Hash)]
pub enum ControlMessage {
    /// Stop execution for good.
    Halt,
    /// Reset the processor: restart execution from the entry point.
    Reset,
    /// Advance a manual clock by one tick.
    ManualTick,
}

/// One reading of the control channel, which never blocks.
#[derive(Clone, Copy, Debug, PartialEq, Eq, Structural, Hash)]
pub enum ControlEvent {
    /// No message is waiting.
    Empty,
    /// A message was received.
    Message(ControlMessage),
    /// Every sender is gone.
    Disconnected,
}

/// What the driver does with one reading of the control channel, before a cycle.
#[derive(Clone, Copy, Debug, PartialEq, Eq, Structural, Hash)]
pub enum ControlAction {
    /// Nothing is waiting: go on to the clock and the cycle.
    Proceed,
    /// Reset the processor, then keep draining.
    Reset,
    /// Stop the driver.
    Halt,
    /// Discard the message and keep draining.
    Ignore,
}

/// The driver's decision for one reading of the control channel.
pub open spec fn spec_control_action(event: ControlEvent) -> ControlAction {
    match event {
        ControlEvent::Empty => ControlAction::Proceed,
        ControlEvent::Message(ControlMessage::Reset) => ControlAction::Reset,
        ControlEvent::Message(ControlMessage::Halt) | ControlEvent::Disconnected => ControlAction::Halt,
        ControlEvent::Message(ControlMessage::ManualTick) => ControlAction::Ignore,
    }
}

/// Decide what to do with one reading of the control channel.
///
/// Reset and halt are applied; a manual tick is the clock's business and is discarded here; a
/// closed channel halts.
pub fn control_action(event: ControlEvent) -> (r: ControlAction)
    ensures
        r == spec_control_action(event),
{
    match event {
        ControlEvent::Empty => ControlAction::Proceed,
        ControlEvent::Message(ControlMessage::Reset) => ControlAction::Reset,
        ControlEvent::Message(ControlMessage::Halt) | ControlEvent::Disconnected => ControlAction::Halt,
        ControlEvent::Message(ControlMessage::ManualTick) => ControlAction::Ignore,
    }
}

/// The state of the processor after one cycle, broadcast on the log channel.
#[derive(Clone, Debug, Hash)]
pub enum InstructionLog {
    /// The cycle completed.
    Executed {
        /// Text of the instruction executed in the cycle; `None` when it only decoded.
        instr: Option<String>,
        /// Values of all registers.
        registers: Vec<i32>,
        /// Address of the instruction executed in the cycle (for a cycle that only decoded, of
        /// the word decoded the cycle before).
        pc: u32,
    },
    /// The cycle raised an exception; execution stops.
    Exception {
        /// The exception.
        exception: ProcessorException,
        /// Values of all registers.
        registers: Vec<i32>,
        /// Address of the faulting instruction.
        pc: u32,
    },
}

/// Run one processor cycle and build the log record that reports it.
///
/// Returns the record and whether the driver must stop: it stops on the first exception.
pub fn cycle_and_log(processor: &mut Processor) -> (r: (InstructionLog, bool))
    requires
        old(processor).wf(),
    ensures
        final(processor).wf(),
        final(processor).handlers() == old(processor).handlers(),
        ({
            let (after, outcome) = processor::spec_processor_cycle(
                old(processor).handlers(),
                old(processor).state(),
            );
            &&& final(processor).state() == after
            &&& match (r.0, outcome) {
                (InstructionLog::Executed { instr, registers, pc }, Ok(_)) => {
                    &&& !r.1
                    &&& registers@ == after.hart.regs
                    &&& pc == old(processor).state().hart.prev_pc
                    &&& match (instr, after.hart.last_instr) {
                        (Some(s), Some(t)) => s@ == t,
                        (None, None) => true,
                        _ => false,
                    }
                },
                (InstructionLog::Exception { exception, registers, pc }, Err((e, epc))) => {
                    &&& r.1
                    &&& registers@ == after.hart.regs
                    &&& exception == e
                    &&& pc == epc
                },
                _ => false,
            }
        }),
{
    let executed_pc = processor.hart().prev_pc();
    match processor.cycle() {
        Ok(()) => {
            let instr = match processor.hart().last_instr() {
                Some(s) => Some(s.clone()),
                None => None,
            };
            let registers = processor.hart().register_values();
            (InstructionLog::Executed { instr, registers, pc: executed_pc }, false)
        },
        Err((exception, pc)) => {
            let registers = processor.hart().register_values();
            (InstructionLog::Exception { exception, registers, pc }, true)
        },
    }
}

} // verus!
