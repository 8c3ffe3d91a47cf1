//! FENCE opcode instructions.
//!
//! FENCE orders memory accesses. This implementation never reorders them, so a FENCE executes
//! as a no-op; its mode and ordering flags are still validated and shown in its text.

use crate::error::ProcessorException;
use crate::instruction::{no_effect, InstructionResult};
use crate::parts::InstructionWordParts;
use crate::register::RegisterFile;
use vstd::prelude::*;

verus! {

/// Mode of a fence.
#[derive(Clone, Copy, Debug, PartialEq, Eq, Structural, Hash)]
pub enum FenceMode {
    /// Normal fence.
    Normal,
    /// Total-Store-Ordering fence.
    TSO,
}

/// The fence mode that the top four bits of `raw` select, if any.
pub open spec fn spec_fence_mode(raw: u32) -> Option<FenceMode> {
    if ((raw >> 28u32) as u8) & 0xf == 0 {
        Some(FenceMode::Normal)
    } else if ((raw >> 28u32) as u8) & 0xf == 8 {
        Some(FenceMode::TSO)
    } else {
        None
    }
}

/// The letter `c` if `b` holds, else nothing.
pub open spec fn flag_text(b: bool, c: char) -> Seq<char> {
    if b {
        seq![c]
    } else {
        Seq::empty()
    }
}

/// The letters of a set of ordering flags: device input, device output, memory reads, memory
/// writes.
pub open spec fn flags_text(i: bool, o: bool, r: bool, w: bool) -> Seq<char> {
    flag_text(i, 'I') + flag_text(o, 'O') + flag_text(r, 'R') + flag_text(w, 'W')
}

/// FENCE instruction.
#[derive(Clone, Copy, Debug, PartialEq, Eq, Structural, Hash)]
pub struct FenceInstruction {
    /// The fence mode.
    pub mode: FenceMode,
    /// Predecessor device input.
    pub pi: bool,
    /// Predecessor device output.
    pub po: bool,
    /// Predecessor memory reads.
    pub pr: bool,
    /// Predecessor memory writes.
    pub pw: bool,
    /// Successor device input.
    pub si: bool,
    /// Successor device output.
    pub so: bool,
    /// Successor memory reads.
    pub sr: bool,
    /// Successor memory writes.
    pub sw: bool,
}

impl FenceInstruction {
    /// The register values after execution, and the outcome: nothing changes.
    pub open spec fn spec_execute(&self, regs: Seq<i32>) -> (Seq<i32>, Result<InstructionResult, ProcessorException>) {
        (regs, Ok(no_effect()))
    }

    /// The assembly-like text of the instruction: the mnemonic; a space when any flag is set;
    /// the predecessor flags followed by a comma when there are any; then the successor flags.
    pub open spec fn spec_format(&self) -> Seq<char> {
        let pred = flags_text(self.pi, self.po, self.pr, self.pw);
        let succ = flags_text(self.si, self.so, self.sr, self.sw);
        (match self.mode {
            FenceMode::Normal => "fence"@,
            FenceMode::TSO => "fence.tso"@,
        }) + (if pred.len() > 0 {
            " "@ + pred + ", "@
        } else if succ.len() > 0 {
            " "@
        } else {
            Seq::empty()
        }) + succ
    }

    /// The instruction that the parts of a word decode to, or the reason they are illegal.
    pub open spec fn spec_new(instruction: InstructionWordParts) -> Result<Self, ProcessorException> {
        (match spec_fence_mode(instruction.raw) {
            Some(mode) => Ok(FenceInstruction {
                mode,
                pi: instruction.raw & 0x08000000 != 0,
                po: instruction.raw & 0x04000000 != 0,
                pr: instruction.raw & 0x02000000 != 0,
                pw: instruction.raw & 0x01000000 != 0,
                si: instruction.raw & 0x00800000 != 0,
                so: instruction.raw & 0x00400000 != 0,
                sr: instruction.raw & 0x00200000 != 0,
                sw: instruction.raw & 0x00100000 != 0,
            }),
            None => Err(ProcessorException::IllegalInstruction),
        })
    }

    /// Create the instruction from the parts of its word; the top four bits must select a mode.
    pub fn new(instruction: &InstructionWordParts) -> (r: Result<Self, ProcessorException>)
        ensures
            r == Self::spec_new(*instruction),
    {
        let raw = instruction.raw;
        let mode = match ((raw >> 28) as u8) & 0xf {
            0 => FenceMode::Normal,
            8 => FenceMode::TSO,
            _ => return Err(ProcessorException::IllegalInstruction),
        };
        Ok(FenceInstruction {
            mode,
            pi: raw & 0x08000000 != 0,
            po: raw & 0x04000000 != 0,
            pr: raw & 0x02000000 != 0,
            pw: raw & 0x01000000 != 0,
            si: raw & 0x00800000 != 0,
            so: raw & 0x00400000 != 0,
            sr: raw & 0x00200000 != 0,
            sw: raw & 0x00100000 != 0,
        })
    }

    /// Execute the instruction: a no-op, since memory accesses are never reordered.
    pub fn execute(&self, _registers: &mut RegisterFile, _mem: i32) -> (r: Result<InstructionResult, ProcessorException>)
        ensures
            r == self.spec_execute(old(_registers)@).1,
            *final(_registers) == *old(_registers),
    {
        Ok(InstructionResult::default())
    }

    /// Render the instruction as assembly-like text.
    pub fn format(&self) -> (r: String)
        ensures
            r@ == self.spec_format(),
    {
        let mut s = match self.mode {
            FenceMode::Normal => String::from_str("fence"),
            FenceMode::TSO => String::from_str("fence.tso"),
        };
        let ghost mnemonic = s@;
        let ghost pred = flags_text(self.pi, self.po, self.pr, self.pw);
        if self.pi || self.po || self.pr || self.pw {
            s.append(" ");
            push_flags(&mut s, self.pi, self.po, self.pr, self.pw);
            s.append(", ");
            assert(s@ =~= mnemonic + (" "@ + pred + ", "@));
        } else if self.si || self.so || self.sr || self.sw {
            s.append(" ");
            assert(pred.len() == 0);
            assert(flags_text(self.si, self.so, self.sr, self.sw).len() > 0) by {
                flags_nonempty(self.si, self.so, self.sr, self.sw);
            }
        } else {
            assert(pred.len() == 0);
            assert(flags_text(self.si, self.so, self.sr, self.sw).len() == 0) by {
                flags_nonempty(self.si, self.so, self.sr, self.sw);
            }
            assert(s@ =~= mnemonic + Seq::<char>::empty());
        }
        push_flags(&mut s, self.si, self.so, self.sr, self.sw);
        s
    }
}

/// A set of ordering flags has letters exactly when one of them is set.
proof fn flags_nonempty(i: bool, o: bool, r: bool, w: bool)
    ensures
        flags_text(i, o, r, w).len() > 0 <==> (i || o || r || w),
{
}

/// Append the letters of a set of ordering flags.
fn push_flags(s: &mut String, i: bool, o: bool, r: bool, w: bool)
    ensures
        final(s)@ == old(s)@ + flags_text(i, o, r, w),
        flags_text(i, o, r, w).len() > 0 <==> (i || o || r || w),
{
    proof {
        reveal_strlit("I");
        reveal_strlit("O");
        reveal_strlit("R");
        reveal_strlit("W");
    }
    let ghost start = s@;
    if i {
        s.append("I");
    }
    if o {
        s.append("O");
    }
    if r {
        s.append("R");
    }
    if w {
        s.append("W");
    }
    assert(s@ =~= start + flags_text(i, o, r, w));
}

} // verus!
