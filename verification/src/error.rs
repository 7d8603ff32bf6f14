//! The conditions that stop a load or a step.

use vstd::prelude::*;

verus! {

/// A condition that the interpreter reports to its embedder.
#[derive(Debug, Clone, Copy, PartialEq, Eq, Structural)]
pub enum CpuError {
    /// A program image would reach into the vector area at 0xFFFA.
    LoadOversize,
    /// A push found no room left in page one.
    StackOverflow,
    /// A pop found page one empty.
    StackUnderflow,
    /// The processor ran into KIL and stays halted until it is reset.
    KilEncountered,
}

impl CpuError {
    /// A short description of the condition.
    pub fn message(&self) -> (text: &'static str)
        ensures
            text@ == self.message_text(),
    {
        match self {
            CpuError::LoadOversize => "Executable does not fit below the vectors",
            CpuError::StackOverflow => "Stack overflow",
            CpuError::StackUnderflow => "Stack underflow",
            CpuError::KilEncountered => "Processor halted by KIL",
        }
    }

    /// A short description of the condition, as text.
    pub open spec fn message_text(self) -> Seq<char> {
        match self {
            CpuError::LoadOversize => "Executable does not fit below the vectors"@,
            CpuError::StackOverflow => "Stack overflow"@,
            CpuError::StackUnderflow => "Stack underflow"@,
            CpuError::KilEncountered => "Processor halted by KIL"@,
        }
    }
}

} // verus!
