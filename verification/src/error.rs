use vstd::prelude::*;

verus! {

/// The one failure of the machine: an opcode that the dispatch table has no
/// entry for. It carries the opcode as it was fetched. The run cannot go on
/// after it: the program is corrupt or uses an instruction set that is not
/// supported.
#[derive(Clone, Copy, Debug, PartialEq, Eq, Structural)]
pub struct UnknownInstructionError {
    pub raw_opcode: u16,
}

} // verus!
