use vstd::prelude::*;

verus! {

/// A fatal condition met while executing a program. Execution stops at the
/// instruction that raised it; the machine is left as it was before that
/// instruction took effect.
#[derive(Clone, Copy, Debug, PartialEq, Eq, Structural)]
pub enum Fault {
    /// The word at `address` matches no defined instruction.
    UnknownInstruction { opcode: u16, address: u16 },
    /// A subroutine call was made with all sixteen stack slots in use.
    StackOverflow,
    /// A return was made with no call outstanding.
    StackUnderflow,
    /// An instruction fetch, a sprite read, an index-relative load or store,
    /// or a program image would reach outside the 4096 bytes of memory, or
    /// an address no longer fits its sixteen-bit register.
    AddressOutOfRange,
    /// The program counter holds an odd address.
    MisalignedProgramCounter,
    /// A key instruction named a key beyond the sixteen of the keypad.
    KeyOutOfRange,
}

} // verus!
