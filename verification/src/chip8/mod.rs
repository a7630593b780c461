//! The CHIP-8 virtual machine and its SUPER-CHIP and XO-CHIP extensions.
use vstd::prelude::*;

pub mod decoder;
pub mod display;
pub mod instruction;
pub mod machine;
pub mod processor;
pub mod timer;

verus! {

/// Which dialect the machine currently runs.
#[derive(Debug, Clone, Copy, PartialEq, Eq, Default, Structural)]
pub enum Chip8Mode {
    #[default]
    Chip8,
    Chip8x,
    Chip48,
    SuperChip8,
    XoChip,
}

/// Why a snapshot could not be restored.
#[derive(Debug, Clone, Copy, PartialEq, Eq, Structural)]
pub enum SnapshotError {
    /// The snapshot ended before all of the state was read.
    Truncated,
    /// The snapshot holds more return addresses than the stack can.
    StackOverflow,
}

} // verus!
