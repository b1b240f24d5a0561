//! The faults that end a run. None of them is recovered from: whoever
//! meets one stops, with a message for the operator.
use vstd::prelude::*;

verus! {

/// Why a host file refused an operation.
#[derive(Debug, Clone, Copy, PartialEq, Eq, Structural)]
pub enum HostFault {
    /// The host reported an error.
    Io,
    /// The file cannot grow to the size asked for.
    NoSpace,
}

/// Why a block operation was given up. Each of these ends a run: none is
/// meant to be retried.
#[derive(Debug, Clone, Copy, PartialEq, Eq, Structural)]
pub enum BlockFault {
    /// The buffer does not hold exactly one block.
    BadBufferLength,
    /// The byte offset of the block does not fit the host's offsets.
    OffsetOverflow,
    /// The host could not move to the block.
    SeekFailed,
    /// The host failed while it read or wrote the block.
    TransferFailed,
    /// The host transferred something other than one whole block.
    IncompleteBlock,
    /// The host could not give the image its length.
    ResizeFailed,
}

impl BlockFault {
    /// What an operator is told of this fault.
    pub open spec fn text(self) -> Seq<char> {
        match self {
            BlockFault::BadBufferLength => "Not a block-sized buffer!"@,
            BlockFault::OffsetOverflow => "Block id out of range!"@,
            BlockFault::SeekFailed => "Error when seeking!"@,
            BlockFault::TransferFailed => "Error when transferring a block!"@,
            BlockFault::IncompleteBlock => "Not a complete block!"@,
            BlockFault::ResizeFailed => "Error when sizing the image!"@,
        }
    }

    /// The message with which a run that met this fault ends.
    pub fn message(&self) -> (text: &'static str)
        ensures
            text@ == self.text(),
    {
        match self {
            BlockFault::BadBufferLength => "Not a block-sized buffer!",
            BlockFault::OffsetOverflow => "Block id out of range!",
            BlockFault::SeekFailed => "Error when seeking!",
            BlockFault::TransferFailed => "Error when transferring a block!",
            BlockFault::IncompleteBlock => "Not a complete block!",
            BlockFault::ResizeFailed => "Error when sizing the image!",
        }
    }
}

/// Why a packing run was given up.
#[derive(Debug, Clone, Copy, PartialEq, Eq, Structural)]
pub enum PackFault {
    /// The name of source entry `entry` is not text.
    InvalidName { entry: usize },
    /// The name of source entry `entry` has no `.` in it.
    MissingExtension { entry: usize },
    /// The engine created no file for artifact `entry`.
    CreateRefused { entry: usize },
    /// The host or the engine failed while it carried out an action.
    Host,
    /// The packer was told of something that it had not asked for.
    OutOfTurn,
}

impl PackFault {
    /// What an operator is told of this fault.
    pub open spec fn text(self) -> Seq<char> {
        match self {
            PackFault::InvalidName { .. } => "Source entry name is not valid text!"@,
            PackFault::MissingExtension { .. } => "Source entry name has no extension!"@,
            PackFault::CreateRefused { .. } => "Error when creating a file in the image!"@,
            PackFault::Host => "Error when packing easy-fs!"@,
            PackFault::OutOfTurn => "Packing steps out of order!"@,
        }
    }

    /// The message with which a run that met this fault ends.
    pub fn message(&self) -> (text: &'static str)
        ensures
            text@ == self.text(),
    {
        match self {
            PackFault::InvalidName { .. } => "Source entry name is not valid text!",
            PackFault::MissingExtension { .. } => "Source entry name has no extension!",
            PackFault::CreateRefused { .. } => "Error when creating a file in the image!",
            PackFault::Host => "Error when packing easy-fs!",
            PackFault::OutOfTurn => "Packing steps out of order!",
        }
    }
}

} // verus!
