//! Verified core of `buf`, the bootable USB flasher: the parsing of block
//! sizes and offsets, the confirmation answer, the arguments handed to an
//! elevated relaunch, human-readable byte counts and the state machine of
//! the flashing window.

use vstd::prelude::*;

pub mod text;
pub mod size;
pub mod cli;
pub mod list;
pub mod gui;
pub mod privilege;

verus! {

/// What a write needs: the image, the device, the block size and the byte
/// offset into the device at which writing starts.
#[derive(Debug)]
pub struct WriteParams {
    pub source: String,
    pub target: String,
    pub block_size: usize,
    pub offset: u64,
}

/// A write request as values.
pub struct WriteRequest {
    pub source: Seq<char>,
    pub target: Seq<char>,
    pub block_size: usize,
    pub offset: u64,
}

impl View for WriteParams {
    type V = WriteRequest;

    open spec fn view(&self) -> WriteRequest {
        WriteRequest {
            source: self.source@,
            target: self.target@,
            block_size: self.block_size,
            offset: self.offset,
        }
    }
}

impl WriteParams {
    /// An equal copy of these parameters.
    pub fn duplicate(&self) -> (p: WriteParams)
        ensures
            p@ == self@,
    {
        WriteParams {
            source: self.source.clone(),
            target: self.target.clone(),
            block_size: self.block_size,
            offset: self.offset,
        }
    }
}

} // verus!
