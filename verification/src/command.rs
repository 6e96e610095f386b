//! Driver calls as plain values.

use vstd::prelude::*;

verus! {

/// One call for the program around this crate to make on the current context.
#[derive(Clone, Copy, Debug, PartialEq, Eq, Structural)]
pub enum Command {
    /// Replace the whole store of `buffer` with `byte_len` bytes, under the hint `usage`.
    BufferData { buffer: u32, byte_len: usize, usage: u32 },
    /// Bind `buffer` to the slot `index` of the indexed target `target`.
    BindBufferBase { target: u32, index: u32, buffer: u32 },
    /// Make `program` the active program.
    UseProgram { program: u32 },
    /// Set the viewport rectangle.
    Viewport { x: i32, y: i32, width: i32, height: i32 },
    /// Clear the buffers that `mask` names.
    Clear { mask: u32 },
    /// Draw `count` vertices from `first` on, unindexed.
    DrawArrays { mode: u32, first: i32, count: i32 },
    /// Route the driver's debug messages to the program's message handler.
    InstallDebugCallback,
    /// Switch a capability on.
    Enable { capability: u32 },
    /// Say which winding order marks a front face.
    FrontFace { winding: u32 },
    /// Say which faces culling removes.
    CullFace { face: u32 },
    /// Switch on or off the debug messages that a filter selects.
    DebugMessageControl { source: u32, kind: u32, severity: u32, enabled: bool },
}

} // verus!
