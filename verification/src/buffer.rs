//! Buffer objects: a handle, and the calls that fill and bind it.

use vstd::prelude::*;
use vstd::layout::{layout_of_slices, size_of};
use crate::command::Command;
use crate::glenum::{SHADER_STORAGE_BUFFER, STREAM_DRAW, UNIFORM_BUFFER};

verus! {

/// The name of a buffer object. The object itself lives in the driver and is
/// never deleted through this type.
#[derive(Copy, Clone, Debug)]
pub struct Buffer(u32);

impl View for Buffer {
    type V = u32;

    /// The handle that the driver gave.
    closed spec fn view(&self) -> u32 {
        self.0
    }
}

impl Buffer {
    /// Takes charge of a handle that the driver has just created.
    pub fn new(handle: u32) -> (buffer: Buffer)
        ensures
            buffer@ == handle,
    {
        Buffer(handle)
    }

    /// The handle, for calls that this type does not describe.
    pub fn handle(&self) -> (handle: u32)
        ensures
            handle == self@,
    {
        self.0
    }

    /// The call that fills the buffer with the single object `data`. The store is
    /// replaced as a whole, so its size afterwards is the size of `T`.
    ///
    /// `T` has to be laid out as the block it is bound for expects.
    pub fn upload<T: Copy>(&mut self, data: &T) -> (call: Command)
        ensures
            final(self)@ == old(self)@,
            call == (Command::BufferData {
                buffer: old(self)@,
                byte_len: size_of::<T>() as usize,
                usage: STREAM_DRAW,
            }),
            call->byte_len == size_of::<T>(),
    {
        let _ = data;
        let byte_len: usize = core::mem::size_of::<T>();
        Command::BufferData { buffer: self.0, byte_len, usage: STREAM_DRAW }
    }

    /// The call that fills the buffer with the objects of `data`. The store is
    /// replaced as a whole, so its size afterwards is the number of objects
    /// times the size of one.
    ///
    /// `T` has to be laid out as the block it is bound for expects.
    pub fn upload_slice<T: Copy>(&mut self, data: &[T]) -> (call: Command)
        ensures
            final(self)@ == old(self)@,
            call == (Command::BufferData {
                buffer: old(self)@,
                byte_len: (data@.len() * size_of::<T>()) as usize,
                usage: STREAM_DRAW,
            }),
            call->byte_len == data@.len() * size_of::<T>(),
    {
        broadcast use layout_of_slices;
        let byte_len: usize = core::mem::size_of_val(data);
        Command::BufferData { buffer: self.0, byte_len, usage: STREAM_DRAW }
    }

    /// The call that binds this buffer to `uniform` blocks declared with
    /// `layout(binding = binding)`.
    pub fn bind_to_uniform_binding(&self, binding: u32) -> (call: Command)
        ensures
            call == (Command::BindBufferBase {
                target: UNIFORM_BUFFER,
                index: binding,
                buffer: self@,
            }),
    {
        Command::BindBufferBase { target: UNIFORM_BUFFER, index: binding, buffer: self.0 }
    }

    /// The call that binds this buffer to `buffer` blocks declared with
    /// `layout(binding = binding)`.
    pub fn bind_to_shader_storage_binding(&self, binding: u32) -> (call: Command)
        ensures
            call == (Command::BindBufferBase {
                target: SHADER_STORAGE_BUFFER,
                index: binding,
                buffer: self@,
            }),
    {
        Command::BindBufferBase { target: SHADER_STORAGE_BUFFER, index: binding, buffer: self.0 }
    }
}

} // verus!
