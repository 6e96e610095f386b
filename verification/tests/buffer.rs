use endesga_time::buffer::Buffer;
use endesga_time::command::Command;
use endesga_time::glenum::{SHADER_STORAGE_BUFFER, STREAM_DRAW, UNIFORM_BUFFER};

#[derive(Clone, Copy)]
struct Record {
    _position: [u32; 3],
    _pad: u32,
    _colour: [u32; 3],
    _pad2: u32,
}

fn record() -> Record {
    Record { _position: [1, 2, 3], _pad: 0, _colour: [4, 5, 6], _pad2: 0 }
}

#[test]
fn upload_of_one_object_has_its_size() {
    let mut buffer = Buffer::new(4);
    assert_eq!(
        buffer.upload(&record()),
        Command::BufferData { buffer: 4, byte_len: 32, usage: STREAM_DRAW }
    );
    assert_eq!(
        buffer.upload(&[0u64; 16]),
        Command::BufferData { buffer: 4, byte_len: 128, usage: STREAM_DRAW }
    );
    assert_eq!(buffer.handle(), 4);
}

#[test]
fn upload_of_a_slice_is_count_times_record_size() {
    let mut buffer = Buffer::new(9);
    let three = [record(), record(), record()];
    assert_eq!(
        buffer.upload_slice(&three),
        Command::BufferData { buffer: 9, byte_len: 96, usage: STREAM_DRAW }
    );
    let many = vec![record(); 1000];
    assert_eq!(
        buffer.upload_slice(&many),
        Command::BufferData { buffer: 9, byte_len: 32000, usage: STREAM_DRAW }
    );
    assert_eq!(buffer.handle(), 9);
}

#[test]
fn upload_of_an_empty_slice_is_empty() {
    let mut buffer = Buffer::new(1);
    let none: [Record; 0] = [];
    assert_eq!(
        buffer.upload_slice(&none),
        Command::BufferData { buffer: 1, byte_len: 0, usage: STREAM_DRAW }
    );
}

#[test]
fn upload_of_bytes_counts_bytes() {
    let mut buffer = Buffer::new(2);
    assert_eq!(
        buffer.upload_slice(b"hello"),
        Command::BufferData { buffer: 2, byte_len: 5, usage: STREAM_DRAW }
    );
    assert_eq!(buffer.upload(&7u8), Command::BufferData { buffer: 2, byte_len: 1, usage: STREAM_DRAW });
}

#[test]
fn bindings_name_target_slot_and_buffer() {
    let buffer = Buffer::new(12);
    assert_eq!(
        buffer.bind_to_uniform_binding(0),
        Command::BindBufferBase { target: UNIFORM_BUFFER, index: 0, buffer: 12 }
    );
    assert_eq!(
        buffer.bind_to_shader_storage_binding(3),
        Command::BindBufferBase { target: SHADER_STORAGE_BUFFER, index: 3, buffer: 12 }
    );
    assert_eq!(UNIFORM_BUFFER, 0x8A11);
    assert_eq!(SHADER_STORAGE_BUFFER, 0x90D2);
    assert_eq!(STREAM_DRAW, 0x88E0);
}
