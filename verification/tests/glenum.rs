use endesga_time::glenum;
use endesga_time::shader::PROGRAM_LOG_CAPACITY;

#[test]
fn enumerants_are_those_of_the_bindings() {
    assert_eq!(glenum::STREAM_DRAW, gl::STREAM_DRAW);
    assert_eq!(glenum::UNIFORM_BUFFER, gl::UNIFORM_BUFFER);
    assert_eq!(glenum::SHADER_STORAGE_BUFFER, gl::SHADER_STORAGE_BUFFER);
    assert_eq!(glenum::VERTEX_SHADER, gl::VERTEX_SHADER);
    assert_eq!(glenum::FRAGMENT_SHADER, gl::FRAGMENT_SHADER);
    assert_eq!(glenum::COMPUTE_SHADER, gl::COMPUTE_SHADER);
    assert_eq!(glenum::DONT_CARE, gl::DONT_CARE);
    assert_eq!(glenum::DEBUG_OUTPUT_SYNCHRONOUS, gl::DEBUG_OUTPUT_SYNCHRONOUS);
    assert_eq!(glenum::FRAMEBUFFER_SRGB, gl::FRAMEBUFFER_SRGB);
    assert_eq!(glenum::DEPTH_TEST, gl::DEPTH_TEST);
    assert_eq!(glenum::CULL_FACE, gl::CULL_FACE);
    assert_eq!(glenum::CCW, gl::CCW);
    assert_eq!(glenum::BACK, gl::BACK);
}

#[test]
fn debug_enumerants_are_those_of_the_bindings() {
    assert_eq!(glenum::DEBUG_SOURCE_API, gl::DEBUG_SOURCE_API);
    assert_eq!(glenum::DEBUG_SOURCE_WINDOW_SYSTEM, gl::DEBUG_SOURCE_WINDOW_SYSTEM);
    assert_eq!(glenum::DEBUG_SOURCE_SHADER_COMPILER, gl::DEBUG_SOURCE_SHADER_COMPILER);
    assert_eq!(glenum::DEBUG_SOURCE_THIRD_PARTY, gl::DEBUG_SOURCE_THIRD_PARTY);
    assert_eq!(glenum::DEBUG_SOURCE_APPLICATION, gl::DEBUG_SOURCE_APPLICATION);
    assert_eq!(glenum::DEBUG_SOURCE_OTHER, gl::DEBUG_SOURCE_OTHER);
    assert_eq!(glenum::DEBUG_TYPE_ERROR, gl::DEBUG_TYPE_ERROR);
    assert_eq!(glenum::DEBUG_TYPE_DEPRECATED_BEHAVIOR, gl::DEBUG_TYPE_DEPRECATED_BEHAVIOR);
    assert_eq!(glenum::DEBUG_TYPE_UNDEFINED_BEHAVIOR, gl::DEBUG_TYPE_UNDEFINED_BEHAVIOR);
    assert_eq!(glenum::DEBUG_TYPE_PORTABILITY, gl::DEBUG_TYPE_PORTABILITY);
    assert_eq!(glenum::DEBUG_TYPE_PERFORMANCE, gl::DEBUG_TYPE_PERFORMANCE);
    assert_eq!(glenum::DEBUG_TYPE_OTHER, gl::DEBUG_TYPE_OTHER);
    assert_eq!(glenum::DEBUG_SEVERITY_HIGH, gl::DEBUG_SEVERITY_HIGH);
    assert_eq!(glenum::DEBUG_SEVERITY_MEDIUM, gl::DEBUG_SEVERITY_MEDIUM);
    assert_eq!(glenum::DEBUG_SEVERITY_LOW, gl::DEBUG_SEVERITY_LOW);
    assert_eq!(glenum::DEBUG_SEVERITY_NOTIFICATION, gl::DEBUG_SEVERITY_NOTIFICATION);
}

#[test]
fn frame_enumerants_are_those_of_the_bindings() {
    assert_eq!(glenum::COLOR_BUFFER_BIT, gl::COLOR_BUFFER_BIT);
    assert_eq!(glenum::DEPTH_BUFFER_BIT, gl::DEPTH_BUFFER_BIT);
    assert_eq!(glenum::TRIANGLES, gl::TRIANGLES);
    assert_eq!(PROGRAM_LOG_CAPACITY, 1024);
}
