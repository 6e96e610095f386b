//! The OpenGL enumerants that the renderer hands to, or receives from, the driver.
//! The values are those of the Khronos registry.

use vstd::prelude::*;

verus! {

/// Usage hint for data that is written once and drawn a few times.
pub const STREAM_DRAW: u32 = 0x88E0;

/// Indexed binding target of `uniform` blocks.
pub const UNIFORM_BUFFER: u32 = 0x8A11;

/// Indexed binding target of `buffer` blocks.
pub const SHADER_STORAGE_BUFFER: u32 = 0x90D2;

/// Shader kind: vertex stage.
pub const VERTEX_SHADER: u32 = 0x8B31;

/// Shader kind: fragment stage.
pub const FRAGMENT_SHADER: u32 = 0x8B30;

/// Shader kind: compute stage.
pub const COMPUTE_SHADER: u32 = 0x91B9;

/// Wildcard of a debug message filter.
pub const DONT_CARE: u32 = 0x1100;

pub const DEBUG_SOURCE_API: u32 = 0x8246;

pub const DEBUG_SOURCE_WINDOW_SYSTEM: u32 = 0x8247;

pub const DEBUG_SOURCE_SHADER_COMPILER: u32 = 0x8248;

pub const DEBUG_SOURCE_THIRD_PARTY: u32 = 0x8249;

pub const DEBUG_SOURCE_APPLICATION: u32 = 0x824A;

pub const DEBUG_SOURCE_OTHER: u32 = 0x824B;

pub const DEBUG_TYPE_ERROR: u32 = 0x824C;

pub const DEBUG_TYPE_DEPRECATED_BEHAVIOR: u32 = 0x824D;

pub const DEBUG_TYPE_UNDEFINED_BEHAVIOR: u32 = 0x824E;

pub const DEBUG_TYPE_PORTABILITY: u32 = 0x824F;

pub const DEBUG_TYPE_PERFORMANCE: u32 = 0x8250;

pub const DEBUG_TYPE_OTHER: u32 = 0x8251;

pub const DEBUG_SEVERITY_HIGH: u32 = 0x9146;

pub const DEBUG_SEVERITY_MEDIUM: u32 = 0x9147;

pub const DEBUG_SEVERITY_LOW: u32 = 0x9148;

pub const DEBUG_SEVERITY_NOTIFICATION: u32 = 0x826B;

/// Capability: debug messages are delivered before the offending call returns.
pub const DEBUG_OUTPUT_SYNCHRONOUS: u32 = 0x8242;

/// Capability: writes to an sRGB framebuffer are encoded.
pub const FRAMEBUFFER_SRGB: u32 = 0x8DB9;

/// Capability: fragments are tested against the depth buffer.
pub const DEPTH_TEST: u32 = 0x0B71;

/// Capability: faces are culled by their winding.
pub const CULL_FACE: u32 = 0x0B44;

/// Winding order: counter-clockwise.
pub const CCW: u32 = 0x0901;

/// Face: the one turned away from the viewer.
pub const BACK: u32 = 0x0405;

/// Clear mask bit of the colour buffer.
pub const COLOR_BUFFER_BIT: u32 = 0x4000;

/// Clear mask bit of the depth buffer.
pub const DEPTH_BUFFER_BIT: u32 = 0x0100;

/// Primitive mode: every three vertices make a triangle.
pub const TRIANGLES: u32 = 0x0004;

} // verus!
