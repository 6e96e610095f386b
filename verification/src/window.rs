//! The window's fixed attributes, and what follows from its drawable size.

use vstd::prelude::*;
use crate::command::Command;

verus! {

/// The profile of the context that is asked for.
#[derive(Clone, Copy, Debug, PartialEq, Eq, Structural)]
pub enum Profile {
    Core,
    Compatibility,
}

/// What the window and its context are created with.
#[derive(Clone, Copy, Debug)]
pub struct WindowSettings {
    pub title: &'static str,
    pub width: u32,
    pub height: u32,
    pub centered: bool,
    pub resizable: bool,
    pub profile: Profile,
    pub version_major: u8,
    pub version_minor: u8,
    pub debug_context: bool,
    pub srgb_framebuffer: bool,
    pub stencil_bits: u8,
}

impl WindowSettings {
    /// The renderer's window: 1366 by 768, centred and resizable, with a
    /// debug context of the 4.5 core profile, an sRGB-capable framebuffer
    /// and eight bits of stencil.
    pub fn standard() -> (settings: WindowSettings)
        ensures
            settings.title@ == "endesga-time"@,
            settings.width == 1366,
            settings.height == 768,
            settings.centered,
            settings.resizable,
            settings.profile == Profile::Core,
            settings.version_major == 4,
            settings.version_minor == 5,
            settings.debug_context,
            settings.srgb_framebuffer,
            settings.stencil_bits == 8,
    {
        WindowSettings {
            title: "endesga-time",
            width: 1366,
            height: 768,
            centered: true,
            resizable: true,
            profile: Profile::Core,
            version_major: 4,
            version_minor: 5,
            debug_context: true,
            srgb_framebuffer: true,
            stencil_bits: 8,
        }
    }
}

/// The size in pixels of what the window draws into.
#[derive(Clone, Copy, Debug, PartialEq, Eq, Structural)]
pub struct DrawableSize {
    pub width: u32,
    pub height: u32,
}

impl DrawableSize {
    /// The call that makes the viewport cover the whole drawable. The driver
    /// takes signed extents: one beyond `i32::MAX` keeps its low 32 bits.
    pub fn on_resize(&self) -> (call: Command)
        ensures
            call == (Command::Viewport {
                x: 0,
                y: 0,
                width: self.width as i32,
                height: self.height as i32,
            }),
            self.width <= i32::MAX ==> call->width == self.width,
            self.height <= i32::MAX ==> call->height == self.height,
    {
        let width: i32 = #[verifier::truncate]
        (self.width as i32);
        let height: i32 = #[verifier::truncate]
        (self.height as i32);
        Command::Viewport { x: 0, y: 0, width, height }
    }

    /// The two terms of the aspect ratio, width over height.
    pub fn aspect(&self) -> (terms: (u32, u32))
        ensures
            terms == (self.width, self.height),
    {
        (self.width, self.height)
    }
}

} // verus!
