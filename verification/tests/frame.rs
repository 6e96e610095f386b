use endesga_time::buffer::Buffer;
use endesga_time::command::Command;
use endesga_time::frame::{
    draw_frame, poll_events, react, turn, Event, Polled, Reaction, SCANCODE_ESCAPE, VERTEX_COUNT,
};
use endesga_time::glenum::{COLOR_BUFFER_BIT, DEPTH_BUFFER_BIT, TRIANGLES};
use endesga_time::shader::{compile_shaders, CompileEvent, ShaderProgram, Step};
use endesga_time::window::{DrawableSize, Profile, WindowSettings};

fn program(handle: u32) -> ShaderProgram {
    let mut job = compile_shaders(Vec::new());
    assert!(matches!(job.step(CompileEvent::ProgramCreated { program: handle }), Step::Continue));
    match job.step(CompileEvent::ProgramLinked { status: 1 }) {
        Step::Done(Ok(program)) => program,
        _ => panic!("the program links"),
    }
}

fn frame(shader: u32, uniforms: u32, vertices: u32) -> Vec<Command> {
    vec![
        Command::Clear { mask: 0x4100 },
        Command::UseProgram { program: shader },
        Command::BindBufferBase { target: 0x8A11, index: 0, buffer: uniforms },
        Command::BindBufferBase { target: 0x90D2, index: 0, buffer: vertices },
        Command::DrawArrays { mode: 4, first: 0, count: 3 },
    ]
}

#[test]
fn loop_reacts_to_quit_escape_and_resize_only() {
    assert_eq!(react(Event::Quit), Reaction::Leave);
    assert_eq!(react(Event::KeyDown { scancode: Some(SCANCODE_ESCAPE) }), Reaction::Leave);
    assert_eq!(react(Event::KeyDown { scancode: Some(41) }), Reaction::Leave);
    assert_eq!(react(Event::KeyDown { scancode: Some(40) }), Reaction::Nothing);
    assert_eq!(react(Event::KeyDown { scancode: None }), Reaction::Nothing);
    assert_eq!(react(Event::Window { resized: true }), Reaction::Resize);
    assert_eq!(react(Event::Window { resized: false }), Reaction::Nothing);
    assert_eq!(react(Event::Other), Reaction::Nothing);
}

#[test]
fn polling_stops_at_the_first_leave() {
    let events = [
        Event::Window { resized: true },
        Event::Other,
        Event::Window { resized: true },
        Event::Quit,
        Event::Window { resized: true },
        Event::KeyDown { scancode: Some(SCANCODE_ESCAPE) },
    ];
    assert_eq!(poll_events(&events), Polled { leave: true, seen: 4, resizes: 2 });
    assert_eq!(poll_events(&events[..3]), Polled { leave: false, seen: 3, resizes: 2 });
    assert_eq!(poll_events(&events[4..]), Polled { leave: true, seen: 2, resizes: 1 });
    assert_eq!(poll_events(&[]), Polled { leave: false, seen: 0, resizes: 0 });
    assert_eq!(poll_events(&[Event::Quit]), Polled { leave: true, seen: 1, resizes: 0 });
}

#[test]
fn quit_or_escape_never_reaches_the_draw_call() {
    let shader = program(5);
    let uniforms = Buffer::new(6);
    let vertices = Buffer::new(7);
    for leave in [Event::Quit, Event::KeyDown { scancode: Some(SCANCODE_ESCAPE) }] {
        for events in [
            vec![leave],
            vec![Event::Other, leave],
            vec![leave, Event::Other, Event::Window { resized: true }],
            vec![Event::Window { resized: true }, leave, leave],
        ] {
            let (polled, calls) = turn(&events, &shader, &uniforms, &vertices);
            assert!(polled.leave);
            assert!(calls.is_empty());
        }
    }
}

#[test]
fn quiet_turn_draws_one_frame() {
    let shader = program(5);
    let uniforms = Buffer::new(6);
    let vertices = Buffer::new(7);
    let events = [Event::Other, Event::Window { resized: true }, Event::KeyDown { scancode: Some(4) }];
    let (polled, calls) = turn(&events, &shader, &uniforms, &vertices);
    assert_eq!(polled, Polled { leave: false, seen: 3, resizes: 1 });
    assert_eq!(calls, frame(5, 6, 7));
    let (polled, calls) = turn(&[], &shader, &uniforms, &vertices);
    assert_eq!(polled, Polled { leave: false, seen: 0, resizes: 0 });
    assert_eq!(calls, frame(5, 6, 7));
}

#[test]
fn draw_frame_follows_the_poll() {
    let shader = program(1);
    let uniforms = Buffer::new(2);
    let vertices = Buffer::new(3);
    let leaving = Polled { leave: true, seen: 1, resizes: 0 };
    assert!(draw_frame(&leaving, &shader, &uniforms, &vertices).is_empty());
    let staying = Polled { leave: false, seen: 0, resizes: 0 };
    assert_eq!(draw_frame(&staying, &shader, &uniforms, &vertices), frame(1, 2, 3));
}

#[test]
fn frame_constants_are_the_drivers() {
    assert_eq!(COLOR_BUFFER_BIT, 0x4000);
    assert_eq!(DEPTH_BUFFER_BIT, 0x0100);
    assert_eq!(TRIANGLES, 4);
    assert_eq!(VERTEX_COUNT, 3);
    assert_eq!(SCANCODE_ESCAPE, 41);
}

#[test]
fn standard_window_settings() {
    let settings = WindowSettings::standard();
    assert_eq!(settings.title, "endesga-time");
    assert_eq!((settings.width, settings.height), (1366, 768));
    assert!(settings.centered);
    assert!(settings.resizable);
    assert_eq!(settings.profile, Profile::Core);
    assert_eq!((settings.version_major, settings.version_minor), (4, 5));
    assert!(settings.debug_context);
    assert!(settings.srgb_framebuffer);
    assert_eq!(settings.stencil_bits, 8);
}

#[test]
fn viewport_covers_the_drawable() {
    let size = DrawableSize { width: 1366, height: 768 };
    assert_eq!(size.on_resize(), Command::Viewport { x: 0, y: 0, width: 1366, height: 768 });
    let none = DrawableSize { width: 0, height: 0 };
    assert_eq!(none.on_resize(), Command::Viewport { x: 0, y: 0, width: 0, height: 0 });
    let largest = DrawableSize { width: i32::MAX as u32, height: 1 };
    assert_eq!(largest.on_resize(), Command::Viewport { x: 0, y: 0, width: i32::MAX, height: 1 });
}

#[test]
fn viewport_extent_beyond_the_signed_range_keeps_its_low_bits() {
    let size = DrawableSize { width: u32::MAX, height: 0x8000_0000 };
    assert_eq!(size.on_resize(), Command::Viewport { x: 0, y: 0, width: -1, height: i32::MIN });
}

#[test]
fn aspect_terms_after_a_resize_are_the_new_size() {
    let before = DrawableSize { width: 1366, height: 768 };
    let after = DrawableSize { width: 800, height: 600 };
    assert_eq!(before.aspect(), (1366, 768));
    assert_eq!(after.aspect(), (800, 600));
    let (width, height) = after.aspect();
    assert_eq!(width as f32 / height as f32, 800.0f32 / 600.0f32);
}
