//! One turn of the main loop: the input events that are looked at, and the
//! calls that draw the frame.

use vstd::prelude::*;
use crate::buffer::Buffer;
use crate::command::Command;
use crate::glenum::{
    COLOR_BUFFER_BIT, DEPTH_BUFFER_BIT, SHADER_STORAGE_BUFFER, TRIANGLES, UNIFORM_BUFFER,
};
use crate::shader::ShaderProgram;

verus! {

/// The scancode of the escape key.
pub const SCANCODE_ESCAPE: i32 = 41;

/// Number of vertices that a frame draws.
pub const VERTEX_COUNT: i32 = 3;

/// An input event, by what the loop reads of it.
#[derive(Clone, Copy, Debug, PartialEq, Eq, Structural)]
pub enum Event {
    /// The user asked the program to end.
    Quit,
    /// Something happened to the window; `resized` when its size changed.
    Window { resized: bool },
    /// A key went down; its scancode where the key has one.
    KeyDown { scancode: Option<i32> },
    /// Anything else.
    Other,
}

/// What the loop does on an event.
#[derive(Clone, Copy, Debug, PartialEq, Eq, Structural)]
pub enum Reaction {
    /// Leave the loop at once.
    Leave,
    /// Fit the viewport to the window's new size.
    Resize,
    /// Go on to the next event.
    Nothing,
}

/// The loop leaves on a quit request and on the escape key, resizes on a
/// change of the window's size, and looks at nothing else.
pub open spec fn reaction_to(event: Event) -> Reaction {
    match event {
        Event::Quit => Reaction::Leave,
        Event::Window { resized } => if resized {
            Reaction::Resize
        } else {
            Reaction::Nothing
        },
        Event::KeyDown { scancode } => if scancode == Some(SCANCODE_ESCAPE) {
            Reaction::Leave
        } else {
            Reaction::Nothing
        },
        Event::Other => Reaction::Nothing,
    }
}

/// What the loop does on `event`.
pub fn react(event: Event) -> (reaction: Reaction)
    ensures
        reaction == reaction_to(event),
{
    match event {
        Event::Quit => Reaction::Leave,
        Event::Window { resized } => if resized {
            Reaction::Resize
        } else {
            Reaction::Nothing
        },
        Event::KeyDown { scancode } => match scancode {
            Some(code) => if code == SCANCODE_ESCAPE {
                Reaction::Leave
            } else {
                Reaction::Nothing
            },
            None => Reaction::Nothing,
        },
        Event::Other => Reaction::Nothing,
    }
}

/// The position of the first event that makes the loop leave, or the number
/// of events where there is none.
pub open spec fn first_leave(events: Seq<Event>) -> int
    decreases events.len(),
{
    if events.len() == 0 {
        0
    } else if reaction_to(events[0]) == Reaction::Leave {
        0
    } else {
        1 + first_leave(events.drop_first())
    }
}

/// The number of events that call for a resize.
pub open spec fn resize_count(events: Seq<Event>) -> int
    decreases events.len(),
{
    if events.len() == 0 {
        0
    } else {
        resize_count(events.drop_last()) + if reaction_to(events.last()) == Reaction::Resize {
            1int
        } else {
            0int
        }
    }
}

/// What a turn of the loop has made of its pending events.
#[derive(Clone, Copy, Debug, PartialEq, Eq, Structural)]
pub struct Polled {
    /// The loop ends, and this turn draws nothing.
    pub leave: bool,
    /// How many events were looked at.
    pub seen: usize,
    /// How many of them called for a resize.
    pub resizes: usize,
}

/// Looks at the pending events in order, up to and including the first that
/// makes the loop leave.
pub fn poll_events(events: &[Event]) -> (polled: Polled)
    ensures
        polled.leave <==> first_leave(events@) < events@.len(),
        polled.leave ==> polled.seen == first_leave(events@) + 1,
        !polled.leave ==> polled.seen == events@.len(),
        polled.resizes == resize_count(events@.take(first_leave(events@))),
{
    let mut resizes: usize = 0;
    let mut at: usize = 0;
    proof {
        lemma_first_leave(events@);
    }
    while at < events.len()
        invariant
            at <= events@.len(),
            at <= first_leave(events@),
            resizes <= at,
            resizes == resize_count(events@.take(at as int)),
        decreases events@.len() - at,
    {
        let reaction = react(events[at]);
        proof {
            lemma_first_leave(events@);
            assert(events@.take(at + 1).drop_last() =~= events@.take(at as int));
        }
        match reaction {
            Reaction::Leave => {
                return Polled { leave: true, seen: at + 1, resizes };
            },
            Reaction::Resize => {
                resizes = resizes + 1;
            },
            Reaction::Nothing => {},
        }
        at = at + 1;
    }
    Polled { leave: false, seen: at, resizes }
}

/// `first_leave` is the least position of an event that makes the loop leave.
pub proof fn lemma_first_leave(events: Seq<Event>)
    ensures
        0 <= first_leave(events) <= events.len(),
        first_leave(events) < events.len() ==> reaction_to(events[first_leave(events)])
            == Reaction::Leave,
        forall|i: int|
            0 <= i < first_leave(events) ==> reaction_to(#[trigger] events[i]) != Reaction::Leave,
    decreases events.len(),
{
    if events.len() > 0 && reaction_to(events[0]) != Reaction::Leave {
        let rest = events.drop_first();
        lemma_first_leave(rest);
        assert forall|i: int| 0 <= i < first_leave(events) implies reaction_to(
            #[trigger] events[i],
        ) != Reaction::Leave by {
            if i > 0 {
                assert(events[i] == rest[i - 1]);
            }
        }
    }
}

/// The calls that draw one frame: clear colour and depth, make `shader`
/// active, bind `uniforms` and `vertices` to slot 0 of their targets, and draw
/// the triangle.
pub open spec fn frame_calls(shader: u32, uniforms: u32, vertices: u32) -> Seq<Command> {
    seq![
        Command::Clear { mask: COLOR_BUFFER_BIT | DEPTH_BUFFER_BIT },
        Command::UseProgram { program: shader },
        Command::BindBufferBase { target: UNIFORM_BUFFER, index: 0, buffer: uniforms },
        Command::BindBufferBase { target: SHADER_STORAGE_BUFFER, index: 0, buffer: vertices },
        Command::DrawArrays { mode: TRIANGLES, first: 0, count: VERTEX_COUNT },
    ]
}

/// The calls that a turn of the loop makes once its events are polled: none
/// when the loop leaves, those of one frame otherwise.
pub fn draw_frame(
    polled: &Polled,
    shader: &ShaderProgram,
    uniforms: &Buffer,
    vertices: &Buffer,
) -> (calls: Vec<Command>)
    ensures
        polled.leave ==> calls@.len() == 0,
        !polled.leave ==> calls@ == frame_calls(shader@, uniforms@, vertices@),
{
    let mut calls: Vec<Command> = Vec::new();
    if !polled.leave {
        calls.push(Command::Clear { mask: COLOR_BUFFER_BIT | DEPTH_BUFFER_BIT });
        calls.push(shader.bind());
        calls.push(uniforms.bind_to_uniform_binding(0));
        calls.push(vertices.bind_to_shader_storage_binding(0));
        calls.push(Command::DrawArrays { mode: TRIANGLES, first: 0, count: VERTEX_COUNT });
        assert(calls@ =~= frame_calls(shader@, uniforms@, vertices@));
    }
    calls
}

/// The calls of a whole turn on the pending `events`: none when one of them
/// makes the loop leave, those of one frame otherwise.
pub open spec fn turn_calls(events: Seq<Event>, shader: u32, uniforms: u32, vertices: u32) -> Seq<
    Command,
> {
    if first_leave(events) < events.len() {
        Seq::empty()
    } else {
        frame_calls(shader, uniforms, vertices)
    }
}

/// One turn of the loop on events that are already at hand: polls them, then
/// draws unless the loop leaves.
pub fn turn(events: &[Event], shader: &ShaderProgram, uniforms: &Buffer, vertices: &Buffer) -> (done:
    (Polled, Vec<Command>))
    ensures
        done.0.leave <==> first_leave(events@) < events@.len(),
        done.0.leave ==> done.0.seen == first_leave(events@) + 1,
        !done.0.leave ==> done.0.seen == events@.len(),
        done.0.resizes == resize_count(events@.take(first_leave(events@))),
        done.1@ == turn_calls(events@, shader@, uniforms@, vertices@),
{
    let polled = poll_events(events);
    let calls = draw_frame(&polled, shader, uniforms, vertices);
    assert(calls@ =~= turn_calls(events@, shader@, uniforms@, vertices@));
    (polled, calls)
}

/// Whether a draw call is among `calls`.
pub open spec fn draws(calls: Seq<Command>) -> bool {
    exists|i: int| 0 <= i < calls.len() && (#[trigger] calls[i]) is DrawArrays
}

/// A turn in which a quit request or the escape key is seen never reaches the
/// draw call, whatever comes before or after it among the events.
pub proof fn lemma_leave_skips_draw(
    events: Seq<Event>,
    at: int,
    shader: u32,
    uniforms: u32,
    vertices: u32,
)
    requires
        0 <= at < events.len(),
        reaction_to(events[at]) == Reaction::Leave,
    ensures
        !draws(turn_calls(events, shader, uniforms, vertices)),
{
    lemma_first_leave(events);
}

/// A turn in which no event makes the loop leave draws, and looks at every event.
pub proof fn lemma_quiet_turn_draws(events: Seq<Event>, shader: u32, uniforms: u32, vertices: u32)
    requires
        forall|i: int| 0 <= i < events.len() ==> reaction_to(#[trigger] events[i]) != Reaction::Leave,
    ensures
        first_leave(events) == events.len(),
        draws(turn_calls(events, shader, uniforms, vertices)),
{
    lemma_first_leave(events);
    assert(frame_calls(shader, uniforms, vertices)[4] is DrawArrays);
}

} // verus!
