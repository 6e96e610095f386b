//! Program objects, and the protocol that compiles and links one.
//!
//! Compiling alternates between driver calls and decisions on what they
//! reported. A [`Compilation`] holds the decisions: it names the call that is
//! due ([`Compilation::action`]), takes what the driver answered
//! ([`Compilation::step`]), and ends with the program or with the first error.

use vstd::prelude::*;
use vstd::slice::slice_subrange;
use vstd::string::{StringExecFns, StringSliceAdditionalSpecFns};
use vstd::utf8::{decode_utf8, encode_utf8, encode_utf8_decode_utf8, valid_utf8};
use crate::command::Command;
use crate::glenum::{COMPUTE_SHADER, FRAGMENT_SHADER, VERTEX_SHADER};
use crate::text::text_of;

verus! {

/// Size of the buffer that a link log is read into.
pub const PROGRAM_LOG_CAPACITY: usize = 1024;

/// The name of a linked program object. The object itself lives in the driver
/// and is never deleted through this type.
#[derive(Copy, Clone, Debug)]
pub struct ShaderProgram(u32);

impl View for ShaderProgram {
    type V = u32;

    /// The handle that the driver gave.
    closed spec fn view(&self) -> u32 {
        self.0
    }
}

/// A stage of a compilation: its place among the stages, and its kind as the
/// driver names it.
#[derive(Clone, Copy, Debug, PartialEq, Eq, Structural)]
pub struct StageId {
    pub index: usize,
    pub kind: u32,
}

/// What a [`CompilationError`] says: the step that failed, the driver's words,
/// and the stage that did not compile where the failure is a stage's.
pub struct ErrorText {
    pub what: Seq<char>,
    pub description: Seq<char>,
    pub stage: Option<StageId>,
}

/// A failure to compile or to link, with the driver's diagnostic.
#[derive(Debug)]
pub struct CompilationError {
    what: String,
    description: String,
    stage: Option<StageId>,
}

impl View for CompilationError {
    type V = ErrorText;

    closed spec fn view(&self) -> ErrorText {
        ErrorText { what: self.what@, description: self.description@, stage: self.stage }
    }
}

impl CompilationError {
    /// The error of the step `what`, with the driver's words `description`. It
    /// names no stage.
    pub fn new(what: &str, description: &str) -> (error: CompilationError)
        ensures
            error@ == (ErrorText { what: what@, description: description@, stage: None }),
    {
        CompilationError {
            what: what.to_owned(),
            description: description.to_owned(),
            stage: None,
        }
    }

    /// The same error, said of `stage`.
    pub fn in_stage(self, stage: StageId) -> (error: CompilationError)
        ensures
            error@ == (ErrorText {
                what: self@.what,
                description: self@.description,
                stage: Some(stage),
            }),
    {
        CompilationError { what: self.what, description: self.description, stage: Some(stage) }
    }

    /// The stage that did not compile; `None` where the link failed.
    pub fn stage(&self) -> (stage: Option<StageId>)
        ensures
            stage == self@.stage,
    {
        self.stage
    }

    /// The step that failed.
    pub fn what(&self) -> (what: &str)
        ensures
            what@ == self@.what,
    {
        self.what.as_str()
    }

    /// The diagnostic that the driver gave.
    pub fn description(&self) -> (description: &str)
        ensures
            description@ == self@.description,
    {
        self.description.as_str()
    }

    /// The error as it is shown: the step and the word "failed" on one line,
    /// the diagnostic on the next.
    pub fn message(&self) -> (text: String)
        ensures
            text@ == self@.what + " failed\n"@ + self@.description + "\n"@,
    {
        let mut text = self.what.clone();
        text.append(" failed\n");
        text.append(self.description.as_str());
        text.append("\n");
        text
    }
}

/// One shader stage to compile: its kind, as the driver names it, and its source.
pub struct Stage {
    pub kind: u32,
    pub source: String,
}

impl View for Stage {
    type V = (u32, Seq<char>);

    open spec fn view(&self) -> (u32, Seq<char>) {
        (self.kind, self.source@)
    }
}

/// Where a compilation stands: the driver call whose answer it waits for.
#[derive(Clone, Copy, Debug, PartialEq, Eq, Structural)]
pub enum Phase {
    CreatingProgram,
    CompilingStage { program: u32, index: usize },
    ReadingShaderLog { shader: u32, index: usize },
    AttachingStage { program: u32, index: usize, shader: u32 },
    Linking { program: u32 },
    ReadingProgramLog { program: u32 },
    Closed,
}

/// The driver work that a compilation asks for next.
#[derive(Clone, Copy, Debug, PartialEq, Eq, Structural)]
pub enum CompileAction {
    /// Create an empty program object.
    CreateProgram,
    /// Create a shader object of `kind`, give it the source of stage `index`,
    /// compile it and query its compile status.
    CompileStage { kind: u32, index: usize },
    /// Query the length of the shader's info log and read that many bytes.
    ReadShaderLog { shader: u32 },
    /// Attach the shader to the program, then flag the shader for deletion.
    AttachStage { program: u32, shader: u32 },
    /// Link the program and query its link status.
    LinkProgram { program: u32 },
    /// Read the program's info log into a buffer of `capacity` bytes.
    ReadProgramLog { program: u32, capacity: usize },
    /// Nothing: the compilation is over.
    Finished,
}

/// What the driver answered to a [`CompileAction`].
#[derive(Debug)]
pub enum CompileEvent {
    ProgramCreated { program: u32 },
    /// `status` is zero when the stage did not compile.
    StageCompiled { shader: u32, status: i32 },
    /// The shader's info log, its terminating zero byte included.
    ShaderLog { buffer: Vec<u8> },
    StageAttached,
    /// `status` is zero when the program did not link.
    ProgramLinked { status: i32 },
    /// The buffer that the log was read into, and the number of bytes that the
    /// driver wrote, not counting the terminating zero byte.
    ProgramLog { buffer: Vec<u8>, written: i32 },
}

/// The views of a sequence of stages.
pub open spec fn stage_views(stages: Seq<Stage>) -> Seq<(u32, Seq<char>)> {
    stages.map_values(|stage: Stage| stage@)
}

/// Whether `event` answers the call that `phase` waits for. A program log has
/// to hold as many bytes as are said to be written.
pub open spec fn accepted(phase: Phase, event: CompileEvent) -> bool {
    match (phase, event) {
        (Phase::CreatingProgram, CompileEvent::ProgramCreated { .. }) => true,
        (Phase::CompilingStage { .. }, CompileEvent::StageCompiled { .. }) => true,
        (Phase::ReadingShaderLog { .. }, CompileEvent::ShaderLog { .. }) => true,
        (Phase::AttachingStage { .. }, CompileEvent::StageAttached) => true,
        (Phase::Linking { .. }, CompileEvent::ProgramLinked { .. }) => true,
        (Phase::ReadingProgramLog { .. }, CompileEvent::ProgramLog { buffer, written }) => 0
            <= written <= buffer@.len(),
        _ => false,
    }
}

/// The phase that follows `phase` on `event`, for a compilation of `count`
/// stages. An answer that is not accepted changes nothing. Stages are compiled
/// and attached in order; the first one that fails ends the compilation once
/// its log is read, and the program is linked only when every stage is
/// attached. A log that is read ends the compilation.
pub open spec fn next_phase(count: nat, phase: Phase, event: CompileEvent) -> Phase {
    if !accepted(phase, event) {
        phase
    } else {
        match (phase, event) {
            (Phase::CreatingProgram, CompileEvent::ProgramCreated { program }) => {
                if count == 0 {
                    Phase::Linking { program }
                } else {
                    Phase::CompilingStage { program, index: 0 }
                }
            },
            (
                Phase::CompilingStage { program, index },
                CompileEvent::StageCompiled { shader, status },
            ) => {
                if status == 0 {
                    Phase::ReadingShaderLog { shader, index }
                } else {
                    Phase::AttachingStage { program, index, shader }
                }
            },
            (Phase::AttachingStage { program, index, .. }, CompileEvent::StageAttached) => {
                if index + 1 < count {
                    Phase::CompilingStage { program, index: (index + 1) as usize }
                } else {
                    Phase::Linking { program }
                }
            },
            (Phase::Linking { program }, CompileEvent::ProgramLinked { status }) => {
                if status == 0 {
                    Phase::ReadingProgramLog { program }
                } else {
                    Phase::Closed
                }
            },
            _ => Phase::Closed,
        }
    }
}

/// The text of a diagnostic: the bytes decoded, or a fixed notice where they
/// are not UTF-8.
pub open spec fn diagnostic(bytes: Seq<u8>) -> Seq<char> {
    if valid_utf8(bytes) {
        decode_utf8(bytes)
    } else {
        "error message invalid utf-8"@
    }
}

/// The bytes of a shader's info log that make up its text: all but the
/// terminating zero byte. A driver that has nothing to say may hand over no
/// byte at all.
pub open spec fn shader_log_text(buffer: Seq<u8>) -> Seq<u8> {
    if buffer.len() == 0 {
        buffer
    } else {
        buffer.drop_last()
    }
}

/// What an accepted answer ends the compilation of `stages` with, if it ends
/// it: the handle of the linked program, or the error of the step that
/// failed. The error of a stage names that stage.
pub open spec fn verdict(stages: Seq<(u32, Seq<char>)>, phase: Phase, event: CompileEvent) -> Option<
    Result<u32, ErrorText>,
> {
    match (phase, event) {
        (Phase::ReadingShaderLog { index, .. }, CompileEvent::ShaderLog { buffer }) => Some(
            Err(
                ErrorText {
                    what: "shader compilation"@,
                    description: diagnostic(shader_log_text(buffer@)),
                    stage: Some(StageId { index, kind: stages[index as int].0 }),
                },
            ),
        ),
        (Phase::Linking { program }, CompileEvent::ProgramLinked { status }) => if status == 0 {
            None
        } else {
            Some(Ok(program))
        },
        (Phase::ReadingProgramLog { .. }, CompileEvent::ProgramLog { buffer, written }) => Some(
            Err(
                ErrorText {
                    what: "shader linking"@,
                    description: diagnostic(buffer@.take(written as int)),
                    stage: None,
                },
            ),
        ),
        _ => None,
    }
}

/// What [`Compilation::step`] says of an answer.
#[derive(Debug)]
pub enum Step {
    /// The answer is not one to the call that was due; nothing has changed.
    Rejected,
    /// The answer is taken, and another call is due.
    Continue,
    /// The answer is taken, and the compilation is over.
    Done(Result<ShaderProgram, CompilationError>),
}

/// What a [`Step`] says.
pub enum StepText {
    Rejected,
    Continue,
    Done(Result<u32, ErrorText>),
}

impl View for Step {
    type V = StepText;

    open spec fn view(&self) -> StepText {
        match *self {
            Step::Rejected => StepText::Rejected,
            Step::Continue => StepText::Continue,
            Step::Done(Ok(program)) => StepText::Done(Ok(program@)),
            Step::Done(Err(error)) => StepText::Done(Err(error@)),
        }
    }
}

/// What is said of `event` when it arrives in `phase` of a compilation of `stages`.
pub open spec fn step_text(
    stages: Seq<(u32, Seq<char>)>,
    phase: Phase,
    event: CompileEvent,
) -> StepText {
    if !accepted(phase, event) {
        StepText::Rejected
    } else {
        match verdict(stages, phase, event) {
            Some(result) => StepText::Done(result),
            None => StepText::Continue,
        }
    }
}

/// The call that is due in `phase`.
pub open spec fn action_in(stages: Seq<(u32, Seq<char>)>, phase: Phase) -> CompileAction {
    match phase {
        Phase::CreatingProgram => CompileAction::CreateProgram,
        Phase::CompilingStage { index, .. } => CompileAction::CompileStage {
            kind: stages[index as int].0,
            index,
        },
        Phase::ReadingShaderLog { shader, .. } => CompileAction::ReadShaderLog { shader },
        Phase::AttachingStage { program, shader, .. } => CompileAction::AttachStage {
            program,
            shader,
        },
        Phase::Linking { program } => CompileAction::LinkProgram { program },
        Phase::ReadingProgramLog { program } => CompileAction::ReadProgramLog {
            program,
            capacity: PROGRAM_LOG_CAPACITY,
        },
        Phase::Closed => CompileAction::Finished,
    }
}

/// A compilation under way: the stages to build, and the phase reached.
pub struct Compilation {
    stages: Vec<Stage>,
    phase: Phase,
}

/// The error of the step `what`, with the diagnostic that `log` holds. It
/// names no stage.
pub fn error_from_log(what: &str, log: &[u8]) -> (error: CompilationError)
    ensures
        error@ == (ErrorText { what: what@, description: diagnostic(log@), stage: None }),
{
    match text_of(log) {
        Some(text) => {
            proof {
                encode_utf8_decode_utf8(text@);
            }
            CompilationError::new(what, text)
        },
        None => CompilationError::new(what, "error message invalid utf-8"),
    }
}

/// Whether a zero byte is among the bytes of `source`. Such a source cannot be
/// handed to the driver, which takes the first zero byte for the end.
pub fn holds_zero_byte(source: &str) -> (yes: bool)
    ensures
        yes == source.spec_bytes().contains(0u8),
{
    let bytes = source.as_bytes();
    let mut at: usize = 0;
    while at < bytes.len()
        invariant
            at <= bytes@.len(),
            bytes@ == source.spec_bytes(),
            forall|i: int| 0 <= i < at ==> bytes@[i] != 0u8,
        decreases bytes@.len() - at,
    {
        if bytes[at] == 0u8 {
            assert(bytes@[at as int] == 0u8);
            return true;
        }
        at = at + 1;
    }
    false
}

/// Starts the compilation of `stages` into one program.
pub fn compile_shaders(stages: Vec<Stage>) -> (job: Compilation)
    ensures
        job.wf(),
        job.stages() == stage_views(stages@),
        job.phase() == Phase::CreatingProgram,
{
    let count: usize = stages.len();
    assert(stage_views(stages@).len() == count);
    Compilation { stages, phase: Phase::CreatingProgram }
}

impl ShaderProgram {
    /// Starts the compilation of a program from vertex and fragment shader
    /// source. A source that holds a zero byte is taken as it is; the compilation
    /// stops short of its stage (see [`Compilation::due_source_holds_zero_byte`]).
    pub fn new_simple(vsrc: &str, fsrc: &str) -> (job: Compilation)
        ensures
            job.wf(),
            job.stages() == seq![(VERTEX_SHADER, vsrc@), (FRAGMENT_SHADER, fsrc@)],
            job.phase() == Phase::CreatingProgram,
    {
        let mut stages: Vec<Stage> = Vec::new();
        stages.push(Stage { kind: VERTEX_SHADER, source: vsrc.to_owned() });
        stages.push(Stage { kind: FRAGMENT_SHADER, source: fsrc.to_owned() });
        let job = compile_shaders(stages);
        assert(job.stages() =~= seq![(VERTEX_SHADER, vsrc@), (FRAGMENT_SHADER, fsrc@)]);
        job
    }

    /// Starts the compilation of a program from compute shader source. A source
    /// that holds a zero byte is taken as it is; the compilation stops short of
    /// its stage (see [`Compilation::due_source_holds_zero_byte`]).
    pub fn new_compute(src: &str) -> (job: Compilation)
        ensures
            job.wf(),
            job.stages() == seq![(COMPUTE_SHADER, src@)],
            job.phase() == Phase::CreatingProgram,
    {
        let mut stages: Vec<Stage> = Vec::new();
        stages.push(Stage { kind: COMPUTE_SHADER, source: src.to_owned() });
        let job = compile_shaders(stages);
        assert(job.stages() =~= seq![(COMPUTE_SHADER, src@)]);
        job
    }

    /// The handle, for calls that this type does not describe.
    pub fn handle(&self) -> (handle: u32)
        ensures
            handle == self@,
    {
        self.0
    }

    /// The call that makes this program the active one.
    pub fn bind(&self) -> (call: Command)
        ensures
            call == (Command::UseProgram { program: self@ }),
    {
        Command::UseProgram { program: self.0 }
    }
}

impl Compilation {
    /// The stages, in the order in which they are compiled.
    pub closed spec fn stages(&self) -> Seq<(u32, Seq<char>)> {
        stage_views(self.stages@)
    }

    /// The phase reached.
    pub closed spec fn phase(&self) -> Phase {
        self.phase
    }

    /// The phase is one that can occur with these stages.
    pub open spec fn wf(&self) -> bool {
        phase_fits(self.stages().len(), self.phase())
    }

    /// The number of stages.
    pub fn stage_count(&self) -> (count: usize)
        ensures
            count == self.stages().len(),
    {
        self.stages.len()
    }

    /// The source of stage `index`.
    pub fn source(&self, index: usize) -> (source: Option<&str>)
        ensures
            index < self.stages().len() ==> source is Some && source->0@ == self.stages()[
                index as int].1,
            index >= self.stages().len() ==> source is None,
    {
        if index < self.stages.len() {
            Some(self.stages[index].source.as_str())
        } else {
            None
        }
    }

    /// The phase reached.
    pub fn current_phase(&self) -> (phase: Phase)
        ensures
            phase == self.phase(),
    {
        self.phase
    }

    /// Whether the stage that is due for compiling has a source that holds a
    /// zero byte.
    pub open spec fn zero_byte_in_due_source(&self) -> bool {
        match self.phase() {
            Phase::CompilingStage { index, .. } => index < self.stages().len() && encode_utf8(
                self.stages()[index as int].1,
            ).contains(0u8),
            _ => false,
        }
    }

    /// Whether the stage that is due for compiling has a source that holds a
    /// zero byte. No call is due then: the compilation cannot go on.
    pub fn due_source_holds_zero_byte(&self) -> (yes: bool)
        requires
            self.wf(),
        ensures
            yes == self.zero_byte_in_due_source(),
    {
        match self.phase {
            Phase::CompilingStage { program: _, index } => holds_zero_byte(
                self.stages[index].source.as_str(),
            ),
            _ => false,
        }
    }

    /// The driver call that is due. A stage whose source holds a zero byte
    /// cannot be compiled, so none is due for it.
    pub fn action(&self) -> (action: CompileAction)
        requires
            self.wf(),
            !self.zero_byte_in_due_source(),
        ensures
            action == action_in(self.stages(), self.phase()),
    {
        match self.phase {
            Phase::CreatingProgram => CompileAction::CreateProgram,
            Phase::CompilingStage { program: _, index } => CompileAction::CompileStage {
                kind: self.stages[index].kind,
                index,
            },
            Phase::ReadingShaderLog { shader, .. } => CompileAction::ReadShaderLog { shader },
            Phase::AttachingStage { program, index: _, shader } => CompileAction::AttachStage {
                program,
                shader,
            },
            Phase::Linking { program } => CompileAction::LinkProgram { program },
            Phase::ReadingProgramLog { program } => CompileAction::ReadProgramLog {
                program,
                capacity: PROGRAM_LOG_CAPACITY,
            },
            Phase::Closed => CompileAction::Finished,
        }
    }

    /// The driver call that is due, where there is one: `None` exactly when
    /// the stage that is due has a source that holds a zero byte.
    pub fn next_action(&self) -> (action: Option<CompileAction>)
        requires
            self.wf(),
        ensures
            action is None <==> self.zero_byte_in_due_source(),
            action is Some ==> action->0 == action_in(self.stages(), self.phase()),
    {
        if self.due_source_holds_zero_byte() {
            None
        } else {
            Some(self.action())
        }
    }

    /// Whether `event` answers the call that is due.
    pub fn accepts(&self, event: &CompileEvent) -> (yes: bool)
        ensures
            yes == accepted(self.phase(), *event),
    {
        match self.phase {
            Phase::CreatingProgram => match event {
                CompileEvent::ProgramCreated { .. } => true,
                _ => false,
            },
            Phase::CompilingStage { .. } => match event {
                CompileEvent::StageCompiled { .. } => true,
                _ => false,
            },
            Phase::ReadingShaderLog { .. } => match event {
                CompileEvent::ShaderLog { .. } => true,
                _ => false,
            },
            Phase::AttachingStage { .. } => match event {
                CompileEvent::StageAttached => true,
                _ => false,
            },
            Phase::Linking { .. } => match event {
                CompileEvent::ProgramLinked { .. } => true,
                _ => false,
            },
            Phase::ReadingProgramLog { .. } => match event {
                CompileEvent::ProgramLog { buffer, written } => *written >= 0 && (
                *written as usize) <= buffer.len(),
                _ => false,
            },
            Phase::Closed => false,
        }
    }

    /// Takes the driver's answer to the call that is due, and moves on. An
    /// answer to another call, or a program log shorter than what is said to
    /// be written, is rejected and changes nothing. The compilation is over
    /// when the program has linked, or when the log of a stage or of the link
    /// that failed is read.
    pub fn step(&mut self, event: CompileEvent) -> (step: Step)
        requires
            old(self).wf(),
        ensures
            final(self).wf(),
            final(self).stages() == old(self).stages(),
            final(self).phase() == next_phase(old(self).stages().len(), old(self).phase(), event),
            step@ == step_text(old(self).stages(), old(self).phase(), event),
    {
        let count: usize = self.stages.len();
        match self.phase {
            Phase::CreatingProgram => match event {
                CompileEvent::ProgramCreated { program } => {
                    if count == 0 {
                        self.phase = Phase::Linking { program };
                    } else {
                        self.phase = Phase::CompilingStage { program, index: 0 };
                    }
                    Step::Continue
                },
                _ => Step::Rejected,
            },
            Phase::CompilingStage { program, index } => match event {
                CompileEvent::StageCompiled { shader, status } => {
                    if status == 0 {
                        self.phase = Phase::ReadingShaderLog { shader, index };
                    } else {
                        self.phase = Phase::AttachingStage { program, index, shader };
                    }
                    Step::Continue
                },
                _ => Step::Rejected,
            },
            Phase::ReadingShaderLog { shader: _, index } => match event {
                CompileEvent::ShaderLog { buffer } => {
                    let end: usize = if buffer.len() == 0 {
                        0
                    } else {
                        buffer.len() - 1
                    };
                    let log = slice_subrange(buffer.as_slice(), 0, end);
                    assert(log@ =~= shader_log_text(buffer@));
                    let stage = StageId { index, kind: self.stages[index].kind };
                    self.phase = Phase::Closed;
                    Step::Done(Err(error_from_log("shader compilation", log).in_stage(stage)))
                },
                _ => Step::Rejected,
            },
            Phase::AttachingStage { program, index, .. } => match event {
                CompileEvent::StageAttached => {
                    if index + 1 < count {
                        self.phase = Phase::CompilingStage { program, index: index + 1 };
                    } else {
                        self.phase = Phase::Linking { program };
                    }
                    Step::Continue
                },
                _ => Step::Rejected,
            },
            Phase::Linking { program } => match event {
                CompileEvent::ProgramLinked { status } => {
                    if status == 0 {
                        self.phase = Phase::ReadingProgramLog { program };
                        Step::Continue
                    } else {
                        self.phase = Phase::Closed;
                        Step::Done(Ok(ShaderProgram(program)))
                    }
                },
                _ => Step::Rejected,
            },
            Phase::ReadingProgramLog { .. } => match event {
                CompileEvent::ProgramLog { buffer, written } => {
                    if written < 0 || written as usize > buffer.len() {
                        return Step::Rejected;
                    }
                    let log = slice_subrange(buffer.as_slice(), 0, written as usize);
                    self.phase = Phase::Closed;
                    Step::Done(Err(error_from_log("shader linking", log)))
                },
                _ => Step::Rejected,
            },
            Phase::Closed => Step::Rejected,
        }
    }
}

/// The number of driver answers that a compilation of `count` stages can
/// still take in `phase`, at most.
pub open spec fn steps_left(count: nat, phase: Phase) -> int {
    match phase {
        Phase::CreatingProgram => 2 * (count as int) + 3,
        Phase::CompilingStage { index, .. } => 2 * (count - index) + 2,
        Phase::AttachingStage { index, .. } => 2 * (count - index) + 1,
        Phase::Linking { .. } => 2,
        Phase::ReadingShaderLog { .. } => 1,
        Phase::ReadingProgramLog { .. } => 1,
        Phase::Closed => 0,
    }
}

/// Whether `phase` can occur in a compilation of `count` stages: the stages
/// can be counted, and one that is being compiled or attached, or whose log is
/// read, is among them.
pub open spec fn phase_fits(count: nat, phase: Phase) -> bool {
    &&& count <= usize::MAX
    &&& match phase {
        Phase::CompilingStage { index, .. } => index < count,
        Phase::ReadingShaderLog { index, .. } => index < count,
        Phase::AttachingStage { index, .. } => index < count,
        _ => true,
    }
}

/// Every accepted answer brings the compilation nearer to its end, and no
/// answer is accepted after the end.
pub proof fn lemma_step_progress(count: nat, phase: Phase, event: CompileEvent)
    requires
        phase_fits(count, phase),
        accepted(phase, event),
    ensures
        phase != Phase::Closed,
        phase_fits(count, next_phase(count, phase, event)),
        0 <= steps_left(count, next_phase(count, phase, event)) < steps_left(count, phase),
{
}

/// The compilation ends on an answer exactly when that answer yields a result.
pub proof fn lemma_result_at_end(
    stages: Seq<(u32, Seq<char>)>,
    phase: Phase,
    event: CompileEvent,
)
    requires
        phase_fits(stages.len(), phase),
        accepted(phase, event),
    ensures
        step_text(stages, phase, event) is Done <==> next_phase(stages.len(), phase, event)
            == Phase::Closed,
{
}

/// A stage that does not compile ends the compilation with an error of the
/// compilation step that names the stage, by its place and its kind, and
/// carries the stage's log without its terminating byte. This holds of every
/// log, an empty one too. No later stage is compiled and the program is not
/// linked.
pub proof fn lemma_stage_failure(
    stages: Seq<(u32, Seq<char>)>,
    program: u32,
    index: usize,
    shader: u32,
    buffer: Vec<u8>,
)
    requires
        index < stages.len(),
    ensures
        ({
            let failed = next_phase(
                stages.len(),
                Phase::CompilingStage { program, index },
                CompileEvent::StageCompiled { shader, status: 0 },
            );
            let log = CompileEvent::ShaderLog { buffer };
            &&& failed == Phase::ReadingShaderLog { shader, index }
            &&& accepted(failed, log)
            &&& next_phase(stages.len(), failed, log) == Phase::Closed
            &&& step_text(stages, failed, log) == StepText::Done(
                Err(
                    ErrorText {
                        what: "shader compilation"@,
                        description: diagnostic(shader_log_text(buffer@)),
                        stage: Some(StageId { index, kind: stages[index as int].0 }),
                    },
                ),
            )
        }),
{
}

/// A program that does not link ends the compilation with an error of the
/// linking step that names no stage and carries what the driver wrote of its
/// log.
pub proof fn lemma_link_failure(
    stages: Seq<(u32, Seq<char>)>,
    program: u32,
    buffer: Vec<u8>,
    written: i32,
)
    requires
        0 <= written <= buffer@.len(),
    ensures
        ({
            let failed = next_phase(
                stages.len(),
                Phase::Linking { program },
                CompileEvent::ProgramLinked { status: 0 },
            );
            let log = CompileEvent::ProgramLog { buffer, written };
            &&& failed == Phase::ReadingProgramLog { program }
            &&& accepted(failed, log)
            &&& next_phase(stages.len(), failed, log) == Phase::Closed
            &&& step_text(stages, failed, log) == StepText::Done(
                Err(
                    ErrorText {
                        what: "shader linking"@,
                        description: diagnostic(buffer@.take(written as int)),
                        stage: None,
                    },
                ),
            )
        }),
{
}

/// The errors of two stages that fail differ, whatever their logs hold: the
/// error tells which stage did not compile.
pub proof fn lemma_error_tells_stages_apart(
    stages: Seq<(u32, Seq<char>)>,
    first: usize,
    second: usize,
    shader: u32,
    buffer: Vec<u8>,
)
    requires
        first != second,
    ensures
        step_text(
            stages,
            Phase::ReadingShaderLog { shader, index: first },
            CompileEvent::ShaderLog { buffer },
        ) != step_text(
            stages,
            Phase::ReadingShaderLog { shader, index: second },
            CompileEvent::ShaderLog { buffer },
        ),
{
    let log = CompileEvent::ShaderLog { buffer };
    let one = step_text(stages, Phase::ReadingShaderLog { shader, index: first }, log);
    let other = step_text(stages, Phase::ReadingShaderLog { shader, index: second }, log);
    assert(one->Done_0->Err_0.stage->0.index == first);
    assert(other->Done_0->Err_0.stage->0.index == second);
}

/// The program is linked only once every stage is attached: a compilation
/// comes to link from the attachment of its last stage, or from the creation
/// of the program where there is no stage at all. What is linked is the
/// program that was created, and that the stages were attached to.
pub proof fn lemma_link_follows_last_stage(count: nat, phase: Phase, event: CompileEvent)
    requires
        phase_fits(count, phase),
        accepted(phase, event),
        next_phase(count, phase, event) is Linking,
    ensures
        (phase is CreatingProgram && count == 0) || (phase matches Phase::AttachingStage {
            index,
            ..
        } && index + 1 == count),
        next_phase(count, phase, event)->Linking_program == match phase {
            Phase::AttachingStage { program, .. } => program,
            _ => event->ProgramCreated_program,
        },
{
}

/// A program that links ends the compilation with the handle that was linked.
pub proof fn lemma_success_keeps_program(
    stages: Seq<(u32, Seq<char>)>,
    program: u32,
    status: i32,
)
    requires
        status != 0,
    ensures
        step_text(stages, Phase::Linking { program }, CompileEvent::ProgramLinked { status })
            == StepText::Done(Ok(program)),
        next_phase(
            stages.len(),
            Phase::Linking { program },
            CompileEvent::ProgramLinked { status },
        ) == Phase::Closed,
{
}

/// The phase that a compilation of `count` stages reaches from `phase` once
/// the driver has given `events`, one after the other. An answer that is not
/// accepted changes nothing.
pub open spec fn run(count: nat, phase: Phase, events: Seq<CompileEvent>) -> Phase
    decreases events.len(),
{
    if events.len() == 0 {
        phase
    } else {
        run(count, next_phase(count, phase, events[0]), events.drop_first())
    }
}

/// Whether each of `events` is accepted in the phase that the ones before it
/// lead to.
pub open spec fn all_accepted(count: nat, phase: Phase, events: Seq<CompileEvent>) -> bool
    decreases events.len(),
{
    events.len() == 0 || (accepted(phase, events[0]) && all_accepted(
        count,
        next_phase(count, phase, events[0]),
        events.drop_first(),
    ))
}

/// Once a stage has failed to compile, or the program to link, nothing that
/// the driver answers brings the compilation back: it waits for the log, or it
/// is over. No further stage is compiled and nothing is linked.
pub proof fn lemma_failure_is_final(count: nat, phase: Phase, events: Seq<CompileEvent>)
    requires
        phase is ReadingShaderLog || phase is ReadingProgramLog || phase is Closed,
    ensures
        run(count, phase, events) == phase || run(count, phase, events) == Phase::Closed,
    decreases events.len(),
{
    if events.len() > 0 {
        let next = next_phase(count, phase, events[0]);
        lemma_failure_is_final(count, next, events.drop_first());
    }
}

/// A compilation takes no more answers than `steps_left` allows: from its
/// start, at most two for each stage and three more.
pub proof fn lemma_run_is_bounded(count: nat, phase: Phase, events: Seq<CompileEvent>)
    requires
        phase_fits(count, phase),
        all_accepted(count, phase, events),
    ensures
        events.len() <= steps_left(count, phase),
        phase_fits(count, run(count, phase, events)),
    decreases events.len(),
{
    if events.len() > 0 {
        lemma_step_progress(count, phase, events[0]);
        lemma_run_is_bounded(count, next_phase(count, phase, events[0]), events.drop_first());
    }
}

/// The driver's answers for stages that are compiled and attached one after
/// the other; each stage is given by the shader it became and its status.
pub open spec fn stage_answers(stages: Seq<(u32, i32)>) -> Seq<CompileEvent>
    decreases stages.len(),
{
    if stages.len() == 0 {
        Seq::empty()
    } else {
        stage_answers(stages.drop_last()) + seq![
            CompileEvent::StageCompiled { shader: stages.last().0, status: stages.last().1 },
            CompileEvent::StageAttached,
        ]
    }
}

/// Answers that come one run after another lead where the second run leads
/// from the end of the first.
pub proof fn lemma_run_concat(
    count: nat,
    phase: Phase,
    first: Seq<CompileEvent>,
    second: Seq<CompileEvent>,
)
    ensures
        run(count, phase, first + second) == run(count, run(count, phase, first), second),
    decreases first.len(),
{
    if first.len() == 0 {
        assert(first + second =~= second);
    } else {
        assert((first + second).drop_first() =~= first.drop_first() + second);
        lemma_run_concat(count, next_phase(count, phase, first[0]), first.drop_first(), second);
    }
}

/// While stages compile, they are taken in order: after the first `k` of them
/// the compilation is at stage `k`, or at the link when `k` is all there are.
pub proof fn lemma_stages_in_order(count: nat, program: u32, stages: Seq<(u32, i32)>)
    requires
        0 < count <= usize::MAX,
        stages.len() <= count,
        forall|i: int| 0 <= i < stages.len() ==> (#[trigger] stages[i]).1 != 0,
    ensures
        run(count, Phase::CompilingStage { program, index: 0 }, stage_answers(stages)) == if stages.len()
            < count {
            Phase::CompilingStage { program, index: stages.len() as usize }
        } else {
            Phase::Linking { program }
        },
    decreases stages.len(),
{
    let start = Phase::CompilingStage { program, index: 0 };
    if stages.len() > 0 {
        let before = stages.drop_last();
        let compiled = CompileEvent::StageCompiled {
            shader: stages.last().0,
            status: stages.last().1,
        };
        let last = seq![compiled, CompileEvent::StageAttached];
        lemma_stages_in_order(count, program, before);
        lemma_run_concat(count, start, stage_answers(before), last);
        assert(last.drop_first() =~= seq![CompileEvent::StageAttached]);
        assert(last.drop_first().drop_first() =~= Seq::<CompileEvent>::empty());
        reveal_with_fuel(run, 3);
    }
}

/// Where every stage compiles, the compilation comes to link the program that
/// was created, after one answer for the program and two for each stage.
pub proof fn lemma_sound_stages_reach_link(count: nat, program: u32, stages: Seq<(u32, i32)>)
    requires
        count <= usize::MAX,
        stages.len() == count,
        forall|i: int| 0 <= i < stages.len() ==> (#[trigger] stages[i]).1 != 0,
    ensures
        run(
            count,
            Phase::CreatingProgram,
            seq![CompileEvent::ProgramCreated { program }] + stage_answers(stages),
        ) == (Phase::Linking { program }),
{
    let created = seq![CompileEvent::ProgramCreated { program }];
    lemma_run_concat(count, Phase::CreatingProgram, created, stage_answers(stages));
    assert(created.drop_first() =~= Seq::<CompileEvent>::empty());
    reveal_with_fuel(run, 2);
    if count > 0 {
        lemma_stages_in_order(count, program, stages);
    } else {
        assert(stage_answers(stages) =~= Seq::<CompileEvent>::empty());
    }
}

} // verus!
