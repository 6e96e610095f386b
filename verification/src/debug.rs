//! The driver's debug messages: the fixed state that selects them, and what is
//! done with one that arrives.

use vstd::prelude::*;
use vstd::string::{StringExecFns, StringSliceAdditionalSpecFns};
use vstd::utf8::{decode_utf8, encode_utf8_decode_utf8, valid_utf8};
use crate::command::Command;
use crate::text::text_of;
use crate::glenum::{
    BACK, CCW, CULL_FACE, DEBUG_OUTPUT_SYNCHRONOUS, DEBUG_SEVERITY_HIGH, DEBUG_SEVERITY_LOW,
    DEBUG_SEVERITY_MEDIUM, DEBUG_SEVERITY_NOTIFICATION, DEBUG_SOURCE_API,
    DEBUG_SOURCE_APPLICATION, DEBUG_SOURCE_OTHER, DEBUG_SOURCE_SHADER_COMPILER,
    DEBUG_SOURCE_THIRD_PARTY, DEBUG_SOURCE_WINDOW_SYSTEM, DEBUG_TYPE_DEPRECATED_BEHAVIOR,
    DEBUG_TYPE_ERROR, DEBUG_TYPE_OTHER, DEBUG_TYPE_PERFORMANCE, DEBUG_TYPE_PORTABILITY,
    DEBUG_TYPE_UNDEFINED_BEHAVIOR, DEPTH_TEST, DONT_CARE, FRAMEBUFFER_SRGB,
};

verus! {

/// How grave a message is. Notifications have no place here: they are dropped
/// before anything is made of them.
#[derive(Clone, Copy, Debug, PartialEq, Eq, Structural)]
pub enum Severity {
    High,
    Medium,
    Low,
}

/// What a message is about.
#[derive(Clone, Copy, Debug, PartialEq, Eq, Structural)]
pub enum Kind {
    Error,
    DeprecatedBehaviour,
    UndefinedBehaviour,
    Portability,
    Performance,
    Other,
}

/// Where a message comes from.
#[derive(Clone, Copy, Debug, PartialEq, Eq, Structural)]
pub enum Source {
    Api,
    WindowSystem,
    ShaderCompiler,
    ThirdParty,
    Application,
    Other,
}

impl Severity {
    /// The severity that the driver's enumerant stands for.
    pub open spec fn of(value: u32) -> Option<Severity> {
        if value == DEBUG_SEVERITY_HIGH {
            Some(Severity::High)
        } else if value == DEBUG_SEVERITY_MEDIUM {
            Some(Severity::Medium)
        } else if value == DEBUG_SEVERITY_LOW {
            Some(Severity::Low)
        } else {
            None
        }
    }

    /// The word that a report shows for it.
    pub open spec fn label_text(self) -> Seq<char> {
        match self {
            Severity::High => "high"@,
            Severity::Medium => "medium"@,
            Severity::Low => "low"@,
        }
    }

    /// High and medium severity end the program once the message is shown.
    pub open spec fn fatal(self) -> bool {
        self == Severity::High || self == Severity::Medium
    }

    /// Reads the driver's enumerant; `None` where it is no severity that is shown.
    pub fn from_gl(value: u32) -> (severity: Option<Severity>)
        ensures
            severity == Severity::of(value),
    {
        if value == DEBUG_SEVERITY_HIGH {
            Some(Severity::High)
        } else if value == DEBUG_SEVERITY_MEDIUM {
            Some(Severity::Medium)
        } else if value == DEBUG_SEVERITY_LOW {
            Some(Severity::Low)
        } else {
            None
        }
    }

    /// The word that a report shows for it.
    pub fn label(&self) -> (label: &'static str)
        ensures
            label@ == self.label_text(),
    {
        match self {
            Severity::High => "high",
            Severity::Medium => "medium",
            Severity::Low => "low",
        }
    }

    /// Whether the program ends once a message of this severity is shown.
    pub fn is_fatal(&self) -> (fatal: bool)
        ensures
            fatal == self.fatal(),
    {
        match self {
            Severity::High => true,
            Severity::Medium => true,
            Severity::Low => false,
        }
    }
}

impl Kind {
    /// The kind that the driver's enumerant stands for.
    pub open spec fn of(value: u32) -> Option<Kind> {
        if value == DEBUG_TYPE_ERROR {
            Some(Kind::Error)
        } else if value == DEBUG_TYPE_DEPRECATED_BEHAVIOR {
            Some(Kind::DeprecatedBehaviour)
        } else if value == DEBUG_TYPE_UNDEFINED_BEHAVIOR {
            Some(Kind::UndefinedBehaviour)
        } else if value == DEBUG_TYPE_PORTABILITY {
            Some(Kind::Portability)
        } else if value == DEBUG_TYPE_PERFORMANCE {
            Some(Kind::Performance)
        } else if value == DEBUG_TYPE_OTHER {
            Some(Kind::Other)
        } else {
            None
        }
    }

    /// The word that a report shows for it.
    pub open spec fn label_text(self) -> Seq<char> {
        match self {
            Kind::Error => "error"@,
            Kind::DeprecatedBehaviour => "deprecated behaviour"@,
            Kind::UndefinedBehaviour => "undefined behaviour"@,
            Kind::Portability => "portability"@,
            Kind::Performance => "performance"@,
            Kind::Other => "other"@,
        }
    }

    /// Reads the driver's enumerant; `None` where it is no kind of message.
    pub fn from_gl(value: u32) -> (kind: Option<Kind>)
        ensures
            kind == Kind::of(value),
    {
        if value == DEBUG_TYPE_ERROR {
            Some(Kind::Error)
        } else if value == DEBUG_TYPE_DEPRECATED_BEHAVIOR {
            Some(Kind::DeprecatedBehaviour)
        } else if value == DEBUG_TYPE_UNDEFINED_BEHAVIOR {
            Some(Kind::UndefinedBehaviour)
        } else if value == DEBUG_TYPE_PORTABILITY {
            Some(Kind::Portability)
        } else if value == DEBUG_TYPE_PERFORMANCE {
            Some(Kind::Performance)
        } else if value == DEBUG_TYPE_OTHER {
            Some(Kind::Other)
        } else {
            None
        }
    }

    /// The word that a report shows for it.
    pub fn label(&self) -> (label: &'static str)
        ensures
            label@ == self.label_text(),
    {
        match self {
            Kind::Error => "error",
            Kind::DeprecatedBehaviour => "deprecated behaviour",
            Kind::UndefinedBehaviour => "undefined behaviour",
            Kind::Portability => "portability",
            Kind::Performance => "performance",
            Kind::Other => "other",
        }
    }
}

impl Source {
    /// The source that the driver's enumerant stands for.
    pub open spec fn of(value: u32) -> Option<Source> {
        if value == DEBUG_SOURCE_API {
            Some(Source::Api)
        } else if value == DEBUG_SOURCE_WINDOW_SYSTEM {
            Some(Source::WindowSystem)
        } else if value == DEBUG_SOURCE_SHADER_COMPILER {
            Some(Source::ShaderCompiler)
        } else if value == DEBUG_SOURCE_THIRD_PARTY {
            Some(Source::ThirdParty)
        } else if value == DEBUG_SOURCE_APPLICATION {
            Some(Source::Application)
        } else if value == DEBUG_SOURCE_OTHER {
            Some(Source::Other)
        } else {
            None
        }
    }

    /// The word that a report shows for it.
    pub open spec fn label_text(self) -> Seq<char> {
        match self {
            Source::Api => "api"@,
            Source::WindowSystem => "window system"@,
            Source::ShaderCompiler => "shader compiler"@,
            Source::ThirdParty => "third party"@,
            Source::Application => "application"@,
            Source::Other => "other"@,
        }
    }

    /// Reads the driver's enumerant; `None` where it is no source of messages.
    pub fn from_gl(value: u32) -> (source: Option<Source>)
        ensures
            source == Source::of(value),
    {
        if value == DEBUG_SOURCE_API {
            Some(Source::Api)
        } else if value == DEBUG_SOURCE_WINDOW_SYSTEM {
            Some(Source::WindowSystem)
        } else if value == DEBUG_SOURCE_SHADER_COMPILER {
            Some(Source::ShaderCompiler)
        } else if value == DEBUG_SOURCE_THIRD_PARTY {
            Some(Source::ThirdParty)
        } else if value == DEBUG_SOURCE_APPLICATION {
            Some(Source::Application)
        } else if value == DEBUG_SOURCE_OTHER {
            Some(Source::Other)
        } else {
            None
        }
    }

    /// The word that a report shows for it.
    pub fn label(&self) -> (label: &'static str)
        ensures
            label@ == self.label_text(),
    {
        match self {
            Source::Api => "api",
            Source::WindowSystem => "window system",
            Source::ShaderCompiler => "shader compiler",
            Source::ThirdParty => "third party",
            Source::Application => "application",
            Source::Other => "other",
        }
    }
}

/// An enumerant of a message that stands for nothing known.
#[derive(Clone, Copy, Debug, PartialEq, Eq, Structural)]
pub enum Unknown {
    Severity(u32),
    Kind(u32),
    Source(u32),
}

/// A message worth showing, by its three classifications.
#[derive(Clone, Copy, Debug, PartialEq, Eq, Structural)]
pub struct Report {
    pub source: Source,
    pub severity: Severity,
    pub kind: Kind,
}

/// What to do with a message.
#[derive(Clone, Copy, Debug, PartialEq, Eq, Structural)]
pub enum Handling {
    /// Drop it silently.
    Ignore,
    /// End the program: the driver sent an enumerant that stands for nothing known.
    Abort(Unknown),
    /// Show it, and end the program afterwards if it is fatal.
    Show { report: Report, fatal: bool },
}

/// What is done with a message of the given enumerants. A notification is
/// dropped whatever else it holds. Otherwise the severity is read first, then
/// the kind, then the source, and the first that is unknown aborts. A message
/// that is known in all three is shown, and is fatal at high and medium severity.
pub open spec fn handling_of(source: u32, kind: u32, severity: u32) -> Handling {
    if severity == DEBUG_SEVERITY_NOTIFICATION {
        Handling::Ignore
    } else if Severity::of(severity) is None {
        Handling::Abort(Unknown::Severity(severity))
    } else if Kind::of(kind) is None {
        Handling::Abort(Unknown::Kind(kind))
    } else if Source::of(source) is None {
        Handling::Abort(Unknown::Source(source))
    } else {
        Handling::Show {
            report: Report {
                source: Source::of(source)->0,
                severity: Severity::of(severity)->0,
                kind: Kind::of(kind)->0,
            },
            fatal: Severity::of(severity)->0.fatal(),
        }
    }
}

/// Decides what to do with a debug message that the driver delivered.
pub fn gl_message_callback(source: u32, ty: u32, severity: u32) -> (handling: Handling)
    ensures
        handling == handling_of(source, ty, severity),
{
    if severity == DEBUG_SEVERITY_NOTIFICATION {
        return Handling::Ignore;
    }
    let severity = match Severity::from_gl(severity) {
        Some(known) => known,
        None => {
            return Handling::Abort(Unknown::Severity(severity));
        },
    };
    let kind = match Kind::from_gl(ty) {
        Some(known) => known,
        None => {
            return Handling::Abort(Unknown::Kind(ty));
        },
    };
    let source = match Source::from_gl(source) {
        Some(known) => known,
        None => {
            return Handling::Abort(Unknown::Source(source));
        },
    };
    Handling::Show { report: Report { source, severity, kind }, fatal: severity.is_fatal() }
}

impl Report {
    /// The lines that announce a message: a heading, then one line each for
    /// source, severity and kind.
    pub open spec fn header_text(self) -> Seq<char> {
        "GL ERROR!\n"@ + "Source:   "@ + self.source.label_text() + "\n"@ + "Severity: "@
            + self.severity.label_text() + "\n"@ + "Type:     "@ + self.kind.label_text() + "\n"@
    }

    /// The lines that announce a message, each with its line feed.
    pub fn header(&self) -> (text: String)
        ensures
            text@ == self.header_text(),
    {
        let mut text = String::from_str("GL ERROR!\n");
        text.append("Source:   ");
        text.append(self.source.label());
        text.append("\n");
        text.append("Severity: ");
        text.append(self.severity.label());
        text.append("\n");
        text.append("Type:     ");
        text.append(self.kind.label());
        text.append("\n");
        text
    }
}

/// The line that shows the driver's words for a message, with its line feed.
pub open spec fn message_line_text(message: Seq<u8>) -> Seq<char> {
    "Message: "@ + decode_utf8(message) + "\n"@
}

/// The line of a report that shows the driver's words, given as the bytes that
/// the driver handed over. Words that are not UTF-8 cannot be shown: there is
/// no line then, and the program is to end.
pub fn message_line(message: &[u8]) -> (line: Option<String>)
    ensures
        line is Some <==> valid_utf8(message@),
        line is Some ==> line->0@ == message_line_text(message@),
{
    match text_of(message) {
        Some(words) => {
            proof {
                encode_utf8_decode_utf8(words@);
            }
            let mut line = String::from_str("Message: ");
            line.append(words);
            line.append("\n");
            Some(line)
        },
        None => None,
    }
}

/// Selects debug messages by source, kind and severity; `DONT_CARE` in a place
/// selects every value there.
#[derive(Clone, Copy, Debug, PartialEq, Eq, Structural)]
pub struct Filter {
    pub source: u32,
    pub kind: u32,
    pub severity: u32,
}

impl Filter {
    /// Whether the filter selects a message of the given enumerants.
    pub open spec fn selects(self, source: u32, kind: u32, severity: u32) -> bool {
        &&& self.source == DONT_CARE || self.source == source
        &&& self.kind == DONT_CARE || self.kind == kind
        &&& self.severity == DONT_CARE || self.severity == severity
    }

    /// Whether the filter selects a message of the given enumerants.
    pub fn matches(&self, source: u32, kind: u32, severity: u32) -> (yes: bool)
        ensures
            yes == self.selects(source, kind, severity),
    {
        (self.source == DONT_CARE || self.source == source) && (self.kind == DONT_CARE
            || self.kind == kind) && (self.severity == DONT_CARE || self.severity == severity)
    }
}

/// The filter of every performance message.
pub open spec fn performance_filter() -> Filter {
    Filter { source: DONT_CARE, kind: DEBUG_TYPE_PERFORMANCE, severity: DONT_CARE }
}

/// The filter of every notification.
pub open spec fn notification_filter() -> Filter {
    Filter { source: DONT_CARE, kind: DONT_CARE, severity: DEBUG_SEVERITY_NOTIFICATION }
}

/// The call that switches off what `filter` selects.
pub open spec fn mute(filter: Filter) -> Command {
    Command::DebugMessageControl {
        source: filter.source,
        kind: filter.kind,
        severity: filter.severity,
        enabled: false,
    }
}

/// The calls of the fixed state, in order.
pub open spec fn gl_state() -> Seq<Command> {
    seq![
        Command::InstallDebugCallback,
        Command::Enable { capability: DEBUG_OUTPUT_SYNCHRONOUS },
        Command::Enable { capability: FRAMEBUFFER_SRGB },
        Command::Enable { capability: DEPTH_TEST },
        Command::Enable { capability: CULL_FACE },
        Command::FrontFace { winding: CCW },
        Command::CullFace { face: BACK },
        mute(performance_filter()),
        mute(notification_filter()),
    ]
}

/// Whether, once `calls` are made in order, the driver holds back a message of
/// the given enumerants. Everything is delivered at first; of the calls that
/// select the message, the last one decides.
pub open spec fn muted_by(calls: Seq<Command>, source: u32, kind: u32, severity: u32) -> bool
    decreases calls.len(),
{
    if calls.len() == 0 {
        false
    } else {
        match calls.last() {
            Command::DebugMessageControl { source: s, kind: k, severity: v, enabled } => if (Filter {
                source: s,
                kind: k,
                severity: v,
            }).selects(source, kind, severity) {
                !enabled
            } else {
                muted_by(calls.drop_last(), source, kind, severity)
            },
            _ => muted_by(calls.drop_last(), source, kind, severity),
        }
    }
}

/// The calls that set up the fixed state of a fresh context: the debug
/// callback, synchronous debug output, sRGB encoding, depth test, face
/// culling switched on with counter-clockwise front faces and back faces
/// culled, and performance messages and notifications switched off.
pub fn setup_gl_state() -> (calls: Vec<Command>)
    ensures
        calls@ == gl_state(),
{
    let mut calls: Vec<Command> = Vec::new();
    calls.push(Command::InstallDebugCallback);
    calls.push(Command::Enable { capability: DEBUG_OUTPUT_SYNCHRONOUS });
    calls.push(Command::Enable { capability: FRAMEBUFFER_SRGB });
    calls.push(Command::Enable { capability: DEPTH_TEST });
    calls.push(Command::Enable { capability: CULL_FACE });
    calls.push(Command::FrontFace { winding: CCW });
    calls.push(Command::CullFace { face: BACK });
    calls.push(
        Command::DebugMessageControl {
            source: DONT_CARE,
            kind: DEBUG_TYPE_PERFORMANCE,
            severity: DONT_CARE,
            enabled: false,
        },
    );
    calls.push(
        Command::DebugMessageControl {
            source: DONT_CARE,
            kind: DONT_CARE,
            severity: DEBUG_SEVERITY_NOTIFICATION,
            enabled: false,
        },
    );
    assert(calls@ =~= gl_state());
    calls
}

/// Under the fixed state the driver holds back exactly the notifications and
/// the performance messages.
pub proof fn lemma_fixed_state_mutes(source: u32, kind: u32, severity: u32)
    ensures
        muted_by(gl_state(), source, kind, severity) <==> (severity == DEBUG_SEVERITY_NOTIFICATION
            || kind == DEBUG_TYPE_PERFORMANCE),
{
    reveal_with_fuel(muted_by, 10);
}

/// A message that the fixed state lets through is never dropped: it is shown,
/// or it aborts on an unknown enumerant.
pub proof fn lemma_delivered_is_handled(source: u32, kind: u32, severity: u32)
    requires
        !muted_by(gl_state(), source, kind, severity),
    ensures
        handling_of(source, kind, severity) != Handling::Ignore,
{
    lemma_fixed_state_mutes(source, kind, severity);
}

/// A message is fatal exactly when all three enumerants are known and the
/// severity is high or medium.
pub proof fn lemma_fatal_messages(source: u32, kind: u32, severity: u32)
    ensures
        (handling_of(source, kind, severity) matches Handling::Show { fatal, .. } && fatal) <==> (
        Kind::of(kind) is Some && Source::of(source) is Some && (severity == DEBUG_SEVERITY_HIGH
            || severity == DEBUG_SEVERITY_MEDIUM)),
{
}

} // verus!
