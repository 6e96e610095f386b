use endesga_time::command::Command;
use endesga_time::debug::{
    gl_message_callback, message_line, setup_gl_state, Filter, Handling, Kind, Report, Severity,
    Source, Unknown,
};

const HIGH: u32 = 0x9146;
const MEDIUM: u32 = 0x9147;
const LOW: u32 = 0x9148;
const NOTIFICATION: u32 = 0x826B;
const DONT_CARE: u32 = 0x1100;

#[test]
fn notification_is_dropped_whatever_else_it_holds() {
    assert_eq!(gl_message_callback(0x8246, 0x824C, NOTIFICATION), Handling::Ignore);
    assert_eq!(gl_message_callback(0, 0, NOTIFICATION), Handling::Ignore);
    assert_eq!(gl_message_callback(u32::MAX, 7, NOTIFICATION), Handling::Ignore);
}

#[test]
fn high_and_medium_are_fatal_and_low_is_not() {
    let report = |severity| Report { source: Source::Api, severity, kind: Kind::Error };
    assert_eq!(
        gl_message_callback(0x8246, 0x824C, HIGH),
        Handling::Show { report: report(Severity::High), fatal: true }
    );
    assert_eq!(
        gl_message_callback(0x8246, 0x824C, MEDIUM),
        Handling::Show { report: report(Severity::Medium), fatal: true }
    );
    assert_eq!(
        gl_message_callback(0x8246, 0x824C, LOW),
        Handling::Show { report: report(Severity::Low), fatal: false }
    );
}

#[test]
fn unknown_enumerants_abort_severity_first_then_kind_then_source() {
    assert_eq!(gl_message_callback(1, 2, 3), Handling::Abort(Unknown::Severity(3)));
    assert_eq!(gl_message_callback(1, 2, DONT_CARE), Handling::Abort(Unknown::Severity(DONT_CARE)));
    assert_eq!(gl_message_callback(1, 2, LOW), Handling::Abort(Unknown::Kind(2)));
    assert_eq!(gl_message_callback(1, 0x8250, LOW), Handling::Abort(Unknown::Source(1)));
    assert_eq!(gl_message_callback(0x8245, 0x8251, HIGH), Handling::Abort(Unknown::Source(0x8245)));
    assert_eq!(gl_message_callback(0x8246, 0x8252, HIGH), Handling::Abort(Unknown::Kind(0x8252)));
}

#[test]
fn every_source_is_told_apart() {
    let expected = [
        (0x8246, Source::Api, "api"),
        (0x8247, Source::WindowSystem, "window system"),
        (0x8248, Source::ShaderCompiler, "shader compiler"),
        (0x8249, Source::ThirdParty, "third party"),
        (0x824A, Source::Application, "application"),
        (0x824B, Source::Other, "other"),
    ];
    for (value, source, label) in expected {
        assert_eq!(Source::from_gl(value), Some(source));
        assert_eq!(source.label(), label);
    }
    assert_eq!(Source::from_gl(0x824C), None);
}

#[test]
fn every_kind_is_told_apart() {
    let expected = [
        (0x824C, Kind::Error, "error"),
        (0x824D, Kind::DeprecatedBehaviour, "deprecated behaviour"),
        (0x824E, Kind::UndefinedBehaviour, "undefined behaviour"),
        (0x824F, Kind::Portability, "portability"),
        (0x8250, Kind::Performance, "performance"),
        (0x8251, Kind::Other, "other"),
    ];
    for (value, kind, label) in expected {
        assert_eq!(Kind::from_gl(value), Some(kind));
        assert_eq!(kind.label(), label);
    }
    assert_eq!(Kind::from_gl(0x824B), None);
}

#[test]
fn every_severity_is_told_apart() {
    assert_eq!(Severity::from_gl(HIGH), Some(Severity::High));
    assert_eq!(Severity::from_gl(MEDIUM), Some(Severity::Medium));
    assert_eq!(Severity::from_gl(LOW), Some(Severity::Low));
    assert_eq!(Severity::from_gl(NOTIFICATION), None);
    assert_eq!(Severity::High.label(), "high");
    assert_eq!(Severity::Medium.label(), "medium");
    assert_eq!(Severity::Low.label(), "low");
    assert!(Severity::High.is_fatal());
    assert!(Severity::Medium.is_fatal());
    assert!(!Severity::Low.is_fatal());
}

#[test]
fn report_header_has_four_lines() {
    let report =
        Report { source: Source::ShaderCompiler, severity: Severity::Medium, kind: Kind::Portability };
    assert_eq!(
        report.header(),
        "GL ERROR!\nSource:   shader compiler\nSeverity: medium\nType:     portability\n"
    );
}

#[test]
fn fixed_state_is_nine_calls_in_order() {
    assert_eq!(
        setup_gl_state(),
        vec![
            Command::InstallDebugCallback,
            Command::Enable { capability: 0x8242 },
            Command::Enable { capability: 0x8DB9 },
            Command::Enable { capability: 0x0B71 },
            Command::Enable { capability: 0x0B44 },
            Command::FrontFace { winding: 0x0901 },
            Command::CullFace { face: 0x0405 },
            Command::DebugMessageControl {
                source: DONT_CARE,
                kind: 0x8250,
                severity: DONT_CARE,
                enabled: false
            },
            Command::DebugMessageControl {
                source: DONT_CARE,
                kind: DONT_CARE,
                severity: NOTIFICATION,
                enabled: false
            },
        ]
    );
}

#[test]
fn filters_select_with_wildcards() {
    let performance = Filter { source: DONT_CARE, kind: 0x8250, severity: DONT_CARE };
    assert!(performance.matches(0x8246, 0x8250, HIGH));
    assert!(performance.matches(0x824B, 0x8250, NOTIFICATION));
    assert!(!performance.matches(0x8246, 0x824C, HIGH));
    let exact = Filter { source: 0x8246, kind: 0x824C, severity: LOW };
    assert!(exact.matches(0x8246, 0x824C, LOW));
    assert!(!exact.matches(0x8247, 0x824C, LOW));
    assert!(!exact.matches(0x8246, 0x824D, LOW));
    assert!(!exact.matches(0x8246, 0x824C, HIGH));
    let all = Filter { source: DONT_CARE, kind: DONT_CARE, severity: DONT_CARE };
    assert!(all.matches(1, 2, 3));
}

#[test]
fn messages_that_the_fixed_state_lets_through_are_never_dropped() {
    let muted: Vec<Filter> = setup_gl_state()
        .into_iter()
        .filter_map(|call| match call {
            Command::DebugMessageControl { source, kind, severity, enabled: false } => {
                Some(Filter { source, kind, severity })
            }
            _ => None,
        })
        .collect();
    assert_eq!(muted.len(), 2);
    for severity in [HIGH, MEDIUM, LOW, NOTIFICATION, 0] {
        for kind in 0x824Bu32..=0x8252 {
            for source in 0x8245u32..=0x824C {
                let held_back = muted.iter().any(|filter| filter.matches(source, kind, severity));
                assert_eq!(held_back, severity == NOTIFICATION || kind == 0x8250);
                if !held_back {
                    assert_ne!(gl_message_callback(source, kind, severity), Handling::Ignore);
                }
            }
        }
    }
}

#[test]
fn message_line_shows_the_drivers_words() {
    assert_eq!(message_line(b"something odd"), Some(String::from("Message: something odd\n")));
    assert_eq!(message_line(b""), Some(String::from("Message: \n")));
    assert_eq!(
        message_line("Puffer zu groß".as_bytes()),
        Some(String::from("Message: Puffer zu groß\n"))
    );
}

#[test]
fn message_that_is_not_utf8_has_no_line() {
    assert_eq!(message_line(&[0x66, 0xff, 0x6f]), None);
    assert_eq!(message_line(&[0xc3]), None);
    assert_eq!(message_line(&[0xed, 0xa0, 0x80]), None);
}

#[test]
fn fixed_state_switches_back_face_culling_on() {
    let calls = setup_gl_state();
    assert!(calls.contains(&Command::Enable { capability: 0x0B44 }));
    assert!(calls.contains(&Command::CullFace { face: 0x0405 }));
    assert!(calls.contains(&Command::FrontFace { winding: 0x0901 }));
    assert!(calls.contains(&Command::Enable { capability: 0x0B71 }));
}
