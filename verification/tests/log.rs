use strings::log::report_assertion_failure;
use strings::log::LogColor;
use strings::log::LogLevel;
use strings::mem::unknown_tag_warning;
use strings::mem::MemoryTag;

#[test]
fn assertion_failure_text() {
    assert_eq!(
        report_assertion_failure("index < self.len", "index out of bounds", "src/vect.rs", 124),
        "\n    Assertion: index < self.len\n    Message: 'index out of bounds'\n    Location: src/vect.rs:124"
    );
    assert_eq!(
        report_assertion_failure("", "", "", 0),
        "\n    Assertion: \n    Message: ''\n    Location: :0"
    );
    assert_eq!(
        report_assertion_failure("a", "b", "c", u32::MAX).ends_with("c:4294967295"),
        true
    );
}

#[test]
fn levels_have_labels_colours_and_streams() {
    assert_eq!(LogLevel::Fatal.label(), "[ Fatal ]");
    assert_eq!(LogLevel::Warn.label(), "[  Warn ]");
    assert_eq!(LogLevel::Trace.label(), "[ Trace ]");
    assert_eq!(LogLevel::Fatal.color(), LogColor::BrightRed);
    assert_eq!(LogLevel::Error.color(), LogColor::Red);
    assert_eq!(LogLevel::Warn.color(), LogColor::Yellow);
    assert_eq!(LogLevel::Info.color(), LogColor::Green);
    assert_eq!(LogLevel::Debug.color(), LogColor::Blue);
    assert_eq!(LogLevel::Trace.color(), LogColor::White);
    assert_eq!(LogLevel::Fatal.to_error_stream(), true);
    assert_eq!(LogLevel::Error.to_error_stream(), true);
    assert_eq!(LogLevel::Warn.to_error_stream(), false);
    assert_eq!(LogLevel::Info.to_error_stream(), false);
    assert_eq!(LogLevel::Trace.rank(), 5);
}

#[test]
fn unknown_tag_is_warned_of() {
    assert_eq!(
        unknown_tag_warning("alloc", MemoryTag::Unknown),
        Some("`alloc` called using `MemoryTag::Unknown`. Re-class this allocation.".to_string())
    );
    assert_eq!(unknown_tag_warning("alloc", MemoryTag::Vector), None);
    assert_eq!(unknown_tag_warning("realloc", MemoryTag::Scene), None);
}
