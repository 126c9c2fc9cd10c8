use vstd::prelude::*;

verus! {

/// The severity of a message that is of use only when tracing the driver.
pub const SEVERITY_VERBOSE: u32 = 0x0001;

/// The severity of a message that informs.
pub const SEVERITY_INFO: u32 = 0x0010;

/// The severity of a message that warns.
pub const SEVERITY_WARNING: u32 = 0x0100;

/// The severity of a message that reports an error.
pub const SEVERITY_ERROR: u32 = 0x1000;

/// The category of messages on events that concern neither the rules of the
/// API nor performance.
pub const MESSAGE_TYPE_GENERAL: u32 = 0x1;

/// The category of messages on breaches of the rules of the API.
pub const MESSAGE_TYPE_VALIDATION: u32 = 0x2;

/// The category of messages on uses of the API that may be slow.
pub const MESSAGE_TYPE_PERFORMANCE: u32 = 0x4;

/// The levels at which the sink takes a message.
#[derive(Copy, Clone, Debug, PartialEq, Eq, Structural)]
pub enum LogLevel {
    Error,
    Warn,
    Info,
    Debug,
    Trace,
}

/// The subscription to ask the driver for: the severities and the categories
/// of the messages that it is to hand over, one bit each.
#[derive(Copy, Clone, Debug, PartialEq, Eq, Structural)]
pub struct DebugMessengerConfig {
    pub message_severity: u32,
    pub message_type: u32,
}

/// A message of the driver as it goes to the sink.
#[derive(Debug)]
pub struct DebugMessage {
    /// The level at which the sink takes the message.
    pub level: LogLevel,
    /// The text of the message.
    pub text: String,
}

/// The text that ash's `Debug` writes for the severity flags with the bits
/// `severity`.
pub uninterp spec fn severity_flags_text(severity: u32) -> Seq<char>;

/// The text that ash's `Debug` writes for the message type flags with the bits
/// `message_type`.
pub uninterp spec fn message_type_flags_text(message_type: u32) -> Seq<char>;

/// Formats the bits `severity` as ash's `Debug` for
/// `DebugUtilsMessageSeverityFlagsEXT` does. The text depends on the bits
/// alone.
#[verifier::external_body]
fn severity_text(severity: u32) -> (text: String)
    ensures
        text@ == severity_flags_text(severity),
{
    format!("{:?}", ash::vk::DebugUtilsMessageSeverityFlagsEXT::from_raw(severity))
}

/// Formats the bits `message_type` as ash's `Debug` for
/// `DebugUtilsMessageTypeFlagsEXT` does. The text depends on the bits alone.
#[verifier::external_body]
fn message_type_text(message_type: u32) -> (text: String)
    ensures
        text@ == message_type_flags_text(message_type),
{
    format!("{:?}", ash::vk::DebugUtilsMessageTypeFlagsEXT::from_raw(message_type))
}

/// `String::push` appends one character to the end of the string.
pub assume_specification[ String::push ](text: &mut String, ch: char)
    ensures
        final(text)@ == old(text)@.push(ch),
;

/// The character of the digit `digit`.
pub open spec fn digit_char(digit: nat) -> char {
    if digit == 0 {
        '0'
    } else if digit == 1 {
        '1'
    } else if digit == 2 {
        '2'
    } else if digit == 3 {
        '3'
    } else if digit == 4 {
        '4'
    } else if digit == 5 {
        '5'
    } else if digit == 6 {
        '6'
    } else if digit == 7 {
        '7'
    } else if digit == 8 {
        '8'
    } else {
        '9'
    }
}

/// The digits of `number` in base ten, the most significant first.
pub open spec fn decimal_digits(number: nat) -> Seq<char>
    decreases number,
{
    if number < 10 {
        seq![digit_char(number)]
    } else {
        decimal_digits(number / 10).push(digit_char(number % 10))
    }
}

/// The number `number` in base ten, with a minus sign before it if it is
/// negative.
pub open spec fn decimal_text(number: int) -> Seq<char> {
    if number < 0 {
        seq!['-'] + decimal_digits((-number) as nat)
    } else {
        decimal_digits(number as nat)
    }
}

/// A text in which each semicolon that a space follows is followed by two
/// line breaks instead.
pub open spec fn break_after_semicolons(text: Seq<char>) -> Seq<char>
    decreases text.len(),
{
    if text.len() == 0 {
        text
    } else if text.len() >= 2 && text[0] == ';' && text[1] == ' ' {
        seq![';', '\n', '\n'] + break_after_semicolons(text.skip(2))
    } else {
        seq![text[0]] + break_after_semicolons(text.skip(1))
    }
}

/// The head of a message: the severity, the category, and the name and the
/// number by which the message is known.
pub open spec fn debug_message_head(
    severity_text: Seq<char>,
    message_type_text: Seq<char>,
    message_id_name: Seq<char>,
    message_id_number: int,
) -> Seq<char> {
    "VULKAN DEBUG CALLBACK - "@ + severity_text + "::"@ + message_type_text + " - ["@
        + message_id_name + " ("@ + decimal_text(message_id_number) + ")]\n\n"@
}

/// The text of a message: its head and its body, with line breaks after the
/// semicolons.
pub open spec fn debug_message_text(
    severity_text: Seq<char>,
    message_type_text: Seq<char>,
    message_id_name: Seq<char>,
    message_id_number: int,
    message: Seq<char>,
) -> Seq<char> {
    break_after_semicolons(
        debug_message_head(severity_text, message_type_text, message_id_name, message_id_number)
            + message,
    )
}

/// Whether `severity` is one of the four severities that the driver sends.
pub open spec fn is_known_severity(severity: u32) -> bool {
    severity == SEVERITY_VERBOSE || severity == SEVERITY_INFO || severity == SEVERITY_WARNING
        || severity == SEVERITY_ERROR
}

/// The level at which the sink takes a message of severity `severity`: the
/// level that matches it, which is trace for a verbose message. A severity
/// that is none of the four goes out as a warning.
pub open spec fn level_of_severity(severity: u32) -> LogLevel {
    if severity == SEVERITY_VERBOSE {
        LogLevel::Trace
    } else if severity == SEVERITY_INFO {
        LogLevel::Info
    } else if severity == SEVERITY_ERROR {
        LogLevel::Error
    } else {
        LogLevel::Warn
    }
}

/// What goes to the sink for a message: its text, with two question marks
/// before it where the severity is none of the four.
pub open spec fn sink_text(severity: u32, text: Seq<char>) -> Seq<char> {
    if is_known_severity(severity) {
        text
    } else {
        "?? "@ + text
    }
}

/// Appends the digits of `number` in base ten to `text`.
fn push_decimal_digits(text: &mut String, number: u32)
    ensures
        final(text)@ == old(text)@ + decimal_digits(number as nat),
    decreases number,
{
    if number >= 10 {
        push_decimal_digits(text, number / 10);
    }
    let digit: u32 = number % 10;
    let ch: char = if digit == 0 {
        '0'
    } else if digit == 1 {
        '1'
    } else if digit == 2 {
        '2'
    } else if digit == 3 {
        '3'
    } else if digit == 4 {
        '4'
    } else if digit == 5 {
        '5'
    } else if digit == 6 {
        '6'
    } else if digit == 7 {
        '7'
    } else if digit == 8 {
        '8'
    } else {
        '9'
    };
    text.push(ch);
    assert(text@ =~= old(text)@ + decimal_digits(number as nat));
}

/// Appends `number` in base ten to `text`, with a minus sign before it if it
/// is negative.
pub fn push_decimal(text: &mut String, number: i32)
    ensures
        final(text)@ == old(text)@ + decimal_text(number as int),
{
    if number < 0 {
        text.push('-');
        let magnitude: u32 = if number == i32::MIN {
            0x8000_0000
        } else {
            (-number) as u32
        };
        push_decimal_digits(text, magnitude);
        assert(text@ =~= old(text)@ + decimal_text(number as int));
    } else {
        push_decimal_digits(text, number as u32);
    }
}

/// Copies `text` with each semicolon that a space follows followed by two
/// line breaks instead.
pub fn with_breaks_after_semicolons(text: &str) -> (broken: String)
    ensures
        broken@ == break_after_semicolons(text@),
{
    let mut chars: Vec<char> = Vec::new();
    for ch in iter: text.chars()
        invariant
            chars@ == text@.take(iter.index() as int),
            iter.seq() == text@,
    {
        chars.push(ch);
        assert(chars@ =~= text@.take(iter.index() + 1));
    }
    assert(text@.take(text@.len() as int) =~= text@);
    let mut broken = String::new();
    let mut index: usize = 0;
    assert(chars@.skip(0) =~= chars@);
    while index < chars.len()
        invariant
            index <= chars@.len(),
            break_after_semicolons(chars@) == broken@ + break_after_semicolons(
                chars@.skip(index as int),
            ),
        decreases chars@.len() - index,
    {
        let ghost rest = chars@.skip(index as int);
        let ghost before = broken@;
        if chars[index] == ';' && index + 1 < chars.len() && chars[index + 1] == ' ' {
            broken.push(';');
            broken.push('\n');
            broken.push('\n');
            proof {
                assert(rest.skip(2) =~= chars@.skip(index + 2));
                assert(broken@ =~= before + seq![';', '\n', '\n']);
                assert(before + (seq![';', '\n', '\n'] + break_after_semicolons(rest.skip(2)))
                    =~= broken@ + break_after_semicolons(rest.skip(2)));
            }
            index += 2;
        } else {
            broken.push(chars[index]);
            proof {
                assert(rest.skip(1) =~= chars@.skip(index + 1));
                assert(broken@ =~= before + seq![rest[0]]);
                assert(before + (seq![rest[0]] + break_after_semicolons(rest.skip(1)))
                    =~= broken@ + break_after_semicolons(rest.skip(1)));
            }
            index += 1;
        }
    }
    assert(broken@ + break_after_semicolons(chars@.skip(index as int)) =~= broken@);
    broken
}

/// Builds the text of a message of the driver from the texts of its severity
/// and of its category, the name and the number by which it is known, and its
/// body.
pub fn compose_debug_message(
    severity_text: &str,
    message_type_text: &str,
    message_id_name: &str,
    message_id_number: i32,
    message: &str,
) -> (text: String)
    ensures
        text@ == debug_message_text(
            severity_text@,
            message_type_text@,
            message_id_name@,
            message_id_number as int,
            message@,
        ),
{
    let mut raw = String::new();
    raw.append("VULKAN DEBUG CALLBACK - ");
    raw.append(severity_text);
    raw.append("::");
    raw.append(message_type_text);
    raw.append(" - [");
    raw.append(message_id_name);
    raw.append(" (");
    push_decimal(&mut raw, message_id_number);
    raw.append(")]\n\n");
    raw.append(message);
    assert(raw@ =~= debug_message_head(
        severity_text@,
        message_type_text@,
        message_id_name@,
        message_id_number as int,
    ) + message@);
    with_breaks_after_semicolons(raw.as_str())
}

/// The level at which the sink takes a message of severity `severity`.
pub fn log_level(severity: u32) -> (level: LogLevel)
    ensures
        level == level_of_severity(severity),
{
    if severity == SEVERITY_VERBOSE {
        LogLevel::Trace
    } else if severity == SEVERITY_INFO {
        LogLevel::Info
    } else if severity == SEVERITY_ERROR {
        LogLevel::Error
    } else {
        LogLevel::Warn
    }
}

/// Marks the text of a message whose severity is none of the four with two
/// question marks; the text of any other message goes out as it is.
pub fn mark_unknown_severity(severity: u32, text: String) -> (marked: String)
    ensures
        marked@ == sink_text(severity, text@),
{
    if severity == SEVERITY_VERBOSE || severity == SEVERITY_INFO || severity == SEVERITY_WARNING
        || severity == SEVERITY_ERROR {
        text
    } else {
        let mut marked = String::new();
        marked.append("?? ");
        marked.append(text.as_str());
        marked
    }
}

/// Turns a message of the driver into what goes to the sink: the level that
/// matches its severity, and its text.
///
/// The text names the severity and the category as ash writes them, then the
/// name and the number by which the message is known, then the body.
pub fn debug_message(
    message_severity: u32,
    message_type: u32,
    message_id_name: &str,
    message_id_number: i32,
    message: &str,
) -> (record: DebugMessage)
    ensures
        record.level == level_of_severity(message_severity),
        record.text@ == sink_text(
            message_severity,
            debug_message_text(
                severity_flags_text(message_severity),
                message_type_flags_text(message_type),
                message_id_name@,
                message_id_number as int,
                message@,
            ),
        ),
{
    let severity = severity_text(message_severity);
    let category = message_type_text(message_type);
    let text = compose_debug_message(
        severity.as_str(),
        category.as_str(),
        message_id_name,
        message_id_number,
        message,
    );
    DebugMessage {
        level: log_level(message_severity),
        text: mark_unknown_severity(message_severity, text),
    }
}

/// The subscription to ask the driver for: none where debug instrumentation
/// is off; where it is on, one to the messages of every severity and of the
/// categories general, validation and performance.
pub fn debug_messenger_config(debug_instrumentation: bool) -> (config: Option<
    DebugMessengerConfig,
>)
    ensures
        !debug_instrumentation ==> config.is_none(),
        debug_instrumentation ==> config == Some(
            DebugMessengerConfig { message_severity: 0x1111, message_type: 0x7 },
        ),
{
    assert(0x0001u32 | 0x0010u32 | 0x0100u32 | 0x1000u32 == 0x1111u32) by (bit_vector);
    assert(0x1u32 | 0x2u32 | 0x4u32 == 0x7u32) by (bit_vector);
    if debug_instrumentation {
        Some(
            DebugMessengerConfig {
                message_severity: SEVERITY_VERBOSE | SEVERITY_INFO | SEVERITY_WARNING
                    | SEVERITY_ERROR,
                message_type: MESSAGE_TYPE_GENERAL | MESSAGE_TYPE_VALIDATION
                    | MESSAGE_TYPE_PERFORMANCE,
            },
        )
    } else {
        None
    }
}

} // verus!
