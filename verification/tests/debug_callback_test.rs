use ash::vk;
use ccthw_ash_instance::{
    compose_debug_message, debug_message, debug_messenger_config, log_level,
    mark_unknown_severity, push_decimal, with_breaks_after_semicolons, DebugMessengerConfig,
    LogLevel, MESSAGE_TYPE_GENERAL, MESSAGE_TYPE_PERFORMANCE, MESSAGE_TYPE_VALIDATION,
    SEVERITY_ERROR, SEVERITY_INFO, SEVERITY_VERBOSE, SEVERITY_WARNING,
};

fn decimal(number: i32) -> String {
    let mut text = String::new();
    push_decimal(&mut text, number);
    text
}

#[test]
pub fn severities_and_categories_are_those_of_the_api() {
    assert_eq!(SEVERITY_VERBOSE, vk::DebugUtilsMessageSeverityFlagsEXT::VERBOSE.as_raw());
    assert_eq!(SEVERITY_INFO, vk::DebugUtilsMessageSeverityFlagsEXT::INFO.as_raw());
    assert_eq!(SEVERITY_WARNING, vk::DebugUtilsMessageSeverityFlagsEXT::WARNING.as_raw());
    assert_eq!(SEVERITY_ERROR, vk::DebugUtilsMessageSeverityFlagsEXT::ERROR.as_raw());
    assert_eq!(MESSAGE_TYPE_GENERAL, vk::DebugUtilsMessageTypeFlagsEXT::GENERAL.as_raw());
    assert_eq!(MESSAGE_TYPE_VALIDATION, vk::DebugUtilsMessageTypeFlagsEXT::VALIDATION.as_raw());
    assert_eq!(MESSAGE_TYPE_PERFORMANCE, vk::DebugUtilsMessageTypeFlagsEXT::PERFORMANCE.as_raw());
}

#[test]
pub fn subscription_is_asked_for_only_with_instrumentation() {
    assert_eq!(debug_messenger_config(false), None);
    assert_eq!(
        debug_messenger_config(true),
        Some(DebugMessengerConfig { message_severity: 0x1111, message_type: 0x7 })
    );
    let config = debug_messenger_config(true).unwrap();
    assert_eq!(
        vk::DebugUtilsMessageSeverityFlagsEXT::from_raw(config.message_severity),
        vk::DebugUtilsMessageSeverityFlagsEXT::VERBOSE
            | vk::DebugUtilsMessageSeverityFlagsEXT::INFO
            | vk::DebugUtilsMessageSeverityFlagsEXT::WARNING
            | vk::DebugUtilsMessageSeverityFlagsEXT::ERROR
    );
    assert_eq!(
        vk::DebugUtilsMessageTypeFlagsEXT::from_raw(config.message_type),
        vk::DebugUtilsMessageTypeFlagsEXT::GENERAL
            | vk::DebugUtilsMessageTypeFlagsEXT::VALIDATION
            | vk::DebugUtilsMessageTypeFlagsEXT::PERFORMANCE
    );
}

#[test]
pub fn numbers_are_written_in_base_ten() {
    assert_eq!(decimal(0), "0");
    assert_eq!(decimal(7), "7");
    assert_eq!(decimal(10), "10");
    assert_eq!(decimal(1234567890), "1234567890");
    assert_eq!(decimal(-1), "-1");
    assert_eq!(decimal(-907), "-907");
    assert_eq!(decimal(i32::MAX), "2147483647");
    assert_eq!(decimal(i32::MIN), "-2147483648");
    for number in [-100000, -99, -10, -9, 9, 99, 100, 101, 65536, 1000000007] {
        assert_eq!(decimal(number), format!("{}", number));
    }
    let mut text = "n=".to_owned();
    push_decimal(&mut text, 42);
    assert_eq!(text, "n=42");
}

#[test]
pub fn semicolons_before_a_space_get_line_breaks() {
    assert_eq!(with_breaks_after_semicolons(""), "");
    assert_eq!(with_breaks_after_semicolons("plain text"), "plain text");
    assert_eq!(with_breaks_after_semicolons("a; b"), "a;\n\nb");
    assert_eq!(with_breaks_after_semicolons("a;b"), "a;b");
    assert_eq!(with_breaks_after_semicolons("a;"), "a;");
    assert_eq!(with_breaks_after_semicolons("; "), ";\n\n");
    assert_eq!(with_breaks_after_semicolons(";; "), ";;\n\n");
    assert_eq!(with_breaks_after_semicolons("; ; "), ";\n\n;\n\n");
    assert_eq!(with_breaks_after_semicolons(";  x"), ";\n\n x");
    assert_eq!(with_breaks_after_semicolons("é; ü;"), "é;\n\nü;");
    for text in ["one; two; three", ";;; ;", "x ;y; ", "no semicolon", " ; ", "a;\n b"] {
        assert_eq!(with_breaks_after_semicolons(text), text.replace("; ", ";\n\n"));
    }
}

#[test]
pub fn message_is_composed_from_its_parts() {
    assert_eq!(
        compose_debug_message("ERROR", "VALIDATION", "VUID-42", -3, "first; second"),
        "VULKAN DEBUG CALLBACK - ERROR::VALIDATION - [VUID-42 (-3)]\n\nfirst;\n\nsecond"
    );
    assert_eq!(
        compose_debug_message("", "", "", 0, ""),
        "VULKAN DEBUG CALLBACK - :: - [ (0)]\n\n"
    );
    assert_eq!(
        compose_debug_message("INFO", "GENERAL", "a; b", 12, "c"),
        "VULKAN DEBUG CALLBACK - INFO::GENERAL - [a;\n\nb (12)]\n\nc"
    );
}

#[test]
pub fn severity_decides_the_level() {
    assert_eq!(log_level(SEVERITY_VERBOSE), LogLevel::Trace);
    assert_eq!(log_level(SEVERITY_INFO), LogLevel::Info);
    assert_eq!(log_level(SEVERITY_WARNING), LogLevel::Warn);
    assert_eq!(log_level(SEVERITY_ERROR), LogLevel::Error);
    assert_eq!(log_level(0), LogLevel::Warn);
    assert_eq!(log_level(SEVERITY_WARNING | SEVERITY_ERROR), LogLevel::Warn);
    assert_eq!(log_level(u32::MAX), LogLevel::Warn);
}

#[test]
pub fn unknown_severity_is_marked() {
    assert_eq!(mark_unknown_severity(SEVERITY_VERBOSE, "text".to_owned()), "text");
    assert_eq!(mark_unknown_severity(SEVERITY_INFO, "text".to_owned()), "text");
    assert_eq!(mark_unknown_severity(SEVERITY_WARNING, "text".to_owned()), "text");
    assert_eq!(mark_unknown_severity(SEVERITY_ERROR, "text".to_owned()), "text");
    assert_eq!(mark_unknown_severity(0, "text".to_owned()), "?? text");
    assert_eq!(mark_unknown_severity(0x11, String::new()), "?? ");
}

#[test]
pub fn message_goes_to_the_sink_with_level_and_text() {
    let record = debug_message(
        SEVERITY_WARNING,
        MESSAGE_TYPE_VALIDATION,
        "UNASSIGNED-BestPractices",
        1734,
        "Validation Warning: one; two",
    );
    assert_eq!(record.level, LogLevel::Warn);
    assert_eq!(
        record.text,
        "VULKAN DEBUG CALLBACK - WARNING::VALIDATION - [UNASSIGNED-BestPractices (1734)]\n\n\
         Validation Warning: one;\n\ntwo"
    );

    let record = debug_message(SEVERITY_ERROR, MESSAGE_TYPE_GENERAL, "", -1, "");
    assert_eq!(record.level, LogLevel::Error);
    assert_eq!(record.text, "VULKAN DEBUG CALLBACK - ERROR::GENERAL - [ (-1)]\n\n");

    let record = debug_message(SEVERITY_VERBOSE, MESSAGE_TYPE_PERFORMANCE, "id", 0, "m");
    assert_eq!(record.level, LogLevel::Trace);
    assert_eq!(record.text, "VULKAN DEBUG CALLBACK - VERBOSE::PERFORMANCE - [id (0)]\n\nm");

    let record = debug_message(SEVERITY_INFO, MESSAGE_TYPE_GENERAL, "id", 5, "m");
    assert_eq!(record.level, LogLevel::Info);
    assert_eq!(record.text, "VULKAN DEBUG CALLBACK - INFO::GENERAL - [id (5)]\n\nm");
}

#[test]
pub fn flags_are_written_as_ash_writes_them() {
    let severity = SEVERITY_WARNING | SEVERITY_ERROR;
    let category = MESSAGE_TYPE_GENERAL | MESSAGE_TYPE_PERFORMANCE;
    let record = debug_message(severity, category, "id", 9, "body");
    assert_eq!(record.level, LogLevel::Warn);
    assert_eq!(
        record.text,
        format!(
            "?? VULKAN DEBUG CALLBACK - {:?}::{:?} - [id (9)]\n\nbody",
            vk::DebugUtilsMessageSeverityFlagsEXT::from_raw(severity),
            vk::DebugUtilsMessageTypeFlagsEXT::from_raw(category)
        )
    );
    assert_eq!(
        record.text,
        "?? VULKAN DEBUG CALLBACK - WARNING | ERROR::GENERAL | PERFORMANCE - [id (9)]\n\nbody"
    );

    let record = debug_message(0, 0, "id", 9, "body");
    assert_eq!(record.text, "?? VULKAN DEBUG CALLBACK - :: - [id (9)]\n\nbody");
}
