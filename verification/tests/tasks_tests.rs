use sparsha::tasks::{
    analyze_text, analyze_text_input, classify_task_kind, default_native_workers,
    missing_text_error, plan_sleep_echo, unknown_task_error, NativeTaskKind,
};

#[test]
fn built_in_task_kinds_are_recognized() {
    assert_eq!(classify_task_kind("echo"), NativeTaskKind::Echo);
    assert_eq!(classify_task_kind("sleep_echo"), NativeTaskKind::SleepEcho);
    assert_eq!(classify_task_kind("analyze_text"), NativeTaskKind::AnalyzeText);
    assert_eq!(classify_task_kind("resize_image"), NativeTaskKind::Unknown);
    assert_eq!(classify_task_kind("Echo"), NativeTaskKind::Unknown);
}

#[test]
fn unknown_task_kinds_fail_with_their_name() {
    assert_eq!(unknown_task_error("resize_image"), "unknown task kind: resize_image");
    assert_eq!(missing_text_error(), "analyze_text expects payload.text");
}

#[test]
fn analyze_text_counts_words_lines_and_chars() {
    let analysis = analyze_text("hello  world\nsecond line");
    assert_eq!(analysis.word_count, 4);
    assert_eq!(analysis.line_count, 2);
    assert_eq!(analysis.char_count, 24);
    assert_eq!(analysis.preview, "hello  world\nsecond line");
}

#[test]
fn analyze_text_of_empty_and_blank_text() {
    let empty = analyze_text("");
    assert_eq!((empty.word_count, empty.line_count, empty.char_count), (0, 0, 0));
    let blank = analyze_text("  \n ");
    assert_eq!(blank.word_count, 0);
    assert_eq!(blank.line_count, 2);
    assert_eq!(blank.char_count, 4);
    let trailing = analyze_text("a\n");
    assert_eq!(trailing.line_count, 1);
}

#[test]
fn analyze_text_previews_the_first_characters() {
    let text: String = "é".repeat(60);
    let analysis = analyze_text(&text);
    assert_eq!(analysis.char_count, 60);
    assert_eq!(analysis.preview.chars().count(), 48);
    assert_eq!(analysis.word_count, 1);
}

#[test]
fn native_workers_leave_one_core_free() {
    assert_eq!(default_native_workers(Some(8)), 7);
    assert_eq!(default_native_workers(Some(2)), 1);
    assert_eq!(default_native_workers(Some(1)), 1);
    assert_eq!(default_native_workers(None), 1);
}

#[test]
fn sleep_echo_waits_and_answers_data_or_payload() {
    let plan = plan_sleep_echo("payload", Some(25), Some("data"));
    assert_eq!(plan.millis, 25);
    assert_eq!(plan.response, "data");
    let plan = plan_sleep_echo("payload", None, None);
    assert_eq!(plan.millis, 0);
    assert_eq!(plan.response, "payload");
}

#[test]
fn analyze_text_needs_a_text_field() {
    assert_eq!(analyze_text_input(Some("hi there".to_owned())), Ok("hi there".to_owned()));
    assert_eq!(analyze_text_input(None), Err("analyze_text expects payload.text".to_owned()));
}
