use handlebars::Handlebars;
use mpris_format::format::{
    closes_with_subexpression, compile_outcome, located_error_message, render_outcome, option_usize_to_string, parse_interval, render_template, run,
    setup_template, Error, Mode, RenderHistory, DEFAULT_INTERVAL_MS,
};

#[test]
fn positions_render_as_numbers_or_question_marks() {
    assert_eq!(option_usize_to_string(Some(12)), "12");
    assert_eq!(option_usize_to_string(Some(0)), "0");
    assert_eq!(option_usize_to_string(None), "?");
}

#[test]
fn error_messages_say_where() {
    assert_eq!(
        located_error_message("invalid handlebars syntax.", Some(1), Some(7)),
        "invalid handlebars syntax.\n(at line 1, column 7)"
    );
    assert_eq!(located_error_message("oops", None, Some(3)), "oops\n(at line ?, column 3)");
}

#[test]
fn a_bad_template_is_a_template_error() {
    let mut registry = Handlebars::new();
    match setup_template(&mut registry, "{{#or}}never closed") {
        Err(Error::TemplateError(message)) => assert!(message.contains("\n(at line ")),
        other => panic!("expected a template error, got {:?}", other),
    }
}

#[test]
fn a_template_renders_against_a_context() {
    let mut registry = Handlebars::new();
    registry.register_escape_fn(handlebars::no_escape);
    assert_eq!(setup_template(&mut registry, "Now: {{title}} <{{missing}}>"), Ok(()));
    let mut fields = serde_json::Map::new();
    fields.insert("title".to_string(), serde_json::Value::String("A & B".to_string()));
    let context = serde_json::Value::Object(fields);
    assert_eq!(render_template(&registry, &context), Ok("Now: A & B <>".to_string()));
}

#[test]
fn an_unknown_helper_is_a_render_error() {
    let mut registry = Handlebars::new();
    assert_eq!(setup_template(&mut registry, "{{#nothing}}x{{/nothing}}"), Ok(()));
    let context = serde_json::Value::Null;
    match render_template(&registry, &context) {
        Err(Error::RenderError(message)) => assert!(message.contains("\n(at line ")),
        other => panic!("expected a render error, got {:?}", other),
    }
}

#[test]
fn watching_prints_only_changes() {
    let mut history = RenderHistory::new();
    assert_eq!(history.observe("a".to_string()), Some("a".to_string()));
    assert_eq!(history.observe("a".to_string()), None);
    assert_eq!(history.observe("b".to_string()), Some("b".to_string()));
    assert_eq!(history.last_output, "b");
}

#[test]
fn watching_suppresses_an_empty_first_render() {
    let mut history = RenderHistory::new();
    assert_eq!(history.observe(String::new()), None);
    assert_eq!(history.observe("x".to_string()), Some("x".to_string()));
    assert_eq!(history.observe(String::new()), Some(String::new()));
}

#[test]
fn intervals_parse_like_unsigned_integers() {
    assert_eq!(parse_interval("250"), Some(250));
    assert_eq!(parse_interval("+1000"), Some(1000));
    assert_eq!(parse_interval("0"), Some(0));
    assert_eq!(parse_interval("4294967295"), Some(u32::MAX));
    assert_eq!(parse_interval("4294967296"), None);
    assert_eq!(parse_interval("99999999999999999999"), None);
    assert_eq!(parse_interval(""), None);
    assert_eq!(parse_interval("+"), None);
    assert_eq!(parse_interval("-1"), None);
    assert_eq!(parse_interval("12ms"), None);
    assert_eq!(parse_interval(" 12"), None);
}

#[test]
fn run_picks_the_mode() {
    assert_eq!(run(false, "100"), Mode::Once);
    assert_eq!(run(true, "100"), Mode::Watch(100));
    assert_eq!(run(true, "soon"), Mode::Watch(DEFAULT_INTERVAL_MS));
    assert_eq!(DEFAULT_INTERVAL_MS, 250);
}

#[test]
fn compile_results_become_library_results() {
    assert_eq!(compile_outcome(Ok(())), Ok(()));
    let error = Handlebars::new().register_template_string("t", "a\n{{#or}}x").unwrap_err();
    let position = |n: Option<usize>| n.map(|v| v.to_string()).unwrap_or_else(|| "?".to_string());
    let expected = format!(
        "{}\n(at line {}, column {})",
        error.reason,
        position(error.line_no),
        position(error.column_no)
    );
    assert_eq!(compile_outcome(Err(error)), Err(Error::TemplateError(expected)));
}

#[test]
fn render_results_become_library_results() {
    assert_eq!(render_outcome(Ok("done".to_string())), Ok("done".to_string()));
    assert_eq!(
        render_outcome(Err(handlebars::RenderError::new("boom"))),
        Err(Error::RenderError("boom\n(at line ?, column ?)".to_string()))
    );
}

#[test]
fn unclosed_and_mismatched_templates_do_not_compile() {
    for template in &["{{title", "{{#or null}}x{{/join}}"] {
        let mut registry = Handlebars::new();
        match setup_template(&mut registry, template) {
            Err(Error::TemplateError(message)) => assert!(message.contains("\n(at line ")),
            other => panic!("expected a template error for {}, got {:?}", template, other),
        }
    }
}

#[test]
fn blocks_closed_by_subexpressions_are_refused() {
    for template in &[
        "{{#or null}}x{{/(or)}}",
        "{{{{raw}}}}x{{{{/(raw)}}}}",
        "{{#or null}}x{{~ / (or)}}",
        "{{#or null}}x{{\n/\t(or)~}}",
    ] {
        assert!(closes_with_subexpression(template));
        let mut registry = Handlebars::new();
        assert_eq!(
            setup_template(&mut registry, template),
            Err(Error::TemplateError(
                "a block cannot be closed by a subexpression\n(at line ?, column ?)".to_string()
            ))
        );
    }
}

#[test]
fn ordinary_closing_tags_are_not_subexpressions() {
    for template in &["{{#or null}}x{{/or}}", "{{ (or a) }}", "{{/or}} (", "{ {/(", "{{~/x}}("] {
        assert!(!closes_with_subexpression(template));
    }
    let mut registry = Handlebars::new();
    assert_eq!(setup_template(&mut registry, "{{#or null}}x{{~/or}}"), Ok(()));
}
