use server_errors::{
    dump, render, CallSite, FieldValue, GenericErrorShape, GenericServerErrorKind,
    GenericServerErrorTrait, ServerErrorBehaviour, ServerErrorContext, ServerErrorKind,
    ServerErrorTag, ServerErrorTrait, TemplateError,
};

fn here() -> CallSite {
    CallSite::new("src/handler.rs", 42, 9)
}

fn kind_with(policy: ServerErrorContext, template: &str, fields: &[&str]) -> ServerErrorKind {
    ServerErrorKind::declare(
        "Probe",
        template,
        fields.iter().map(|f| f.to_string()).collect(),
        policy,
        ServerErrorBehaviour::LogErrorForwardToClient,
        ServerErrorTag::Normal,
    )
    .unwrap()
}

#[test]
fn critical_scenario_with_debug() {
    let kind = ServerErrorKind::declare_critical(
        "CriticalError",
        "Unexpected: {details}.",
        vec!["details".to_string()],
    )
    .unwrap();
    let error = kind.with_debug(
        &here(),
        &vec![FieldValue::Text("oops".to_string())],
        format!("{:?}", &"dbg"),
    );
    assert!(error.debug().unwrap().contains("dbg"));
    assert_eq!(error.message(), "Unexpected: oops.");
    let rendered = error.to_string();
    assert!(rendered.contains("CRITICAL"));
    assert!(rendered.contains("Unexpected: oops."));
}

#[test]
fn every_instance_carries_the_kind_policy() {
    let kind = ServerErrorKind::declare_client("Probe", "code {code}", vec!["code".to_string()])
        .unwrap();
    let a = kind.new(&here(), &vec![FieldValue::Int(1)]);
    let b = kind.with_debug(&CallSite::new("x.rs", 1, 1), &vec![FieldValue::Int(2)], "d".to_string());
    assert_eq!(a.behaviour(), b.behaviour());
    assert_eq!(a.tag(), b.tag());
    assert_eq!(a.tag(), ServerErrorTag::Normal);
}

#[test]
fn omitted_context_is_the_sentinel() {
    let kind = kind_with(ServerErrorContext::Omit, "m", &[]);
    let error = kind.new(&here(), &vec![]);
    assert_eq!(error.context(), "OMITTED");
}

#[test]
fn location_context_is_the_call_site() {
    let kind = kind_with(ServerErrorContext::Location, "m", &[]);
    let error = kind.new(&here(), &vec![]);
    assert_eq!(error.context(), "src/handler.rs:42:9");
}

#[test]
fn backtrace_context_starts_at_the_call_site() {
    let kind = kind_with(ServerErrorContext::Backtrace, "m", &[]);
    let error = kind.new(&here(), &vec![]);
    assert!(error.context().starts_with("src/handler.rs:42:9\n"));
    assert!(error.context().len() > "src/handler.rs:42:9\n".len());
}

#[test]
fn message_substitutes_fields_for_both_constructors() {
    let kind = kind_with(
        ServerErrorContext::Omit,
        "{a} and {b}, then {a} again",
        &["a", "b"],
    );
    let args = vec![FieldValue::Text("x".to_string()), FieldValue::Int(-7)];
    let plain = kind.new(&here(), &args);
    let with_debug = kind.with_debug(&here(), &args, "payload".to_string());
    assert_eq!(plain.message(), "x and -7, then x again");
    assert_eq!(with_debug.message(), plain.message());
}

#[test]
fn doubled_braces_stand_for_one_brace() {
    let kind = kind_with(ServerErrorContext::Omit, "{{literal}} {v}", &["v"]);
    let error = kind.new(&here(), &vec![FieldValue::Int(0)]);
    assert_eq!(error.message(), "{literal} 0");
}

#[test]
fn integers_render_in_decimal() {
    let kind = kind_with(ServerErrorContext::Omit, "{n}", &["n"]);
    let low = kind.new(&here(), &vec![FieldValue::Int(i64::MIN)]);
    assert_eq!(low.message(), "-9223372036854775808");
    let high = kind.new(&here(), &vec![FieldValue::Int(i64::MAX)]);
    assert_eq!(high.message(), "9223372036854775807");
    let ten = kind.new(&here(), &vec![FieldValue::Int(10)]);
    assert_eq!(ten.message(), "10");
}

#[test]
fn zero_field_template_is_accepted() {
    let kind = kind_with(ServerErrorContext::Omit, "", &[]);
    let error = kind.new(&here(), &vec![]);
    assert_eq!(error.message(), "");
}

#[test]
fn unclosed_placeholder_is_refused() {
    let r = ServerErrorKind::declare_user("Bad", "oops {code", vec!["code".to_string()]);
    assert_eq!(r.unwrap_err(), TemplateError::UnclosedPlaceholder);
}

#[test]
fn unknown_field_is_refused() {
    let r = ServerErrorKind::declare_user("Bad", "oops {nope}", vec!["code".to_string()]);
    assert_eq!(r.unwrap_err(), TemplateError::UnknownField);
}

#[test]
fn lone_closing_brace_is_refused() {
    let r = ServerErrorKind::declare_user("Bad", "oops } here", vec![]);
    assert_eq!(r.unwrap_err(), TemplateError::UnmatchedBrace);
}

#[test]
fn debug_absent_after_new_present_after_with_debug() {
    let kind = kind_with(ServerErrorContext::Omit, "m", &[]);
    assert!(kind.new(&here(), &vec![]).debug().is_none());
    let error = kind.with_debug(&here(), &vec![], format!("{:?}", &vec![1, 2]));
    assert_eq!(error.debug().unwrap(), "[1, 2]");
}

#[test]
fn dump_lists_every_field() {
    let kind = kind_with(ServerErrorContext::Location, "msg", &[]);
    let plain = kind.new(&CallSite::new("a.rs", 3, 4), &vec![]);
    assert_eq!(
        dump(&plain),
        "Probe {\n    context: \"a.rs:3:4\",\n    message: \"msg\",\n    debug: None,\n}"
    );
    let with_debug = kind.with_debug(&CallSite::new("a.rs", 3, 4), &vec![], "d".to_string());
    assert_eq!(
        dump(&with_debug),
        "Probe {\n    context: \"a.rs:3:4\",\n    message: \"msg\",\n    debug: Some(\n        \"d\",\n    ),\n}"
    );
}

#[test]
fn rendering_is_repeatable_and_ends_with_the_dump() {
    let kind = kind_with(ServerErrorContext::Location, "Plain failure.", &[]);
    let error = kind.with_debug(&here(), &vec![], "payload".to_string());
    let first = render(&error);
    let second = render(&error);
    assert_eq!(first, second);
    assert!(first.contains("Plain failure."));
    assert!(first.contains("payload"));
    assert!(first.ends_with(&format!("\n{}", dump(&error))));
    assert!(!first.contains("CRITICAL"));
}

#[test]
fn user_visible_with_info_scenario() {
    let kind = GenericServerErrorKind::declare(
        "UserVisibleError",
        "User-visible error: {user_visible_info}.",
        GenericErrorShape::UserVisibleWithInfo,
    )
    .unwrap();
    let error = kind.new("cxt", "msg", "info");
    assert_eq!(error.to_string(), "User-visible error: info.");
    assert!(error.should_be_shown_to_client());
}

#[test]
fn internal_default_scenario() {
    let kind =
        GenericServerErrorKind::declare("InternalError", "Internal error.", GenericErrorShape::Internal)
            .unwrap();
    let error = kind.default();
    assert_eq!(
        error.to_string(),
        "Internal error.\nInternalError {\n    context: \"\",\n    debug: \"\",\n    user_visible_info: \"\",\n}"
    );
    assert!(!error.should_be_shown_to_client());
}

#[test]
fn plain_user_visible_hides_debug() {
    let kind = GenericServerErrorKind::declare(
        "NotFound",
        "Not found.",
        GenericErrorShape::UserVisible,
    )
    .unwrap();
    let error = kind.new("cxt", "secret detail", "info");
    assert_eq!(error.to_string(), "Not found.");
    assert!(error.should_be_shown_to_client());
    assert!(kind.default().should_be_shown_to_client());
    assert_eq!(error.debug(), "secret detail");
}

#[test]
fn generic_template_may_only_name_its_info() {
    let r = GenericServerErrorKind::declare("Bad", "x {user_visible_info}", GenericErrorShape::Internal);
    assert_eq!(r.unwrap_err(), TemplateError::UnknownField);
}

#[test]
fn dump_quotes_and_escapes_like_debug() {
    let kind = kind_with(ServerErrorContext::Omit, "say \"hi\"\n", &[]);
    let error = kind.with_debug(&here(), &vec![], format!("{:?}", &"debug info".to_string()));
    let d = dump(&error);
    assert_eq!(
        d,
        "Probe {\n    context: \"OMITTED\",\n    message: \"say \\\"hi\\\"\\n\",\n    debug: Some(\n        \"\\\"debug info\\\"\",\n    ),\n}"
    );
    assert!(render(&error).ends_with(&d));
}

#[test]
fn internal_generic_dump_quotes_fields() {
    let kind =
        GenericServerErrorKind::declare("Oops", "Internal error.", GenericErrorShape::Internal)
            .unwrap();
    let error = kind.new("cxt", "a\tb", "info");
    assert_eq!(
        error.to_string(),
        "Internal error.\nOops {\n    context: \"cxt\",\n    debug: \"a\\tb\",\n    user_visible_info: \"info\",\n}"
    );
}

#[derive(Debug)]
#[allow(dead_code)]
struct Probe {
    context: String,
    message: String,
    debug: Option<String>,
}

#[test]
fn dump_matches_derived_pretty_debug() {
    let kind = kind_with(ServerErrorContext::Location, "tab\there {v}", &["v"]);
    let args = vec![FieldValue::Text("ünï\\code".to_string())];
    for error in [
        kind.new(&here(), &args),
        kind.with_debug(&here(), &args, format!("{:?}", &vec!["x"])),
    ] {
        let expected = Probe {
            context: error.context().clone(),
            message: error.message().clone(),
            debug: error.debug().cloned(),
        };
        assert_eq!(dump(&error), format!("{:#?}", expected));
    }
}
