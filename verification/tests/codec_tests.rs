//! The JSON encoding and decoding of results, and the writer's files.

use allure::decoding::result_from_json;
use allure::encoding::result_to_json;
use allure::json::render_json;
use allure::json::JsonValue;
use allure::AllureWriter;
use allure::Attachment;
use allure::ContentType;
use allure::Label;
use allure::Link;
use allure::LinkType;
use allure::Parameter;
use allure::Stage;
use allure::Status;
use allure::StatusDetails;
use allure::StepResult;
use allure::TestContext;
use allure::TestResult;

fn sample_result() -> TestResult {
    let mut result = TestResult::new("uuid-123".to_string(), "My Test".to_string());
    result.full_name = Some("module::my_test".to_string());
    result.description = Some("a description".to_string());
    result.add_label("epic".to_string(), "Identity".to_string());
    result.add_label("severity".to_string(), "critical".to_string());
    result.add_link(
        "https://tracker/1".to_string(),
        Some("bug".to_string()),
        LinkType::Issue,
    );
    result.add_parameter("count".to_string(), "42".to_string());
    result.add_attachment(Attachment::new(
        "log".to_string(),
        "abc-attachment.txt".to_string(),
        Some("text/plain".to_string()),
    ));
    let mut inner = StepResult::new("inner".to_string());
    inner.pass();
    let mut outer = StepResult::new("outer".to_string());
    outer.add_step(inner);
    outer.fail(Some("bad".to_string()), None);
    result.add_step(outer);
    result.status = Status::Failed;
    result.stage = Stage::Finished;
    result.status_details = Some(StatusDetails {
        known: Some(false),
        muted: None,
        flaky: Some(true),
        message: Some("boom".to_string()),
        trace: Some("trace".to_string()),
    });
    result
}

fn assert_results_equal(a: &TestResult, b: &TestResult) {
    assert_eq!(a.uuid, b.uuid);
    assert_eq!(a.history_id, b.history_id);
    assert_eq!(a.test_case_id, b.test_case_id);
    assert_eq!(a.name, b.name);
    assert_eq!(a.full_name, b.full_name);
    assert_eq!(a.description, b.description);
    assert_eq!(a.description_html, b.description_html);
    assert_eq!(a.status, b.status);
    assert_eq!(a.stage, b.stage);
    assert_eq!(a.start, b.start);
    assert_eq!(a.stop, b.stop);
    assert_eq!(a.steps.len(), b.steps.len());
    for (sa, sb) in a.steps.iter().zip(b.steps.iter()) {
        assert_steps_equal(sa, sb);
    }
    assert_eq!(a.labels.len(), b.labels.len());
    for (la, lb) in a.labels.iter().zip(b.labels.iter()) {
        assert_eq!(la.name, lb.name);
        assert_eq!(la.value, lb.value);
    }
    assert_eq!(a.links.len(), b.links.len());
    for (la, lb) in a.links.iter().zip(b.links.iter()) {
        assert_eq!(la.name, lb.name);
        assert_eq!(la.url, lb.url);
        assert_eq!(la.link_type, lb.link_type);
    }
    assert_eq!(a.parameters.len(), b.parameters.len());
    for (pa, pb) in a.parameters.iter().zip(b.parameters.iter()) {
        assert_eq!(pa.name, pb.name);
        assert_eq!(pa.value, pb.value);
        assert_eq!(pa.excluded, pb.excluded);
        assert_eq!(pa.mode, pb.mode);
    }
    assert_eq!(a.attachments.len(), b.attachments.len());
    for (aa, ab) in a.attachments.iter().zip(b.attachments.iter()) {
        assert_eq!(aa.name, ab.name);
        assert_eq!(aa.source, ab.source);
        assert_eq!(aa.mime_type, ab.mime_type);
    }
    match (&a.status_details, &b.status_details) {
        (None, None) => {}
        (Some(da), Some(db)) => {
            assert_eq!(da.known, db.known);
            assert_eq!(da.muted, db.muted);
            assert_eq!(da.flaky, db.flaky);
            assert_eq!(da.message, db.message);
            assert_eq!(da.trace, db.trace);
        }
        _ => panic!("details differ"),
    }
}

fn assert_steps_equal(a: &StepResult, b: &StepResult) {
    assert_eq!(a.name, b.name);
    assert_eq!(a.status, b.status);
    assert_eq!(a.stage, b.stage);
    assert_eq!(a.start, b.start);
    assert_eq!(a.stop, b.stop);
    assert_eq!(a.steps.len(), b.steps.len());
    for (sa, sb) in a.steps.iter().zip(b.steps.iter()) {
        assert_steps_equal(sa, sb);
    }
}

#[test]
fn test_result_round_trip_is_field_equal() {
    let result = sample_result();
    let encoded = result_to_json(&result);
    let decoded = result_from_json(&encoded).expect("an encoded result decodes");
    assert_results_equal(&result, &decoded);
}

#[test]
fn test_minimal_result_round_trip() {
    let result = TestResult::new("u".to_string(), "n".to_string());
    let encoded = result_to_json(&result);
    let decoded = result_from_json(&encoded).expect("an encoded result decodes");
    assert_results_equal(&result, &decoded);
}

#[test]
fn test_result_from_non_object_is_rejected() {
    assert!(result_from_json(&JsonValue::Null).is_none());
    assert!(result_from_json(&JsonValue::Str("x".to_string())).is_none());
    assert!(result_from_json(&JsonValue::Obj(Vec::new())).is_none());
}

#[test]
fn test_rendered_result_is_valid_camel_case_json() {
    let result = sample_result();
    let writer = AllureWriter::new();
    let file = writer.plan_test_result(&result);
    assert_eq!(file.name, "uuid-123-result.json");
    let parsed: serde_json::Value = serde_json::from_str(&file.content).unwrap();
    assert_eq!(parsed["uuid"], "uuid-123");
    assert_eq!(parsed["name"], "My Test");
    assert_eq!(parsed["fullName"], "module::my_test");
    assert_eq!(parsed["status"], "failed");
    assert_eq!(parsed["stage"], "finished");
    assert_eq!(parsed["statusDetails"]["flaky"], true);
    assert_eq!(parsed["statusDetails"]["message"], "boom");
    assert_eq!(parsed["labels"][0]["name"], "epic");
    assert_eq!(parsed["links"][0]["type"], "issue");
    assert_eq!(parsed["parameters"][0]["value"], "42");
    assert_eq!(parsed["attachments"][0]["source"], "abc-attachment.txt");
    assert_eq!(parsed["steps"][0]["name"], "outer");
    assert_eq!(parsed["steps"][0]["steps"][0]["name"], "inner");
    // Absent options and empty collections are left out entirely.
    assert!(parsed.get("historyId").is_none());
    assert!(parsed.get("testCaseId").is_none());
}

#[test]
fn test_json_rendering_escapes_strings() {
    let v = JsonValue::Str("a\"b\\c\nd\te\u{1}".to_string());
    let rendered = render_json(&v);
    assert_eq!(rendered, "\"a\\\"b\\\\c\\nd\\te\\u0001\"");
    let back: serde_json::Value = serde_json::from_str(&rendered).unwrap();
    assert_eq!(back, serde_json::Value::String("a\"b\\c\nd\te\u{1}".to_string()));
}

#[test]
fn test_json_rendering_of_numbers() {
    assert_eq!(render_json(&JsonValue::Int(0)), "0");
    assert_eq!(render_json(&JsonValue::Int(1700000000123)), "1700000000123");
    assert_eq!(render_json(&JsonValue::Int(-45)), "-45");
    assert_eq!(
        render_json(&JsonValue::Int(i64::MIN)),
        "-9223372036854775808"
    );
}

#[test]
fn test_attachment_planners_derive_names() {
    let writer = AllureWriter::new();
    let a = writer.plan_text_attachment("Log".to_string());
    assert_eq!(a.name, "Log");
    assert!(a.source.ends_with("-attachment.txt"));
    assert_eq!(a.source.len(), 36 + "-attachment.txt".len());
    assert_eq!(a.mime_type.as_deref(), Some("text/plain"));

    let b = writer.plan_json_attachment("Data".to_string());
    assert!(b.source.ends_with("-attachment.json"));
    assert_eq!(b.mime_type.as_deref(), Some("application/json"));

    let c = writer.plan_binary_attachment("Shot".to_string(), ContentType::Png);
    assert!(c.source.ends_with("-attachment.png"));
    assert_eq!(c.mime_type.as_deref(), Some("image/png"));

    let d = writer.plan_file_attachment("File".to_string(), "PDF", None);
    assert!(d.source.ends_with("-attachment.PDF"));
    assert_eq!(d.mime_type.as_deref(), Some("application/pdf"));

    let e = writer.plan_file_attachment("File".to_string(), "weird", None);
    assert_eq!(e.mime_type, None);
}

#[test]
fn test_container_file_links_result() {
    let mut ctx = TestContext::new("linked".to_string(), "m::linked".to_string());
    let (_result_file, container_file) = ctx.finish(Status::Passed, None, None);
    assert!(container_file.name.ends_with("-container.json"));
    let parsed: serde_json::Value = serde_json::from_str(&container_file.content).unwrap();
    assert_eq!(parsed["children"][0], serde_json::Value::String(ctx.result.uuid.clone()));
    assert_eq!(parsed["start"], serde_json::Value::from(ctx.result.start));
    assert_eq!(parsed["stop"], serde_json::Value::from(ctx.result.stop));
}

#[test]
fn test_label_and_parameter_codec_details() {
    let mut result = TestResult::new("u".to_string(), "n".to_string());
    result.parameters.push(Parameter::hidden("pw".to_string(), "secret".to_string()));
    result.parameters.push(Parameter::excluded("ts".to_string(), "1".to_string()));
    result.labels.push(Label::new("AS_ID".to_string(), "123".to_string()));
    result.links.push(Link::with_name("u://x".to_string(), "x".to_string()));
    let encoded = result_to_json(&result);
    let decoded = result_from_json(&encoded).unwrap();
    assert_eq!(decoded.parameters[0].mode, result.parameters[0].mode);
    assert_eq!(decoded.parameters[1].excluded, Some(true));
    assert_eq!(decoded.labels[0].name, "AS_ID");
    assert_eq!(decoded.links[0].name.as_deref(), Some("x"));
    assert_eq!(decoded.links[0].link_type, None);
}
