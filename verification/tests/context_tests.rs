//! The runtime context, the step stack machine and the registry.

use allure::AllureConfigBuilder;
use allure::LabelName;
use allure::Parameter;
use allure::Registry;
use allure::Stage;
use allure::Status;
use allure::TestContext;

#[test]
fn test_config_builder() {
    let config = AllureConfigBuilder::new()
        .results_dir("custom-results".to_string())
        .clean_results(false)
        .config;

    assert_eq!(config.results_dir, "custom-results");
    assert!(!config.clean_results);
}

#[test]
fn test_context_creation() {
    let ctx = TestContext::new("My Test".to_string(), "tests::my_test".to_string());
    assert_eq!(ctx.result.name, "My Test");
    assert_eq!(ctx.result.full_name, Some("tests::my_test".to_string()));
    assert!(ctx
        .result
        .labels
        .iter()
        .any(|l| l.name == "language" && l.value == "rust"));
}

#[test]
fn test_step_nesting() {
    let mut ctx = TestContext::new("Test".to_string(), "test::test".to_string());

    ctx.start_step("Step 1".to_string());
    ctx.start_step("Step 1.1".to_string());
    ctx.finish_step(Status::Passed, None, None);
    ctx.finish_step(Status::Passed, None, None);

    assert_eq!(ctx.result.steps.len(), 1);
    assert_eq!(ctx.result.steps[0].name, "Step 1");
    assert_eq!(ctx.result.steps[0].steps.len(), 1);
    assert_eq!(ctx.result.steps[0].steps[0].name, "Step 1.1");
}

#[test]
fn test_thread_local_context() {
    let mut registry = Registry::new();
    let ctx = TestContext::new("Test".to_string(), "test::test".to_string());
    registry.install(ctx);

    if let Some(ctx) = registry.current_mut() {
        ctx.add_label("custom".to_string(), "value".to_string());
    }

    let ctx = registry.retrieve().unwrap();
    assert!(ctx
        .result
        .labels
        .iter()
        .any(|l| l.name == "custom" && l.value == "value"));
}

#[test]
fn test_with_test_context_clears_after_use() {
    let mut registry = Registry::new();
    let ctx = TestContext::new("doctest".to_string(), "doctest::example".to_string());
    registry.install(ctx);
    let _ = registry.retrieve();
    assert!(registry.retrieve().is_none());
}

#[test]
fn test_finish_step_skipped_branch() {
    let mut ctx = TestContext::new("skip_step".to_string(), "module::skip_step".to_string());
    ctx.start_step("inner".to_string());
    ctx.finish_step(
        Status::Skipped,
        Some("not run".to_string()),
        Some("trace".to_string()),
    );
    assert_eq!(ctx.result.steps[0].status, Status::Skipped);
    assert_eq!(ctx.result.steps[0].stage, Stage::Finished);
}

#[test]
fn test_finish_step_broken_and_unknown_branches() {
    let mut ctx = TestContext::new("broken_step".to_string(), "module::broken_step".to_string());
    ctx.start_step("broken".to_string());
    ctx.finish_step(Status::Broken, Some("oops".to_string()), None);
    assert_eq!(ctx.result.steps[0].status, Status::Broken);
    assert!(ctx.result.steps[0]
        .status_details
        .as_ref()
        .unwrap()
        .message
        .as_ref()
        .unwrap()
        .contains("oops"));

    ctx.start_step("unknown".to_string());
    ctx.finish_step(Status::Unknown, None, None);
    assert_eq!(ctx.result.steps[1].status, Status::Unknown);
    assert_eq!(ctx.result.steps[1].stage, Stage::Finished);
}

#[test]
fn test_add_parameter_struct_applies_to_steps() {
    let mut ctx = TestContext::new("params".to_string(), "module::params".to_string());
    ctx.start_step("outer".to_string());
    ctx.add_parameter_struct(Parameter::excluded("k".to_string(), "v".to_string()));
    assert_eq!(ctx.step_stack[0].parameters.len(), 1);
    assert_eq!(ctx.step_stack[0].parameters[0].excluded, Some(true));
}

#[test]
fn test_finish_breaks_unfinished_steps() {
    let mut ctx = TestContext::new("unclosed".to_string(), "module::unclosed".to_string());
    ctx.start_step("still running".to_string());
    let _files = ctx.finish(Status::Passed, None, None);
    assert_eq!(ctx.step_stack.len(), 0);
    assert_eq!(ctx.result.steps.len(), 1);
    assert_eq!(ctx.result.steps[0].status, Status::Broken);
    assert!(ctx.result.steps[0]
        .status_details
        .as_ref()
        .unwrap()
        .message
        .as_ref()
        .unwrap()
        .contains("Step not completed"));
}

#[test]
fn test_finish_handles_broken_status_with_details() {
    let mut ctx = TestContext::new("broken_test".to_string(), "module::broken_test".to_string());
    let _files = ctx.finish(
        Status::Broken,
        Some("fail".to_string()),
        Some("trace".to_string()),
    );
    assert_eq!(ctx.result.status, Status::Broken);
    let details = ctx.result.status_details.as_ref().unwrap();
    assert_eq!(details.message.as_deref(), Some("fail"));
    assert_eq!(details.trace.as_deref(), Some("trace"));
}

#[test]
fn test_finish_skipped_scenario() {
    let mut ctx = TestContext::new("skippy".to_string(), "module::skippy".to_string());
    let (result_file, container_file) = ctx.finish(
        Status::Skipped,
        Some("reason".to_string()),
        None,
    );
    assert_eq!(ctx.result.status, Status::Skipped);
    assert_eq!(
        ctx.result.status_details.as_ref().unwrap().message.as_deref(),
        Some("reason")
    );

    let parsed: serde_json::Value = serde_json::from_str(&result_file.content).unwrap();
    assert_eq!(parsed["status"], "skipped");
    assert_eq!(parsed["statusDetails"]["message"], "reason");

    let container: serde_json::Value = serde_json::from_str(&container_file.content).unwrap();
    let children = container["children"].as_array().unwrap();
    assert_eq!(children.len(), 1);
    assert_eq!(children[0], serde_json::Value::String(ctx.result.uuid.clone()));
}

#[test]
fn test_finish_sets_history_id() {
    let mut ctx = TestContext::new("h".to_string(), "module::h".to_string());
    let _files = ctx.finish(Status::Passed, None, None);
    let id = ctx.result.history_id.as_ref().unwrap();
    assert_eq!(id.len(), 32);
    assert!(id.chars().all(|c| c.is_ascii_hexdigit()));
}

#[test]
fn test_registry_resolution_order() {
    let mut registry = Registry::new();
    let thread_ctx = TestContext::new("on-thread".to_string(), "m::t".to_string());
    registry.install(thread_ctx);

    let task_ctx = TestContext::new("on-task".to_string(), "m::task".to_string());
    registry.open_task_scope(task_ctx);

    // While the scope is open, the task slot wins.
    assert_eq!(registry.current_mut().unwrap().result.name, "on-task");
    let taken = registry.retrieve().unwrap();
    assert_eq!(taken.result.name, "on-task");

    // With the scope closed, the thread slot is current again.
    let _ = registry.close_task_scope();
    let taken = registry.retrieve().unwrap();
    assert_eq!(taken.result.name, "on-thread");
    assert!(registry.retrieve().is_none());
}

#[test]
fn test_log_step_shape() {
    let mut ctx = TestContext::new("log".to_string(), "module::log".to_string());
    ctx.start_step("Database connection established".to_string());
    ctx.finish_step(Status::Passed, None, None);
    ctx.start_step("Cache was cleared".to_string());
    ctx.finish_step(Status::Passed, None, None);
    assert_eq!(ctx.result.steps.len(), 2);
    assert_eq!(ctx.result.steps[0].name, "Database connection established");
    assert_eq!(ctx.result.steps[1].name, "Cache was cleared");
    assert!(ctx.result.steps.iter().all(|s| s.status == Status::Passed));
}

#[test]
fn test_tags_and_metadata_helpers() {
    let mut ctx = TestContext::new("meta".to_string(), "module::meta".to_string());

    ctx.add_label("env".to_string(), "staging".to_string());
    ctx.add_label_name(LabelName::Tag, "smoke".to_string());
    ctx.add_label_name(LabelName::Tag, "api".to_string());
    ctx.result.name = "Custom Title".to_string();
    ctx.result.description = Some("Markdown".to_string());
    ctx.result.description_html = Some("<p>HTML</p>".to_string());
    ctx.result.test_case_id = Some("TC-1".to_string());

    assert_eq!(ctx.result.name, "Custom Title");
    assert_eq!(ctx.result.description.as_deref(), Some("Markdown"));
    assert_eq!(ctx.result.description_html.as_deref(), Some("<p>HTML</p>"));
    assert_eq!(ctx.result.test_case_id.as_deref(), Some("TC-1"));
    assert!(ctx.result.labels.iter().any(|l| l.value == "staging"));
    assert!(ctx.result.labels.iter().any(|l| l.value == "smoke"));
    assert!(ctx.result.labels.iter().any(|l| l.value == "api"));
}

#[test]
fn test_sibling_steps_keep_call_order() {
    let mut ctx = TestContext::new("order".to_string(), "m::order".to_string());
    ctx.start_step("first".to_string());
    ctx.finish_step(Status::Passed, None, None);
    ctx.start_step("second".to_string());
    ctx.start_step("second.child".to_string());
    ctx.finish_step(Status::Passed, None, None);
    ctx.finish_step(Status::Failed, Some("late".to_string()), None);
    ctx.start_step("third".to_string());
    ctx.finish_step(Status::Passed, None, None);

    let names: Vec<&str> = ctx.result.steps.iter().map(|s| s.name.as_str()).collect();
    assert_eq!(names, vec!["first", "second", "third"]);
    assert_eq!(ctx.result.steps[1].steps.len(), 1);
    assert_eq!(ctx.result.steps[1].steps[0].name, "second.child");
    assert_eq!(ctx.result.steps[1].status, Status::Failed);
}

#[test]
fn test_two_contexts_share_history_id() {
    let mut first = TestContext::new("same".to_string(), "suite::same".to_string());
    first.add_parameter("k".to_string(), "v".to_string());
    let _ = first.finish(Status::Passed, None, None);

    let mut second = TestContext::new("same".to_string(), "suite::same".to_string());
    second.add_parameter("k".to_string(), "v".to_string());
    second.add_parameter_struct(Parameter::excluded("run".to_string(), "2".to_string()));
    let _ = second.finish(Status::Failed, Some("x".to_string()), None);

    let id1 = first.result.history_id.clone().unwrap();
    let id2 = second.result.history_id.clone().unwrap();
    assert_eq!(id1, id2);
    assert_eq!(id1.len(), 32);
    assert!(id1.chars().all(|c| c.is_ascii_hexdigit() && !c.is_ascii_uppercase()));
    assert_ne!(first.result.uuid, second.result.uuid);
}
