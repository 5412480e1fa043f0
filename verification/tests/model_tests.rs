//! The data model: constructors, mutators, builder-style helpers.

use allure::Category;
use allure::FixtureResult;
use allure::Label;
use allure::LabelName;
use allure::Link;
use allure::LinkType;
use allure::Parameter;
use allure::ParameterMode;
use allure::Severity;
use allure::Stage;
use allure::Status;
use allure::StepResult;
use allure::TestResult;
use allure::TestResultContainer;

#[test]
fn test_test_result_new() {
    let result = TestResult::new("test-uuid".to_string(), "Test Name".to_string());
    assert_eq!(result.uuid, "test-uuid");
    assert_eq!(result.name, "Test Name");
    assert_eq!(result.status, Status::Unknown);
    assert_eq!(result.stage, Stage::Running);
}

#[test]
fn test_step_result() {
    let mut step = StepResult::new("Step 1".to_string());
    step.add_parameter("input".to_string(), "value".to_string());
    step.pass();

    assert_eq!(step.status, Status::Passed);
    assert_eq!(step.stage, Stage::Finished);
    assert_eq!(step.parameters.len(), 1);
}

#[test]
fn test_label_constructors() {
    let epic = Label::epic("My Epic".to_string());
    assert_eq!(epic.name, "epic");
    assert_eq!(epic.value, "My Epic");

    let severity = Label::severity(Severity::Critical);
    assert_eq!(severity.name, "severity");
    assert_eq!(severity.value, "critical");
}

#[test]
fn test_link_constructors() {
    let issue = Link::issue("https://jira.com/PROJ-123".to_string(), Some("PROJ-123".to_string()));
    assert_eq!(issue.link_type, Some(LinkType::Issue));
    assert_eq!(issue.url, "https://jira.com/PROJ-123");
}

#[test]
fn test_parameter_modes() {
    let masked = Parameter::masked("password".to_string(), "secret123".to_string());
    assert_eq!(masked.mode, Some(ParameterMode::Masked));

    let excluded = Parameter::excluded("timestamp".to_string(), "123456".to_string());
    assert_eq!(excluded.excluded, Some(true));
}

#[test]
fn test_container() {
    let mut container = TestResultContainer::new("container-uuid".to_string());
    container.add_child("test-1".to_string());
    container.add_child("test-2".to_string());

    let mut before = FixtureResult::new("setup".to_string());
    before.pass();
    container.add_before(before);

    assert_eq!(container.children.len(), 2);
    assert_eq!(container.befores.len(), 1);
}

#[test]
fn test_category() {
    let category = Category::new("Infrastructure Issues".to_string())
        .with_status(Status::Broken)
        .with_message_regex(".*timeout.*".to_string())
        .as_flaky();

    assert_eq!(category.name, "Infrastructure Issues");
    assert_eq!(category.matched_statuses, vec![Status::Broken]);
    assert_eq!(category.message_regex, Some(".*timeout.*".to_string()));
    assert_eq!(category.flaky, Some(true));
}

#[test]
fn test_result_status_transitions() {
    let mut result = TestResult::new("u".to_string(), "n".to_string());
    result.fail(Some("boom".to_string()), Some("trace".to_string()));
    assert_eq!(result.status, Status::Failed);
    assert_eq!(result.stage, Stage::Finished);
    let details = result.status_details.as_ref().unwrap();
    assert_eq!(details.message.as_deref(), Some("boom"));
    assert_eq!(details.trace.as_deref(), Some("trace"));

    let mut result2 = TestResult::new("u2".to_string(), "n2".to_string());
    result2.broken(None, None);
    assert_eq!(result2.status, Status::Broken);
    assert!(result2.status_details.is_none());
}

#[test]
fn test_pass_keeps_flaky_flag() {
    let mut result = TestResult::new("u".to_string(), "n".to_string());
    let mut details = allure::StatusDetails::default();
    details.flaky = Some(true);
    result.status_details = Some(details);
    result.pass();
    assert_eq!(result.status, Status::Passed);
    assert_eq!(result.status_details.unwrap().flaky, Some(true));
}

#[test]
fn test_label_from_name_variants() {
    assert_eq!(Label::from_name(LabelName::Host, "h".to_string()).name, "host");
    assert_eq!(Label::thread("t-1".to_string()).name, "thread");
    assert_eq!(Label::framework("fw".to_string()).name, "framework");
    assert_eq!(Label::language("rust".to_string()).name, "language");
    assert_eq!(Label::package("pkg".to_string()).name, "package");
    assert_eq!(Label::test_class("cls".to_string()).name, "testClass");
    assert_eq!(Label::test_method("m".to_string()).name, "testMethod");
    assert_eq!(Label::sub_suite("s".to_string()).name, "subSuite");
}
