//! The classification enums: artifact names, MIME types, extensions.

use allure::ContentType;
use allure::LabelName;
use allure::LinkType;
use allure::ParameterMode;
use allure::Severity;
use allure::Stage;
use allure::Status;

#[test]
fn test_severity_as_str() {
    assert_eq!(Severity::Blocker.as_str(), "blocker");
    assert_eq!(Severity::Critical.as_str(), "critical");
    assert_eq!(Severity::Normal.as_str(), "normal");
}

#[test]
fn test_content_type_mime() {
    assert_eq!(ContentType::Json.as_mime(), "application/json");
    assert_eq!(ContentType::Png.as_mime(), "image/png");
}

#[test]
fn test_label_name_as_str() {
    assert_eq!(LabelName::Epic.as_str(), "epic");
    assert_eq!(LabelName::AllureId.as_str(), "AS_ID");
    assert_eq!(LabelName::ParentSuite.as_str(), "parentSuite");
}

#[test]
fn test_status_display() {
    assert_eq!(Status::Passed.as_str(), "passed");
    assert_eq!(Status::Failed.as_str(), "failed");
    assert_eq!(Status::Broken.as_str(), "broken");
}

#[test]
fn test_stage_display() {
    assert_eq!(Stage::Running.as_str(), "running");
    assert_eq!(Stage::Finished.as_str(), "finished");
}

#[test]
fn test_severity_display() {
    assert_eq!(Severity::Critical.as_str(), "critical");
    assert_eq!(Severity::Blocker.as_str(), "blocker");
}

#[test]
fn test_link_type_display() {
    assert_eq!(LinkType::Issue.as_str(), "issue");
    assert_eq!(LinkType::Tms.as_str(), "tms");
    assert_eq!(LinkType::Default.as_str(), "link");
}

#[test]
fn test_parameter_mode_display() {
    assert_eq!(ParameterMode::Default.as_str(), "default");
    assert_eq!(ParameterMode::Hidden.as_str(), "hidden");
    assert_eq!(ParameterMode::Masked.as_str(), "masked");
}

#[test]
fn test_content_type_display() {
    assert_eq!(ContentType::Json.as_mime(), "application/json");
    assert_eq!(ContentType::Png.as_mime(), "image/png");
}

#[test]
fn test_label_name_display() {
    assert_eq!(LabelName::Epic.as_str(), "epic");
    assert_eq!(LabelName::AllureId.as_str(), "AS_ID");
}

#[test]
fn test_severity_enum_all_variants() {
    let _blocker = Severity::Blocker;
    let _critical = Severity::Critical;
    let _normal = Severity::Normal;
    let _minor = Severity::Minor;
    let _trivial = Severity::Trivial;
}

#[test]
fn test_status_enum_all_variants() {
    let _passed = Status::Passed;
    let _failed = Status::Failed;
    let _broken = Status::Broken;
    let _skipped = Status::Skipped;
}

#[test]
fn test_content_type_extension() {
    assert_eq!(ContentType::Text.extension(), "txt");
    assert_eq!(ContentType::Jpeg.extension(), "jpg");
    assert_eq!(ContentType::ImageDiff.extension(), "imagediff");
    assert_eq!(ContentType::Tsv.as_mime(), "text/tab-separated-values");
    assert_eq!(ContentType::ImageDiff.as_mime(), "application/vnd.allure.image.diff");
}

#[test]
fn test_defaults() {
    assert_eq!(Status::default(), Status::Unknown);
    assert_eq!(Stage::default(), Stage::Finished);
    assert_eq!(Severity::default(), Severity::Normal);
    assert_eq!(LinkType::default(), LinkType::Default);
    assert_eq!(ParameterMode::default(), ParameterMode::Default);
    assert_eq!(ContentType::default(), ContentType::Text);
    assert_eq!(LabelName::default(), LabelName::Tag);
}
