//! Convenient re-exports of the commonly used items.

pub use crate::builders::categories;
pub use crate::builders::environment;
pub use crate::builders::CategoriesBuilder;
pub use crate::builders::EnvironmentBuilder;
pub use crate::config::configure;
pub use crate::config::AllureConfig;
pub use crate::config::AllureConfigBuilder;
pub use crate::context::TestContext;
pub use crate::enums::ContentType;
pub use crate::enums::LabelName;
pub use crate::enums::LinkType;
pub use crate::enums::ParameterMode;
pub use crate::enums::Severity;
pub use crate::enums::Stage;
pub use crate::enums::Status;
pub use crate::history::compute_history_id;
pub use crate::model::Attachment;
pub use crate::model::Category;
pub use crate::model::FixtureResult;
pub use crate::model::Label;
pub use crate::model::Link;
pub use crate::model::Parameter;
pub use crate::model::StatusDetails;
pub use crate::model::StepResult;
pub use crate::model::TestResult;
pub use crate::model::TestResultContainer;
pub use crate::registry::Registry;
pub use crate::trusted::generate_uuid;
pub use crate::writer::AllureWriter;
pub use crate::writer::OutputFile;
pub use crate::writer::DEFAULT_RESULTS_DIR;
