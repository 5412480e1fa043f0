//! A library for assembling and persisting structured test reports: a data
//! model of results, steps, labels, links, parameters and attachments; a
//! runtime context that tracks one test's result tree through a stack of
//! open steps; a registry resolving the current execution's context; a
//! stable history identity; a verified JSON encoding of every artifact; and
//! deterministic derivation of the files a report generator consumes.

pub mod builders;
pub mod codec;
pub mod config;
pub mod context;
pub mod decoding;
pub mod encoding;
pub mod enums;
pub mod history;
pub mod json;
pub mod machine;
pub mod model;
pub mod prelude;
pub mod registry;
pub mod text;
pub mod trusted;
pub mod views;
pub mod writer;

pub use builders::categories;
pub use builders::environment;
pub use builders::CategoriesBuilder;
pub use builders::EnvironmentBuilder;
pub use config::configure;
pub use config::AllureConfig;
pub use config::AllureConfigBuilder;
pub use context::TestContext;
pub use enums::ContentType;
pub use enums::LabelName;
pub use enums::LinkType;
pub use enums::ParameterMode;
pub use enums::Severity;
pub use enums::Stage;
pub use enums::Status;
pub use history::compute_history_id;
pub use model::current_time_ms;
pub use model::Attachment;
pub use model::Category;
pub use model::FixtureResult;
pub use model::Label;
pub use model::Link;
pub use model::Parameter;
pub use model::StatusDetails;
pub use model::StepResult;
pub use model::TestResult;
pub use model::TestResultContainer;
pub use registry::Registry;
pub use trusted::generate_uuid;
pub use writer::AllureWriter;
pub use writer::OutputFile;
pub use writer::DEFAULT_RESULTS_DIR;
