//! Classification enums for test outcomes, execution stages, severities,
//! link kinds, parameter display modes, attachment content types and
//! reserved label names.

use vstd::prelude::*;

verus! {

/// Outcome of a test or step.
#[derive(Debug, Clone, Copy, PartialEq, Eq, Hash, Structural)]
pub enum Status {
    /// Test passed successfully.
    Passed,
    /// Test failed on an assertion (product defect).
    Failed,
    /// Test broke on an unexpected error (test defect).
    Broken,
    /// Test was skipped.
    Skipped,
    /// Outcome not yet decided.
    Unknown,
}

impl Status {
    /// The lowercase name under which the status appears in report artifacts.
    pub open spec fn spec_str(self) -> Seq<char> {
        match self {
            Status::Passed => "passed"@,
            Status::Failed => "failed"@,
            Status::Broken => "broken"@,
            Status::Skipped => "skipped"@,
            Status::Unknown => "unknown"@,
        }
    }

    /// Lowercase status name; the fixed vocabulary of the artifact format.
    pub fn as_str(&self) -> (r: &'static str)
        ensures
            r@ == self.spec_str(),
    {
        match self {
            Status::Passed => "passed",
            Status::Failed => "failed",
            Status::Broken => "broken",
            Status::Skipped => "skipped",
            Status::Unknown => "unknown",
        }
    }
}

impl Default for Status {
    /// A fresh result starts with an undecided outcome.
    fn default() -> (r: Self)
        ensures
            r == Status::Unknown,
    {
        Status::Unknown
    }
}

/// Execution stage of a test, step or fixture.
#[derive(Debug, Clone, Copy, PartialEq, Eq, Hash, Structural)]
pub enum Stage {
    /// Scheduled but not started.
    Scheduled,
    /// Currently running.
    Running,
    /// Finished execution.
    Finished,
    /// Pending.
    Pending,
    /// Interrupted.
    Interrupted,
}

impl Stage {
    /// The lowercase name under which the stage appears in report artifacts.
    pub open spec fn spec_str(self) -> Seq<char> {
        match self {
            Stage::Scheduled => "scheduled"@,
            Stage::Running => "running"@,
            Stage::Finished => "finished"@,
            Stage::Pending => "pending"@,
            Stage::Interrupted => "interrupted"@,
        }
    }

    /// Lowercase stage name.
    pub fn as_str(&self) -> (r: &'static str)
        ensures
            r@ == self.spec_str(),
    {
        match self {
            Stage::Scheduled => "scheduled",
            Stage::Running => "running",
            Stage::Finished => "finished",
            Stage::Pending => "pending",
            Stage::Interrupted => "interrupted",
        }
    }
}

impl Default for Stage {
    fn default() -> (r: Self)
        ensures
            r == Stage::Finished,
    {
        Stage::Finished
    }
}

/// Severity level used for test prioritisation.
#[derive(Debug, Clone, Copy, PartialEq, Eq, Hash, Structural)]
pub enum Severity {
    /// System is unusable.
    Blocker,
    /// Major functionality is broken.
    Critical,
    /// Standard importance.
    Normal,
    /// Minor issue.
    Minor,
    /// Cosmetic issue.
    Trivial,
}

impl Severity {
    /// The lowercase label value of this severity.
    pub open spec fn spec_str(self) -> Seq<char> {
        match self {
            Severity::Blocker => "blocker"@,
            Severity::Critical => "critical"@,
            Severity::Normal => "normal"@,
            Severity::Minor => "minor"@,
            Severity::Trivial => "trivial"@,
        }
    }

    /// The string representation used in labels.
    pub fn as_str(&self) -> (r: &'static str)
        ensures
            r@ == self.spec_str(),
    {
        match self {
            Severity::Blocker => "blocker",
            Severity::Critical => "critical",
            Severity::Normal => "normal",
            Severity::Minor => "minor",
            Severity::Trivial => "trivial",
        }
    }
}

impl Default for Severity {
    fn default() -> (r: Self)
        ensures
            r == Severity::Normal,
    {
        Severity::Normal
    }
}

/// Kind of an external link attached to a test.
#[derive(Debug, Clone, Copy, PartialEq, Eq, Hash, Structural)]
pub enum LinkType {
    /// Plain link.
    Default,
    /// Link into an issue tracker.
    Issue,
    /// Link into a test management system.
    Tms,
}

impl LinkType {
    /// The name under which the link kind appears in report artifacts.
    pub open spec fn spec_str(self) -> Seq<char> {
        match self {
            LinkType::Default => "link"@,
            LinkType::Issue => "issue"@,
            LinkType::Tms => "tms"@,
        }
    }

    /// Artifact name of the link kind.
    pub fn as_str(&self) -> (r: &'static str)
        ensures
            r@ == self.spec_str(),
    {
        match self {
            LinkType::Default => "link",
            LinkType::Issue => "issue",
            LinkType::Tms => "tms",
        }
    }
}

impl Default for LinkType {
    fn default() -> (r: Self)
        ensures
            r == LinkType::Default,
    {
        LinkType::Default
    }
}

/// How a parameter value is displayed in the report.
#[derive(Debug, Clone, Copy, PartialEq, Eq, Hash, Structural)]
pub enum ParameterMode {
    /// Show the value as-is.
    Default,
    /// Hide the value completely.
    Hidden,
    /// Mask the value, e.g. for passwords.
    Masked,
}

impl ParameterMode {
    /// The lowercase name under which the mode appears in report artifacts.
    pub open spec fn spec_str(self) -> Seq<char> {
        match self {
            ParameterMode::Default => "default"@,
            ParameterMode::Hidden => "hidden"@,
            ParameterMode::Masked => "masked"@,
        }
    }

    /// Lowercase mode name.
    pub fn as_str(&self) -> (r: &'static str)
        ensures
            r@ == self.spec_str(),
    {
        match self {
            ParameterMode::Default => "default",
            ParameterMode::Hidden => "hidden",
            ParameterMode::Masked => "masked",
        }
    }
}

impl Default for ParameterMode {
    fn default() -> (r: Self)
        ensures
            r == ParameterMode::Default,
    {
        ParameterMode::Default
    }
}

/// Content type of an attachment payload.
#[derive(Debug, Clone, Copy, PartialEq, Eq, Hash, Structural)]
pub enum ContentType {
    /// Plain text.
    Text,
    /// JSON.
    Json,
    /// XML.
    Xml,
    /// HTML.
    Html,
    /// Comma-separated values.
    Csv,
    /// Tab-separated values.
    Tsv,
    /// CSS stylesheet.
    Css,
    /// URI list.
    Uri,
    /// SVG image.
    Svg,
    /// PNG image.
    Png,
    /// JPEG image.
    Jpeg,
    /// WebM video.
    Webm,
    /// MP4 video.
    Mp4,
    /// ZIP archive.
    Zip,
    /// Image diff payload.
    ImageDiff,
}

impl ContentType {
    /// The MIME type of this content type.
    pub open spec fn spec_mime(self) -> Seq<char> {
        match self {
            ContentType::Text => "text/plain"@,
            ContentType::Json => "application/json"@,
            ContentType::Xml => "application/xml"@,
            ContentType::Html => "text/html"@,
            ContentType::Csv => "text/csv"@,
            ContentType::Tsv => "text/tab-separated-values"@,
            ContentType::Css => "text/css"@,
            ContentType::Uri => "text/uri-list"@,
            ContentType::Svg => "image/svg+xml"@,
            ContentType::Png => "image/png"@,
            ContentType::Jpeg => "image/jpeg"@,
            ContentType::Webm => "video/webm"@,
            ContentType::Mp4 => "video/mp4"@,
            ContentType::Zip => "application/zip"@,
            ContentType::ImageDiff => "application/vnd.allure.image.diff"@,
        }
    }

    /// The file extension used for attachment files of this content type.
    pub open spec fn spec_extension(self) -> Seq<char> {
        match self {
            ContentType::Text => "txt"@,
            ContentType::Json => "json"@,
            ContentType::Xml => "xml"@,
            ContentType::Html => "html"@,
            ContentType::Csv => "csv"@,
            ContentType::Tsv => "tsv"@,
            ContentType::Css => "css"@,
            ContentType::Uri => "uri"@,
            ContentType::Svg => "svg"@,
            ContentType::Png => "png"@,
            ContentType::Jpeg => "jpg"@,
            ContentType::Webm => "webm"@,
            ContentType::Mp4 => "mp4"@,
            ContentType::Zip => "zip"@,
            ContentType::ImageDiff => "imagediff"@,
        }
    }

    /// The MIME type string.
    pub fn as_mime(&self) -> (r: &'static str)
        ensures
            r@ == self.spec_mime(),
    {
        match self {
            ContentType::Text => "text/plain",
            ContentType::Json => "application/json",
            ContentType::Xml => "application/xml",
            ContentType::Html => "text/html",
            ContentType::Csv => "text/csv",
            ContentType::Tsv => "text/tab-separated-values",
            ContentType::Css => "text/css",
            ContentType::Uri => "text/uri-list",
            ContentType::Svg => "image/svg+xml",
            ContentType::Png => "image/png",
            ContentType::Jpeg => "image/jpeg",
            ContentType::Webm => "video/webm",
            ContentType::Mp4 => "video/mp4",
            ContentType::Zip => "application/zip",
            ContentType::ImageDiff => "application/vnd.allure.image.diff",
        }
    }

    /// The file extension for this content type.
    pub fn extension(&self) -> (r: &'static str)
        ensures
            r@ == self.spec_extension(),
    {
        match self {
            ContentType::Text => "txt",
            ContentType::Json => "json",
            ContentType::Xml => "xml",
            ContentType::Html => "html",
            ContentType::Csv => "csv",
            ContentType::Tsv => "tsv",
            ContentType::Css => "css",
            ContentType::Uri => "uri",
            ContentType::Svg => "svg",
            ContentType::Png => "png",
            ContentType::Jpeg => "jpg",
            ContentType::Webm => "webm",
            ContentType::Mp4 => "mp4",
            ContentType::Zip => "zip",
            ContentType::ImageDiff => "imagediff",
        }
    }
}

impl Default for ContentType {
    fn default() -> (r: Self)
        ensures
            r == ContentType::Text,
    {
        ContentType::Text
    }
}

/// Reserved label names with a special meaning in reports.
#[derive(Debug, Clone, Copy, PartialEq, Eq, Hash, Structural)]
pub enum LabelName {
    /// Test case identifier for report tooling.
    AllureId,
    /// Suite name.
    Suite,
    /// Parent suite name.
    ParentSuite,
    /// Sub-suite name.
    SubSuite,
    /// Top-level business capability.
    Epic,
    /// Feature under an epic.
    Feature,
    /// User story under a feature.
    Story,
    /// Severity of the test.
    Severity,
    /// Free-form tag.
    Tag,
    /// Owner or maintainer.
    Owner,
    /// Execution host.
    Host,
    /// Executing thread.
    Thread,
    /// Test method name.
    TestMethod,
    /// Test class name.
    TestClass,
    /// Package or module name.
    Package,
    /// Test framework name.
    Framework,
    /// Programming language.
    Language,
}

impl LabelName {
    /// The label name as it appears in report artifacts.
    pub open spec fn spec_str(self) -> Seq<char> {
        match self {
            LabelName::AllureId => "AS_ID"@,
            LabelName::Suite => "suite"@,
            LabelName::ParentSuite => "parentSuite"@,
            LabelName::SubSuite => "subSuite"@,
            LabelName::Epic => "epic"@,
            LabelName::Feature => "feature"@,
            LabelName::Story => "story"@,
            LabelName::Severity => "severity"@,
            LabelName::Tag => "tag"@,
            LabelName::Owner => "owner"@,
            LabelName::Host => "host"@,
            LabelName::Thread => "thread"@,
            LabelName::TestMethod => "testMethod"@,
            LabelName::TestClass => "testClass"@,
            LabelName::Package => "package"@,
            LabelName::Framework => "framework"@,
            LabelName::Language => "language"@,
        }
    }

    /// The string name used in report artifacts.
    pub fn as_str(&self) -> (r: &'static str)
        ensures
            r@ == self.spec_str(),
    {
        match self {
            LabelName::AllureId => "AS_ID",
            LabelName::Suite => "suite",
            LabelName::ParentSuite => "parentSuite",
            LabelName::SubSuite => "subSuite",
            LabelName::Epic => "epic",
            LabelName::Feature => "feature",
            LabelName::Story => "story",
            LabelName::Severity => "severity",
            LabelName::Tag => "tag",
            LabelName::Owner => "owner",
            LabelName::Host => "host",
            LabelName::Thread => "thread",
            LabelName::TestMethod => "testMethod",
            LabelName::TestClass => "testClass",
            LabelName::Package => "package",
            LabelName::Framework => "framework",
            LabelName::Language => "language",
        }
    }
}

impl Default for LabelName {
    fn default() -> (r: Self)
        ensures
            r == LabelName::Tag,
    {
        LabelName::Tag
    }
}

} // verus!
