//! Deterministic derivation of the artifact files: their names and their
//! exact contents. Nothing here touches a disk; each method hands back the
//! file it stands for, name and content, for the caller to persist.

use vstd::prelude::*;

use crate::codec::spec_categories_json;
use crate::codec::spec_container_json;
use crate::codec::spec_result_json;
use crate::encoding::category_to_json;
use crate::encoding::container_to_json;
use crate::encoding::result_to_json;
use crate::enums::ContentType;
use crate::json::spec_render;
use crate::json::JsonAbs;
use crate::json::JsonValue;
use crate::model::Attachment;
use crate::model::Category;
use crate::model::TestResult;
use crate::model::TestResultContainer;
use crate::text::spec_prop_escape;
use crate::trusted::generate_uuid;
use crate::trusted::push_char;

verus! {

broadcast use vstd::std_specs::vec::group_vec_axioms;

/// The default directory that result files go to.
pub const DEFAULT_RESULTS_DIR: &'static str = "allure-results";

/// One artifact file: its name inside the results directory and its exact
/// textual content.
#[derive(Debug)]
pub struct OutputFile {
    /// File name, without any directory part.
    pub name: String,
    /// The whole content of the file.
    pub content: String,
}

/// Derives the names and contents of the artifact files for one results
/// directory.
#[derive(Debug, Clone)]
pub struct AllureWriter {
    /// The directory the files are meant for.
    pub results_dir: String,
}

/// One `key=value` line of the environment file, escaped and terminated.
pub open spec fn spec_environment_line(key: Seq<char>, value: Seq<char>) -> Seq<char> {
    spec_prop_escape(key) + seq!['='] + spec_prop_escape(value) + seq!['\n']
}

/// The first `n` lines of the environment file.
pub open spec fn spec_environment_to(props: Seq<(Seq<char>, Seq<char>)>, n: int) -> Seq<char>
    decreases n,
{
    if n <= 0 || n > props.len() {
        Seq::empty()
    } else {
        spec_environment_to(props, n - 1) + spec_environment_line(props[n - 1].0, props[n - 1].1)
    }
}

/// The whole environment file: one escaped `key=value` line per property, in
/// order.
pub open spec fn spec_environment(props: Seq<(Seq<char>, Seq<char>)>) -> Seq<char> {
    spec_environment_to(props, props.len() as int)
}

/// The lowercase counterpart of an ASCII letter; any other character stands
/// as itself.
pub open spec fn spec_ascii_lower_char(c: char) -> char {
    if 'A' <= c && c <= 'Z' {
        ((((c as u32) + 32) as u8) as char)
    } else {
        c
    }
}

/// The ASCII-lowercase form of a string.
pub open spec fn spec_ascii_lower(s: Seq<char>) -> Seq<char> {
    Seq::new(s.len(), |i: int| spec_ascii_lower_char(s[i]))
}

/// Lowercases the ASCII letters of a string.
pub fn ascii_lower(s: &str) -> (r: String)
    ensures
        r@ == spec_ascii_lower(s@),
{
    let mut r = String::new();
    let len = s.unicode_len();
    for i in 0..len
        invariant
            len == s@.len(),
            r@ == spec_ascii_lower(s@).take(i as int),
    {
        let c = s.get_char(i);
        let u = c as u32;
        if 65 <= u && u <= 90 {
            let lower = ((u + 32) as u8) as char;
            push_char(&mut r, lower);
        } else {
            push_char(&mut r, c);
        }
        proof {
            assert(spec_ascii_lower(s@).take(i + 1) =~= spec_ascii_lower(s@).take(i as int).push(
                spec_ascii_lower_char(s@[i as int]),
            ));
        }
    }
    proof {
        assert(spec_ascii_lower(s@).take(len as int) =~= spec_ascii_lower(s@));
    }
    r
}

/// The MIME type that a lowercased file extension stands for, if a common
/// one.
pub open spec fn spec_guess_mime(e: Seq<char>) -> Option<Seq<char>> {
    if e == "txt"@ || e == "log"@ {
        Some("text/plain"@)
    } else if e == "json"@ {
        Some("application/json"@)
    } else if e == "xml"@ {
        Some("application/xml"@)
    } else if e == "html"@ || e == "htm"@ {
        Some("text/html"@)
    } else if e == "css"@ {
        Some("text/css"@)
    } else if e == "csv"@ {
        Some("text/csv"@)
    } else if e == "png"@ {
        Some("image/png"@)
    } else if e == "jpg"@ || e == "jpeg"@ {
        Some("image/jpeg"@)
    } else if e == "gif"@ {
        Some("image/gif"@)
    } else if e == "svg"@ {
        Some("image/svg+xml"@)
    } else if e == "webp"@ {
        Some("image/webp"@)
    } else if e == "mp4"@ {
        Some("video/mp4"@)
    } else if e == "webm"@ {
        Some("video/webm"@)
    } else if e == "pdf"@ {
        Some("application/pdf"@)
    } else if e == "zip"@ {
        Some("application/zip"@)
    } else {
        None
    }
}

/// Guesses the MIME type of a file from its extension, ASCII-lowercased.
pub fn guess_mime_type(extension: &str) -> (r: Option<String>)
    ensures
        crate::views::opt_str_abs(r) == spec_guess_mime(spec_ascii_lower(extension@)),
{
    let e = ascii_lower(extension);
    if e == String::from_str("txt") || e == String::from_str("log") {
        Some(String::from_str("text/plain"))
    } else if e == String::from_str("json") {
        Some(String::from_str("application/json"))
    } else if e == String::from_str("xml") {
        Some(String::from_str("application/xml"))
    } else if e == String::from_str("html") || e == String::from_str("htm") {
        Some(String::from_str("text/html"))
    } else if e == String::from_str("css") {
        Some(String::from_str("text/css"))
    } else if e == String::from_str("csv") {
        Some(String::from_str("text/csv"))
    } else if e == String::from_str("png") {
        Some(String::from_str("image/png"))
    } else if e == String::from_str("jpg") || e == String::from_str("jpeg") {
        Some(String::from_str("image/jpeg"))
    } else if e == String::from_str("gif") {
        Some(String::from_str("image/gif"))
    } else if e == String::from_str("svg") {
        Some(String::from_str("image/svg+xml"))
    } else if e == String::from_str("webp") {
        Some(String::from_str("image/webp"))
    } else if e == String::from_str("mp4") {
        Some(String::from_str("video/mp4"))
    } else if e == String::from_str("webm") {
        Some(String::from_str("video/webm"))
    } else if e == String::from_str("pdf") {
        Some(String::from_str("application/pdf"))
    } else if e == String::from_str("zip") {
        Some(String::from_str("application/zip"))
    } else {
        None
    }
}

impl AllureWriter {
    /// A writer for the default results directory.
    pub fn new() -> (r: Self)
        ensures
            r.results_dir@ == DEFAULT_RESULTS_DIR@,
    {
        AllureWriter { results_dir: String::from_str(DEFAULT_RESULTS_DIR) }
    }

    /// A writer for the given results directory.
    pub fn with_results_dir(path: String) -> (r: Self)
        ensures
            r.results_dir == path,
    {
        AllureWriter { results_dir: path }
    }

    /// The directory that files are derived for.
    pub fn results_dir(&self) -> (r: &String)
        ensures
            *r == self.results_dir,
    {
        &self.results_dir
    }

    /// The result file for a test result: `{uuid}-result.json` holding the
    /// result's rendered encoding.
    pub fn plan_test_result(&self, result: &TestResult) -> (f: OutputFile)
        ensures
            f.name@ == result.uuid@ + "-result.json"@,
            f.content@ == spec_render(spec_result_json(result.abs())),
    {
        let name = result.uuid.clone().concat("-result.json");
        let v = result_to_json(result);
        let content = crate::json::render_json(&v);
        OutputFile { name, content }
    }

    /// The container file for a container: `{uuid}-container.json` holding
    /// the container's rendered encoding.
    pub fn plan_container(&self, container: &TestResultContainer) -> (f: OutputFile)
        ensures
            f.name@ == container.uuid@ + "-container.json"@,
            f.content@ == spec_render(spec_container_json(container.abs())),
    {
        let name = container.uuid.clone().concat("-container.json");
        let v = container_to_json(container);
        let content = crate::json::render_json(&v);
        OutputFile { name, content }
    }

    /// The environment file: escaped `key=value` lines, in order.
    pub fn plan_environment(&self, properties: &Vec<(String, String)>) -> (f: OutputFile)
        ensures
            f.name@ == "environment.properties"@,
            f.content@ == spec_environment(
                properties@.map_values(|p: (String, String)| (p.0@, p.1@)),
            ),
    {
        let ghost pa = properties@.map_values(|p: (String, String)| (p.0@, p.1@));
        let mut content = String::new();
        let n = properties.len();
        for i in 0..n
            invariant
                n == properties@.len(),
                pa == properties@.map_values(|p: (String, String)| (p.0@, p.1@)),
                content@ == spec_environment_to(pa, i as int),
        {
            let key = crate::text::escape_property_value(properties[i].0.as_str());
            let value = crate::text::escape_property_value(properties[i].1.as_str());
            content.append(key.as_str());
            push_char(&mut content, '=');
            content.append(value.as_str());
            push_char(&mut content, '\n');
            proof {
                assert(content@ =~= spec_environment_to(pa, i + 1));
            }
        }
        let name = String::from_str("environment.properties");
        OutputFile { name, content }
    }

    /// The categories file: the rendered encoding of the category list.
    pub fn plan_categories(&self, categories: &Vec<Category>) -> (f: OutputFile)
        ensures
            f.name@ == "categories.json"@,
            f.content@ == spec_render(
                JsonAbs::Arr(
                    spec_categories_json(categories@.map_values(|c: Category| c.abs())),
                ),
            ),
    {
        let ghost ca = categories@.map_values(|c: Category| c.abs());
        let mut items: Vec<JsonValue> = Vec::new();
        let n = categories.len();
        for i in 0..n
            invariant
                n == categories@.len(),
                ca == categories@.map_values(|c: Category| c.abs()),
                items@.len() == i,
                forall|j: int|
                    0 <= j < i ==> #[trigger] crate::encoding::items_abs(items)[j]
                        == crate::codec::spec_category_json(ca[j]),
        {
            let ghost pre = items@;
            let v = category_to_json(&categories[i]);
            items.push(v);
            proof {
                crate::json::lemma_abs_items_push(pre, v);
                crate::json::lemma_abs_items_len(items@, items@.len() as int);
                assert forall|j: int| 0 <= j < i + 1 implies #[trigger] crate::encoding::items_abs(
                    items,
                )[j] == crate::codec::spec_category_json(ca[j]) by {
                    crate::json::lemma_abs_items_index(items@, items@.len() as int, j);
                    if j < i {
                        crate::json::lemma_abs_items_index(pre, pre.len() as int, j);
                        assert(items@[j] == pre[j]);
                    }
                }
            }
        }
        proof {
            crate::json::lemma_abs_items_len(items@, items@.len() as int);
            crate::codec::lemma_categories_json_len(ca);
            assert forall|j: int| 0 <= j < n implies crate::encoding::items_abs(items)[j]
                == spec_categories_json(ca)[j] by {
                crate::codec::lemma_categories_json_index(ca, j);
            }
            assert(crate::encoding::items_abs(items) =~= spec_categories_json(ca));
        }
        let v = JsonValue::Arr(items);
        let content = crate::json::render_json(&v);
        let name = String::from_str("categories.json");
        OutputFile { name, content }
    }

    /// A fresh text attachment reference: a random `{uuid}-attachment.txt`
    /// file name with the plain-text MIME type.
    pub fn plan_text_attachment(&self, name: String) -> (a: Attachment)
        ensures
            a.name == name,
            a.source@.len() == 36 + "-attachment.txt"@.len(),
            a.source@.skip(36) == "-attachment.txt"@,
            a.mime_type matches Some(m) && m@ == "text/plain"@,
    {
        let source = generate_uuid().concat("-attachment.txt");
        proof {
            assert(source@.skip(36) =~= "-attachment.txt"@);
        }
        Attachment { name, source, mime_type: Some(String::from_str("text/plain")) }
    }

    /// A fresh JSON attachment reference: a random `{uuid}-attachment.json`
    /// file name with the JSON MIME type.
    pub fn plan_json_attachment(&self, name: String) -> (a: Attachment)
        ensures
            a.name == name,
            a.source@.len() == 36 + "-attachment.json"@.len(),
            a.source@.skip(36) == "-attachment.json"@,
            a.mime_type matches Some(m) && m@ == "application/json"@,
    {
        let source = generate_uuid().concat("-attachment.json");
        proof {
            assert(source@.skip(36) =~= "-attachment.json"@);
        }
        Attachment { name, source, mime_type: Some(String::from_str("application/json")) }
    }

    /// A fresh binary attachment reference: a random
    /// `{uuid}-attachment.{ext}` file name, extension and MIME type from the
    /// content type.
    pub fn plan_binary_attachment(&self, name: String, content_type: ContentType) -> (a:
        Attachment)
        ensures
            a.name == name,
            a.source@.len() == 36 + "-attachment."@.len() + content_type.spec_extension().len(),
            a.source@.skip(36) == "-attachment."@ + content_type.spec_extension(),
            a.mime_type matches Some(m) && m@ == content_type.spec_mime(),
    {
        let source = generate_uuid().concat("-attachment.").concat(content_type.extension());
        proof {
            assert(source@.skip(36) =~= "-attachment."@ + content_type.spec_extension());
        }
        Attachment { name, source, mime_type: Some(String::from_str(content_type.as_mime())) }
    }

    /// A fresh attachment reference for a copied file: a random
    /// `{uuid}-attachment.{ext}` file name keeping the source file's
    /// extension; the MIME type comes from the given content type, or is
    /// guessed from the extension.
    pub fn plan_file_attachment(
        &self,
        name: String,
        extension: &str,
        content_type: Option<ContentType>,
    ) -> (a: Attachment)
        ensures
            a.name == name,
            a.source@.len() == 36 + "-attachment."@.len() + extension@.len(),
            a.source@.skip(36) == "-attachment."@ + extension@,
            crate::views::opt_str_abs(a.mime_type) == (match content_type {
                Some(ct) => Some(ct.spec_mime()),
                None => spec_guess_mime(spec_ascii_lower(extension@)),
            }),
    {
        let source = generate_uuid().concat("-attachment.").concat(extension);
        proof {
            assert(source@.skip(36) =~= "-attachment."@ + extension@);
        }
        let mime = match content_type {
            Some(ct) => Some(String::from_str(ct.as_mime())),
            None => guess_mime_type(extension),
        };
        Attachment { name, source, mime_type: mime }
    }
}

impl Default for AllureWriter {
    /// A writer for the default results directory.
    fn default() -> (r: Self)
        ensures
            r.results_dir@ == DEFAULT_RESULTS_DIR@,
    {
        AllureWriter::new()
    }
}

} // verus!
