//! Builders for the two standalone artifact files: the environment
//! properties and the defect categories.

use vstd::prelude::*;

use crate::enums::Status;
use crate::model::Category;
use crate::writer::AllureWriter;
use crate::writer::OutputFile;
use crate::writer::DEFAULT_RESULTS_DIR;

verus! {

/// Collects key and value pairs for the environment file.
#[derive(Debug)]
pub struct EnvironmentBuilder {
    /// The properties collected so far, in order.
    pub properties: Vec<(String, String)>,
    /// The directory the file is meant for.
    pub results_dir: String,
}

impl EnvironmentBuilder {
    /// An empty builder for the default results directory.
    pub fn new() -> (r: Self)
        ensures
            r.properties@.len() == 0,
            r.results_dir@ == DEFAULT_RESULTS_DIR@,
    {
        EnvironmentBuilder {
            properties: Vec::new(),
            results_dir: String::from_str(DEFAULT_RESULTS_DIR),
        }
    }

    /// Sets the results directory.
    pub fn results_dir(self, path: String) -> (r: Self)
        ensures
            r.results_dir == path,
            r.properties@ == self.properties@,
    {
        let mut b = self;
        b.results_dir = path;
        b
    }

    /// Appends a key and value pair.
    pub fn set(self, key: String, value: String) -> (r: Self)
        ensures
            r.properties@ == self.properties@.push((key, value)),
            r.results_dir == self.results_dir,
    {
        let mut b = self;
        b.properties.push((key, value));
        b
    }

    /// The environment file this builder stands for.
    pub fn render(&self) -> (f: OutputFile)
        ensures
            f.name@ == "environment.properties"@,
            f.content@ == crate::writer::spec_environment(
                self.properties@.map_values(|p: (String, String)| (p.0@, p.1@)),
            ),
    {
        let writer = AllureWriter::with_results_dir(self.results_dir.clone());
        writer.plan_environment(&self.properties)
    }
}

impl Default for EnvironmentBuilder {
    /// An empty builder for the default results directory.
    fn default() -> (r: Self)
        ensures
            r.properties@.len() == 0,
            r.results_dir@ == DEFAULT_RESULTS_DIR@,
    {
        EnvironmentBuilder::new()
    }
}

/// Starts building the environment file.
pub fn environment() -> (r: EnvironmentBuilder)
    ensures
        r.properties@.len() == 0,
        r.results_dir@ == DEFAULT_RESULTS_DIR@,
{
    EnvironmentBuilder::new()
}

/// Collects defect categories for the categories file.
#[derive(Debug)]
pub struct CategoriesBuilder {
    /// The categories collected so far, in order.
    pub categories: Vec<Category>,
    /// The directory the file is meant for.
    pub results_dir: String,
}

impl CategoriesBuilder {
    /// An empty builder for the default results directory.
    pub fn new() -> (r: Self)
        ensures
            r.categories@.len() == 0,
            r.results_dir@ == DEFAULT_RESULTS_DIR@,
    {
        CategoriesBuilder {
            categories: Vec::new(),
            results_dir: String::from_str(DEFAULT_RESULTS_DIR),
        }
    }

    /// Sets the results directory.
    pub fn results_dir(self, path: String) -> (r: Self)
        ensures
            r.results_dir == path,
            r.categories@ == self.categories@,
    {
        let mut b = self;
        b.results_dir = path;
        b
    }

    /// Appends a category.
    pub fn with_category(self, category: Category) -> (r: Self)
        ensures
            r.categories@ == self.categories@.push(category),
            r.results_dir == self.results_dir,
    {
        let mut b = self;
        b.categories.push(category);
        b
    }

    /// Appends the stock category matching failed tests.
    pub fn with_product_defects(self) -> (r: Self)
        ensures
            r.categories@.len() == self.categories@.len() + 1,
            r.categories@.drop_last() == self.categories@,
            r.categories@.last().name@ == "Product defects"@,
            r.categories@.last().matched_statuses@ == seq![Status::Failed],
            r.results_dir == self.results_dir,
    {
        let c = Category::new(String::from_str("Product defects")).with_status(Status::Failed);
        proof {
            assert(c.matched_statuses@ =~= seq![Status::Failed]);
        }
        self.with_category(c)
    }

    /// Appends the stock category matching broken tests.
    pub fn with_test_defects(self) -> (r: Self)
        ensures
            r.categories@.len() == self.categories@.len() + 1,
            r.categories@.drop_last() == self.categories@,
            r.categories@.last().name@ == "Test defects"@,
            r.categories@.last().matched_statuses@ == seq![Status::Broken],
            r.results_dir == self.results_dir,
    {
        let c = Category::new(String::from_str("Test defects")).with_status(Status::Broken);
        proof {
            assert(c.matched_statuses@ =~= seq![Status::Broken]);
        }
        self.with_category(c)
    }

    /// The categories file this builder stands for.
    pub fn render(&self) -> (f: OutputFile)
        ensures
            f.name@ == "categories.json"@,
            f.content@ == crate::json::spec_render(
                crate::json::JsonAbs::Arr(
                    crate::codec::spec_categories_json(
                        self.categories@.map_values(|c: Category| c.abs()),
                    ),
                ),
            ),
    {
        let writer = AllureWriter::with_results_dir(self.results_dir.clone());
        writer.plan_categories(&self.categories)
    }
}

impl Default for CategoriesBuilder {
    /// An empty builder for the default results directory.
    fn default() -> (r: Self)
        ensures
            r.categories@.len() == 0,
            r.results_dir@ == DEFAULT_RESULTS_DIR@,
    {
        CategoriesBuilder::new()
    }
}

/// Starts building the categories file.
pub fn categories() -> (r: CategoriesBuilder)
    ensures
        r.categories@.len() == 0,
        r.results_dir@ == DEFAULT_RESULTS_DIR@,
{
    CategoriesBuilder::new()
}

} // verus!
