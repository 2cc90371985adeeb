//! The static builder.
//!
//! The site has a fixed set of pages. The caller renders each page's
//! template, in the order of the pages, and hands the outcomes over; building
//! pairs every text with the path it belongs at under the output directory.
//! A build is all or nothing: files are handed out only when every page has
//! a text, so a failed build asks for no write at all. Writing the files is
//! the caller's part, and that part is not atomic: a write that fails leaves
//! the files written before it in place.

use vstd::prelude::*;
use vstd::string::*;

verus! {

/// One page of the site: the template it is rendered from and the name of
/// the file it is rendered to.
#[derive(Debug, PartialEq, Eq)]
pub struct Page {
    pub template: String,
    pub output: String,
}

/// A rendered page, ready to be written: where it goes and what it holds.
#[derive(Debug, PartialEq, Eq)]
pub struct BuiltFile {
    pub path: String,
    pub content: String,
}

/// Why a build was abandoned.
#[derive(Debug, PartialEq, Eq)]
pub enum BuildError {
    /// The named template did not render, for the reason the engine gave.
    Render { template: String, reason: String },
    /// The named template was given no render outcome at all.
    NotRendered { template: String },
    /// The file at this path could not be written.
    Write { path: String },
}

/// The builder: the output directory and the pages that go into it.
#[derive(Debug, PartialEq, Eq)]
pub struct Builder {
    pub output_dir: String,
    pub pages: Vec<Page>,
}

/// The path of the file called `name` under the directory `dir`.
pub open spec fn file_path(dir: Seq<char>, name: Seq<char>) -> Seq<char> {
    dir + "/"@ + name
}

/// Whether `file` is what `page` becomes under `dir` when it rendered as
/// `outcome`: the outcome is a text, the file holds exactly that text, and
/// its path is the page's path under `dir`.
pub open spec fn is_built(file: BuiltFile, dir: Seq<char>, page: Page, outcome: Result<
    String,
    String,
>) -> bool {
    outcome matches Ok(text) && file.path@ == file_path(dir, page.output@) && file.content@
        == text@
}

/// Whether the outcomes hold a rendered text for page `i`.
pub open spec fn has_text(rendered: Seq<Result<String, String>>, i: int) -> bool {
    0 <= i < rendered.len() && rendered[i] is Ok
}

/// Whether page `k` is the first one that the outcomes hold no text for.
pub open spec fn first_without_text(rendered: Seq<Result<String, String>>, k: int) -> bool {
    0 <= k && !has_text(rendered, k) && forall|j: int|
        0 <= j < k ==> #[trigger] has_text(rendered, j)
}

/// Whether `e` is the error owed for `page`, the page numbered `k`, when the
/// outcomes hold no text for it: the engine's reason where there is one,
/// else the note that the page was not rendered.
pub open spec fn fails_at(
    page: Page,
    rendered: Seq<Result<String, String>>,
    k: int,
    e: BuildError,
) -> bool {
    if 0 <= k < rendered.len() {
        rendered[k] matches Err(why) && e matches BuildError::Render { template, reason }
            && template@ == page.template@ && reason@ == why@
    } else {
        e matches BuildError::NotRendered { template } && template@ == page.template@
    }
}

/// Pairs the outcome of rendering `page` with the place it belongs at under
/// `dir`. The file's content is exactly the rendered text. A page that did
/// not render comes as `Err` with the engine's reason, and gives the error
/// that names its template and keeps the reason.
pub fn built_file(dir: &str, page: &Page, rendered: Result<String, String>) -> (r: Result<
    BuiltFile,
    BuildError,
>)
    ensures
        match rendered {
            Ok(text) => r matches Ok(file) && file.path@ == file_path(dir@, page.output@)
                && file.content@ == text@,
            Err(why) => r matches Err(BuildError::Render { template, reason }) && template@
                == page.template@ && reason@ == why@,
        },
{
    match rendered {
        Ok(text) => {
            let path = String::from_str(dir).concat("/").concat(page.output.as_str());
            Ok(BuiltFile { path, content: text })
        },
        Err(why) => Err(BuildError::Render { template: page.template.clone(), reason: why }),
    }
}

impl Default for Builder {
    /// The site as it stands: one page, `index.tera`, rendered to
    /// `index.html` under `./build`.
    fn default() -> (b: Builder)
        ensures
            b.output_dir@ == "./build"@,
            b.pages@.len() == 1,
            b.pages@[0].template@ == "index.tera"@,
            b.pages@[0].output@ == "index.html"@,
    {
        let mut pages: Vec<Page> = Vec::new();
        pages.push(
            Page {
                template: String::from_str("index.tera"),
                output: String::from_str("index.html"),
            },
        );
        Builder { output_dir: String::from_str("./build"), pages }
    }
}

impl Builder {
    /// Builds the site from the outcomes of rendering its pages, where
    /// `rendered[i]` is the outcome for page `i`: the text, or the engine's
    /// reason for giving none.
    ///
    /// The build succeeds exactly when every page has a text. There is then
    /// one file per page, in the order of the pages, each at its page's path
    /// under the output directory and holding exactly its page's text.
    /// Otherwise the first page without a text decides the error: it names
    /// that page's template, with the engine's reason, or says that the page
    /// was not rendered where the outcomes end before it. No file is
    /// returned then. Outcomes past the last page belong to no page and are
    /// not looked at.
    pub fn build(&self, rendered: &Vec<Result<String, String>>) -> (r: Result<
        Vec<BuiltFile>,
        BuildError,
    >)
        ensures
            r is Ok <==> forall|i: int|
                0 <= i < self.pages@.len() ==> #[trigger] has_text(rendered@, i),
            match r {
                Ok(files) => files@.len() == self.pages@.len() && forall|i: int|
                    0 <= i < files@.len() ==> is_built(
                        #[trigger] files@[i],
                        self.output_dir@,
                        self.pages@[i],
                        rendered@[i],
                    ),
                Err(e) => exists|k: int|
                    0 <= k < self.pages@.len() && #[trigger] first_without_text(rendered@, k)
                        && fails_at(self.pages@[k], rendered@, k, e),
            },
    {
        let mut files: Vec<BuiltFile> = Vec::new();
        let mut n: usize = 0;
        while n < self.pages.len()
            invariant
                n <= self.pages@.len(),
                files@.len() == n,
                forall|j: int| 0 <= j < n ==> #[trigger] has_text(rendered@, j),
                forall|i: int|
                    0 <= i < n ==> is_built(
                        #[trigger] files@[i],
                        self.output_dir@,
                        self.pages@[i],
                        rendered@[i],
                    ),
            decreases self.pages@.len() - n,
        {
            let page = &self.pages[n];
            if n >= rendered.len() {
                assert(first_without_text(rendered@, n as int));
                return Err(BuildError::NotRendered { template: page.template.clone() });
            }
            let outcome = match &rendered[n] {
                Ok(text) => Ok(text.clone()),
                Err(why) => Err(why.clone()),
            };
            match built_file(self.output_dir.as_str(), page, outcome) {
                Ok(file) => files.push(file),
                Err(e) => {
                    assert(first_without_text(rendered@, n as int));
                    return Err(e);
                },
            }
            n = n + 1;
        }
        Ok(files)
    }
}

impl BuildError {
    /// A message for the operator.
    pub fn message(&self) -> (text: String)
        ensures
            match *self {
                BuildError::Render { template, reason } => text@ == "failed to render "@
                    + template@ + ": "@ + reason@,
                BuildError::NotRendered { template } => text@ == "no text for "@ + template@,
                BuildError::Write { path } => text@ == "failed to write "@ + path@,
            },
    {
        match self {
            BuildError::Render { template, reason } => String::from_str(
                "failed to render ",
            ).concat(template.as_str()).concat(": ").concat(reason.as_str()),
            BuildError::NotRendered { template } => String::from_str("no text for ").concat(
                template.as_str(),
            ),
            BuildError::Write { path } => String::from_str("failed to write ").concat(
                path.as_str(),
            ),
        }
    }
}

} // verus!
