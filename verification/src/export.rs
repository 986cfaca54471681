//! The exchange formats of prompts: the JSON export envelope, the YAML
//! front-matter of Markdown bundles, and the summary of an import. Prompts
//! are written out with their taxonomy names and version history; an import
//! reports how many prompts it created and how many tags, categories and
//! collections it had to create on the way.
use vstd::prelude::*;
use vstd::string::StringExecFns;
use crate::changes::opt_view;
use crate::metadata::string_views;

verus! {

/// The user who performed an export.
pub struct ExportedBy {
    pub username: String,
    pub display_name: String,
}

/// A version snapshot within an exported prompt.
pub struct ExportedVersion {
    pub version_number: i64,
    pub title: String,
    pub content: String,
    pub description: Option<String>,
    pub notes: Option<String>,
    pub language: Option<String>,
    pub created_at: String,
}

/// A single prompt with its taxonomy names and version history.
pub struct ExportedPrompt {
    pub title: String,
    pub content: String,
    pub description: Option<String>,
    pub notes: Option<String>,
    pub language: Option<String>,
    pub is_favorite: bool,
    pub tags: Vec<String>,
    pub categories: Vec<String>,
    pub collections: Vec<String>,
    pub versions: Vec<ExportedVersion>,
}

/// Top-level envelope of a JSON export.
pub struct ExportEnvelope {
    pub exported_by: ExportedBy,
    pub exported_at: String,
    pub prompts: Vec<ExportedPrompt>,
}

/// Manifest written beside the files of a Markdown bundle.
pub struct BundleManifest {
    pub exported_by: ExportedBy,
    pub exported_at: String,
}

/// YAML front-matter of a Markdown export file.
pub struct MarkdownFrontMatter {
    pub title: String,
    pub description: Option<String>,
    pub language: Option<String>,
    pub is_favorite: bool,
    pub tags: Vec<String>,
    pub categories: Vec<String>,
    pub collections: Vec<String>,
    pub notes: Option<String>,
}

/// Summary returned after an import.
pub struct ImportSummary {
    pub source_user: Option<ExportedBy>,
    pub prompts_imported: usize,
    pub tags_created: usize,
    pub categories_created: usize,
    pub collections_created: usize,
}

/// A stored prompt with the names of its tags, categories and collections.
pub struct PromptRecord {
    pub title: String,
    pub content: String,
    pub description: Option<String>,
    pub notes: Option<String>,
    pub language: Option<String>,
    pub is_favorite: bool,
    pub tags: Vec<String>,
    pub categories: Vec<String>,
    pub collections: Vec<String>,
}

/// A stored version snapshot; `created_at` is already in RFC 3339 form.
pub struct VersionRecord {
    pub version_number: i64,
    pub title: String,
    pub content: String,
    pub description: Option<String>,
    pub notes: Option<String>,
    pub language: Option<String>,
    pub created_at: String,
}

/// Whether a flag is unset; the front-matter leaves such a flag out.
pub fn is_false(v: &bool) -> (b: bool)
    ensures
        b == !*v,
{
    !*v
}

fn copy_opt(o: &Option<String>) -> (r: Option<String>)
    ensures
        opt_view(r) == opt_view(*o),
{
    match o {
        Some(s) => Some(String::from_str(s.as_str())),
        None => None,
    }
}

fn copy_strings(v: &Vec<String>) -> (r: Vec<String>)
    ensures
        string_views(r@) == string_views(v@),
{
    let mut r: Vec<String> = Vec::new();
    let mut i: usize = 0;
    while i < v.len()
        invariant
            i <= v@.len(),
            r@.len() == i,
            string_views(r@) == string_views(v@).take(i as int),
        decreases v@.len() - i,
    {
        let s = String::from_str(v[i].as_str());
        assert(s@ == v@[i as int]@);
        let ghost before = r@;
        r.push(s);
        assert(r@ == before.push(s));
        assert forall|k: int| 0 <= k <= i implies #[trigger] string_views(r@)[k] == string_views(
            v@,
        ).take(i + 1)[k] by {
            if k < i {
                assert(r@[k] == before[k]);
                assert(string_views(before)[k] == string_views(v@).take(i as int)[k]);
            }
        }
        i = i + 1;
        assert(string_views(r@) =~= string_views(v@).take(i as int));
    }
    assert(string_views(v@).take(v@.len() as int) =~= string_views(v@));
    r
}

/// The fields of a version snapshot, as characters.
pub open spec fn version_fields(v: VersionRecord) -> (
    i64,
    Seq<char>,
    Seq<char>,
    Option<Seq<char>>,
    Option<Seq<char>>,
    Option<Seq<char>>,
    Seq<char>,
) {
    (v.version_number, v.title@, v.content@, opt_view(v.description), opt_view(v.notes), opt_view(v.language), v.created_at@)
}

/// The fields of an exported version, as characters.
pub open spec fn exported_version_fields(v: ExportedVersion) -> (
    i64,
    Seq<char>,
    Seq<char>,
    Option<Seq<char>>,
    Option<Seq<char>>,
    Option<Seq<char>>,
    Seq<char>,
) {
    (v.version_number, v.title@, v.content@, opt_view(v.description), opt_view(v.notes), opt_view(v.language), v.created_at@)
}

/// Writes a version snapshot out for export.
pub fn export_version(v: &VersionRecord) -> (e: ExportedVersion)
    ensures
        exported_version_fields(e) == version_fields(*v),
{
    ExportedVersion {
        version_number: v.version_number,
        title: String::from_str(v.title.as_str()),
        content: String::from_str(v.content.as_str()),
        description: copy_opt(&v.description),
        notes: copy_opt(&v.notes),
        language: copy_opt(&v.language),
        created_at: String::from_str(v.created_at.as_str()),
    }
}

/// Builds the export form of a prompt with its version history, in the
/// order given.
pub fn build_exported_prompt(p: &PromptRecord, vers: &[VersionRecord]) -> (e: ExportedPrompt)
    ensures
        e.title@ == p.title@,
        e.content@ == p.content@,
        opt_view(e.description) == opt_view(p.description),
        opt_view(e.notes) == opt_view(p.notes),
        opt_view(e.language) == opt_view(p.language),
        e.is_favorite == p.is_favorite,
        string_views(e.tags@) == string_views(p.tags@),
        string_views(e.categories@) == string_views(p.categories@),
        string_views(e.collections@) == string_views(p.collections@),
        e.versions@.len() == vers@.len(),
        forall|i: int|
            0 <= i < vers@.len() ==> exported_version_fields(#[trigger] e.versions@[i])
                == version_fields(vers@[i]),
{
    let mut versions: Vec<ExportedVersion> = Vec::new();
    let mut i: usize = 0;
    while i < vers.len()
        invariant
            i <= vers@.len(),
            versions@.len() == i,
            forall|k: int|
                0 <= k < i ==> exported_version_fields(#[trigger] versions@[k]) == version_fields(
                    vers@[k],
                ),
        decreases vers@.len() - i,
    {
        versions.push(export_version(&vers[i]));
        i = i + 1;
    }
    ExportedPrompt {
        title: String::from_str(p.title.as_str()),
        content: String::from_str(p.content.as_str()),
        description: copy_opt(&p.description),
        notes: copy_opt(&p.notes),
        language: copy_opt(&p.language),
        is_favorite: p.is_favorite,
        tags: copy_strings(&p.tags),
        categories: copy_strings(&p.categories),
        collections: copy_strings(&p.collections),
        versions,
    }
}

/// Builds the front-matter of a prompt's Markdown export file.
pub fn front_matter_for(p: &PromptRecord) -> (f: MarkdownFrontMatter)
    ensures
        f.title@ == p.title@,
        opt_view(f.description) == opt_view(p.description),
        opt_view(f.language) == opt_view(p.language),
        f.is_favorite == p.is_favorite,
        string_views(f.tags@) == string_views(p.tags@),
        string_views(f.categories@) == string_views(p.categories@),
        string_views(f.collections@) == string_views(p.collections@),
        opt_view(f.notes) == opt_view(p.notes),
{
    MarkdownFrontMatter {
        title: String::from_str(p.title.as_str()),
        description: copy_opt(&p.description),
        language: copy_opt(&p.language),
        is_favorite: p.is_favorite,
        tags: copy_strings(&p.tags),
        categories: copy_strings(&p.categories),
        collections: copy_strings(&p.collections),
        notes: copy_opt(&p.notes),
    }
}

/// The kinds of taxonomy entries an import may create.
pub enum TaxonomyKind {
    Tag,
    Category,
    Collection,
}

impl ImportSummary {
    /// The summary of an import of `prompts_imported` prompts before any
    /// taxonomy entry was created; a JSON import names the exporting user.
    pub fn new(source_user: Option<ExportedBy>, prompts_imported: usize) -> (s: ImportSummary)
        ensures
            s.source_user == source_user,
            s.prompts_imported == prompts_imported,
            s.tags_created == 0,
            s.categories_created == 0,
            s.collections_created == 0,
    {
        ImportSummary {
            source_user,
            prompts_imported,
            tags_created: 0,
            categories_created: 0,
            collections_created: 0,
        }
    }

    /// The number of entries of a kind created so far.
    pub open spec fn created(&self, kind: TaxonomyKind) -> usize {
        match kind {
            TaxonomyKind::Tag => self.tags_created,
            TaxonomyKind::Category => self.categories_created,
            TaxonomyKind::Collection => self.collections_created,
        }
    }

    /// Counts one newly created entry of the given kind; the other counts
    /// stay as they are.
    pub fn record_created(&mut self, kind: TaxonomyKind)
        requires
            old(self).created(kind) < usize::MAX,
        ensures
            final(self).created(kind) == old(self).created(kind) + 1,
            forall|k: TaxonomyKind| k != kind ==> final(self).created(k) == old(self).created(k),
            final(self).prompts_imported == old(self).prompts_imported,
            final(self).source_user == old(self).source_user,
    {
        match kind {
            TaxonomyKind::Tag => {
                self.tags_created = self.tags_created + 1;
            },
            TaxonomyKind::Category => {
                self.categories_created = self.categories_created + 1;
            },
            TaxonomyKind::Collection => {
                self.collections_created = self.collections_created + 1;
            },
        }
    }
}

} // verus!
