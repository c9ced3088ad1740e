//! The library's data model: tags, reports, options and results of the
//! clean / shred / batch operations, settings, history and errors.

use vstd::prelude::*;

use crate::text::owned;

verus! {

/// The privacy-relevant group a metadata tag belongs to.
#[derive(Debug, Clone, Copy, PartialEq, Eq, Hash, Structural)]
pub enum MetadataCategory {
    Gps,
    Device,
    Author,
    Timestamps,
    Other,
}

impl MetadataCategory {
    /// Human readable name of the category.
    pub fn label(&self) -> (r: &'static str)
        ensures
            r@ == category_label(*self),
    {
        match self {
            MetadataCategory::Gps => "GPS / Location",
            MetadataCategory::Device => "Device Info",
            MetadataCategory::Author => "Author / Creator",
            MetadataCategory::Timestamps => "Timestamps",
            MetadataCategory::Other => "Other",
        }
    }
}

/// The label of each category.
pub open spec fn category_label(c: MetadataCategory) -> Seq<char> {
    match c {
        MetadataCategory::Gps => "GPS / Location"@,
        MetadataCategory::Device => "Device Info"@,
        MetadataCategory::Author => "Author / Creator"@,
        MetadataCategory::Timestamps => "Timestamps"@,
        MetadataCategory::Other => "Other"@,
    }
}

/// One metadata field of a file.
#[derive(Debug, Clone)]
pub struct TagEntry {
    pub name: String,
    pub value: String,
    pub category: MetadataCategory,
}

/// A tag as plain values: name, value and category.
pub open spec fn tag_view(t: TagEntry) -> (Seq<char>, Seq<char>, MetadataCategory) {
    (t.name@, t.value@, t.category)
}

/// The plain values of a list of tags.
pub open spec fn tag_views(tags: Seq<TagEntry>) -> Seq<(Seq<char>, Seq<char>, MetadataCategory)> {
    tags.map_values(|t: TagEntry| tag_view(t))
}

impl TagEntry {
    /// A field-by-field copy.
    pub fn duplicate(&self) -> (r: TagEntry)
        ensures
            r == *self,
    {
        TagEntry { name: self.name.clone(), value: self.value.clone(), category: self.category }
    }
}

/// What was found in one file, and how private it is.
#[derive(Debug, Clone)]
pub struct MetadataReport {
    pub file_path: String,
    pub file_type: String,
    pub tags: Vec<TagEntry>,
    pub privacy_score: u8,
}

/// How a file is to be cleaned.
#[derive(Debug, Clone)]
pub struct CleanOptions {
    pub categories: Option<Vec<MetadataCategory>>,
    pub output_dir: Option<String>,
    pub preserve_original: bool,
    pub shred_original: bool,
    pub profile: Option<CleanProfileId>,
}

impl CleanOptions {
    /// A field-by-field copy.
    pub fn duplicate(&self) -> (r: CleanOptions)
        ensures
            category_list(r.categories) == category_list(self.categories),
            r.output_dir == self.output_dir,
            r.preserve_original == self.preserve_original,
            r.shred_original == self.shred_original,
            r.profile == self.profile,
    {
        let categories = match &self.categories {
            Some(list) => Some(copy_categories(list)),
            None => None,
        };
        let output_dir = match &self.output_dir {
            Some(dir) => Some(dir.clone()),
            None => None,
        };
        CleanOptions {
            categories,
            output_dir,
            preserve_original: self.preserve_original,
            shred_original: self.shred_original,
            profile: self.profile,
        }
    }
}

/// The categories an optional list holds, as a sequence.
pub open spec fn category_list(o: Option<Vec<MetadataCategory>>) -> Option<Seq<MetadataCategory>> {
    match o {
        Some(v) => Some(v@),
        None => None,
    }
}

/// A copy of a list of categories.
pub fn copy_categories(list: &Vec<MetadataCategory>) -> (r: Vec<MetadataCategory>)
    ensures
        r@ == list@,
{
    let mut out: Vec<MetadataCategory> = Vec::new();
    let mut i: usize = 0;
    while i < list.len()
        invariant
            i <= list@.len(),
            out@ == list@.subrange(0, i as int),
        decreases list@.len() - i,
    {
        out.push(list[i]);
        i = i + 1;
        proof {
            assert(out@ =~= list@.subrange(0, i as int));
        }
    }
    proof {
        assert(out@ =~= list@);
    }
    out
}

impl Default for CleanOptions {
    fn default() -> (r: CleanOptions)
        ensures
            r.categories is None,
            r.output_dir is None,
            r.preserve_original,
            !r.shred_original,
            r.profile is None,
    {
        CleanOptions {
            categories: None,
            output_dir: None,
            preserve_original: true,
            shred_original: false,
            profile: None,
        }
    }
}

/// What cleaning one file did.
#[derive(Debug, Clone)]
pub struct CleanResult {
    pub source_path: String,
    pub output_path: Option<String>,
    pub removed_tags: Vec<TagEntry>,
    pub privacy_score_before: u8,
    pub privacy_score_after: u8,
    pub bytes_before: u64,
    pub bytes_after: Option<u64>,
    pub original_shredded: bool,
}

/// The overwrite scheme used when shredding.
#[derive(Debug, Clone, Copy, PartialEq, Eq, Structural)]
pub enum ShredMethod {
    Random1Pass,
    Dod5220,
    SevenPass,
    Custom,
}

/// How a file is to be shredded; `passes` counts only for `Custom`.
#[derive(Debug, Clone)]
pub struct ShredOptions {
    pub method: ShredMethod,
    pub passes: u8,
}

impl Default for ShredOptions {
    fn default() -> (r: ShredOptions)
        ensures
            r.method == ShredMethod::Random1Pass,
            r.passes == 1,
    {
        ShredOptions { method: ShredMethod::Random1Pass, passes: 1 }
    }
}

/// What shredding one file did.
#[derive(Debug, Clone)]
pub struct ShredResult {
    pub file_path: String,
    pub passes_completed: u8,
    pub bytes_overwritten: u64,
    pub deleted: bool,
}

/// One file of a batch and what to do with it.
#[derive(Debug, Clone)]
pub struct BatchItem {
    pub path: String,
    pub action: BatchAction,
}

/// The operations a batch can apply to a file.
#[derive(Debug, Clone, Copy, PartialEq, Eq, Structural)]
pub enum BatchAction {
    Clean,
    Shred,
    CleanAndShred,
    MetadataOnly,
}

/// A progress notice sent while a batch runs.
#[derive(Debug, Clone)]
pub struct BatchProgress {
    pub current: usize,
    pub total: usize,
    pub file_path: String,
    pub status: String,
    pub percent: u8,
}

/// The outcome of a whole batch.
#[derive(Debug, Clone)]
pub struct BatchResult {
    pub items: Vec<BatchItemResult>,
    pub report_path: Option<String>,
}

/// The outcome of one file of a batch.
#[derive(Debug, Clone)]
pub struct BatchItemResult {
    pub path: String,
    pub success: bool,
    pub message: String,
    pub clean_result: Option<CleanResult>,
    pub shred_result: Option<ShredResult>,
    pub metadata: Option<MetadataReport>,
}

/// The predefined cleaning profiles.
#[derive(Debug, Clone, Copy, PartialEq, Eq, Structural)]
pub enum CleanProfileId {
    SocialMediaShare,
    LegalDocument,
    PhotoBackup,
    RemoveAll,
}

/// The user's persistent preferences.
#[derive(Debug, Clone)]
pub struct AppSettings {
    pub output_dir: Option<String>,
    pub preserve_original: bool,
    pub default_shred_method: ShredMethod,
    pub default_shred_passes: u8,
    pub enable_history: bool,
    pub default_profile: CleanProfileId,
    pub watch_folder_enabled: bool,
    pub watch_folder_path: Option<String>,
}

impl Default for AppSettings {
    fn default() -> (r: AppSettings)
        ensures
            r.output_dir is None,
            r.preserve_original,
            r.default_shred_method == ShredMethod::Random1Pass,
            r.default_shred_passes == 1,
            r.enable_history,
            r.default_profile == CleanProfileId::RemoveAll,
            !r.watch_folder_enabled,
            r.watch_folder_path is None,
    {
        AppSettings {
            output_dir: None,
            preserve_original: true,
            default_shred_method: ShredMethod::Random1Pass,
            default_shred_passes: 1,
            enable_history: true,
            default_profile: CleanProfileId::RemoveAll,
            watch_folder_enabled: false,
            watch_folder_path: None,
        }
    }
}

/// One line of the processing history.
#[derive(Debug, Clone)]
pub struct HistoryEntry {
    pub timestamp: String,
    pub source_path: String,
    pub output_path: Option<String>,
    pub action: String,
    pub privacy_score_before: u8,
    pub privacy_score_after: u8,
}

/// Errors of the library's operations; each carries its detail text.
#[derive(Debug)]
pub enum PrivyFileError {
    Io(String),
    Metadata(String),
    Shred(String),
    NotFound(String),
    Unsupported(String),
}

/// The text shown for an error: a fixed prefix per kind, then the detail.
pub open spec fn error_message(e: PrivyFileError) -> Seq<char> {
    match e {
        PrivyFileError::Io(d) => "IO error: "@ + d@,
        PrivyFileError::Metadata(d) => "Metadata error: "@ + d@,
        PrivyFileError::Shred(d) => "Shred error: "@ + d@,
        PrivyFileError::NotFound(d) => "File not found: "@ + d@,
        PrivyFileError::Unsupported(d) => "Unsupported file type: "@ + d@,
    }
}

impl PrivyFileError {
    /// The human readable text of the error.
    pub fn message(&self) -> (r: String)
        ensures
            r@ == error_message(*self),
    {
        let (prefix, detail) = match self {
            PrivyFileError::Io(d) => ("IO error: ", d),
            PrivyFileError::Metadata(d) => ("Metadata error: ", d),
            PrivyFileError::Shred(d) => ("Shred error: ", d),
            PrivyFileError::NotFound(d) => ("File not found: ", d),
            PrivyFileError::Unsupported(d) => ("Unsupported file type: ", d),
        };
        let mut s = owned(prefix);
        s.append(detail.as_str());
        s
    }
}

} // verus!
