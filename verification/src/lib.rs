//! Sanitising files before they are shared or deleted: reading metadata,
//! scoring how much it exposes, choosing what to strip, shredding, batches,
//! history and reports.

pub mod batch;
pub mod categories;
pub mod history;
pub mod locations;
pub mod metadata;
pub mod paths;
pub mod profiles;
pub mod reports;
pub mod shred;
pub mod text;
pub mod types;

pub use categories::{
    categorize_tag, compute_exposure_risk, compute_privacy_score, filter_tags_by_categories,
    tag_names_for_categories,
};
pub use metadata::{compare_metadata_size, metadata_report_from_tags, parse_exiftool_json};
pub use paths::{detect_file_type, is_rust_native_image, supported_extension};
pub use profiles::{
    apply_profile, categories_for_profile, list_profiles, profile_description, profile_label,
    ProfileInfo,
};
pub use shred::{is_likely_ssd, shred_warning, shred_warning_message};
pub use types::{
    AppSettings, BatchAction, BatchItem, BatchItemResult, BatchProgress, BatchResult,
    CleanOptions, CleanProfileId, CleanResult, HistoryEntry, MetadataCategory, MetadataReport,
    PrivyFileError, ShredMethod, ShredOptions, ShredResult, TagEntry,
};
