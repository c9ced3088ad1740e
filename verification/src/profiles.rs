//! Predefined cleaning profiles: which categories each one strips, and how
//! it is presented.

use vstd::prelude::*;

use crate::text::owned;
use crate::types::{category_list, CleanOptions, CleanProfileId, MetadataCategory};

verus! {

/// The categories a profile removes.
pub open spec fn profile_categories(p: CleanProfileId) -> Seq<MetadataCategory> {
    match p {
        CleanProfileId::SocialMediaShare => seq![
            MetadataCategory::Gps,
            MetadataCategory::Device,
            MetadataCategory::Author,
        ],
        CleanProfileId::LegalDocument => seq![MetadataCategory::Author, MetadataCategory::Other],
        CleanProfileId::PhotoBackup => seq![MetadataCategory::Gps],
        CleanProfileId::RemoveAll => seq![
            MetadataCategory::Gps,
            MetadataCategory::Device,
            MetadataCategory::Author,
            MetadataCategory::Timestamps,
            MetadataCategory::Other,
        ],
    }
}

/// The category selection that results from a profile choice: a chosen
/// profile replaces the selection with its own categories.
pub open spec fn selection_after_profile(
    profile: Option<CleanProfileId>,
    categories: Option<Seq<MetadataCategory>>,
) -> Option<Seq<MetadataCategory>> {
    match profile {
        Some(p) => Some(profile_categories(p)),
        None => categories,
    }
}

/// The display name of a profile.
pub open spec fn profile_name(p: CleanProfileId) -> Seq<char> {
    match p {
        CleanProfileId::SocialMediaShare => "Social Media Share"@,
        CleanProfileId::LegalDocument => "Legal Document"@,
        CleanProfileId::PhotoBackup => "Photo Backup"@,
        CleanProfileId::RemoveAll => "Remove All Metadata"@,
    }
}

/// The explanation of a profile.
pub open spec fn profile_text(p: CleanProfileId) -> Seq<char> {
    match p {
        CleanProfileId::SocialMediaShare => "Remove GPS, device serials, and author info. Keeps date taken."@,
        CleanProfileId::LegalDocument => "Remove author, edit history, and comments. Keeps creation date."@,
        CleanProfileId::PhotoBackup => "Remove GPS/location only. Keeps camera settings and dates."@,
        CleanProfileId::RemoveAll => "Strip all metadata categories from the file."@,
    }
}

/// Resolve the profile of the options into an explicit category selection;
/// every other option is kept.
pub fn apply_profile(options: CleanOptions) -> (r: CleanOptions)
    ensures
        category_list(r.categories) == selection_after_profile(
            options.profile,
            category_list(options.categories),
        ),
        r.output_dir == options.output_dir,
        r.preserve_original == options.preserve_original,
        r.shred_original == options.shred_original,
        r.profile == options.profile,
{
    let mut options = options;
    if let Some(profile) = options.profile {
        options.categories = Some(categories_for_profile(profile));
    }
    options
}

/// The categories a profile strips.
pub fn categories_for_profile(profile: CleanProfileId) -> (r: Vec<MetadataCategory>)
    ensures
        r@ == profile_categories(profile),
{
    let v = match profile {
        CleanProfileId::SocialMediaShare => vec![
            MetadataCategory::Gps,
            MetadataCategory::Device,
            MetadataCategory::Author,
        ],
        CleanProfileId::LegalDocument => vec![MetadataCategory::Author, MetadataCategory::Other],
        CleanProfileId::PhotoBackup => vec![MetadataCategory::Gps],
        CleanProfileId::RemoveAll => vec![
            MetadataCategory::Gps,
            MetadataCategory::Device,
            MetadataCategory::Author,
            MetadataCategory::Timestamps,
            MetadataCategory::Other,
        ],
    };
    proof {
        assert(v@ =~= profile_categories(profile));
    }
    v
}

/// The display name of a profile.
pub fn profile_label(profile: CleanProfileId) -> (r: &'static str)
    ensures
        r@ == profile_name(profile),
{
    match profile {
        CleanProfileId::SocialMediaShare => "Social Media Share",
        CleanProfileId::LegalDocument => "Legal Document",
        CleanProfileId::PhotoBackup => "Photo Backup",
        CleanProfileId::RemoveAll => "Remove All Metadata",
    }
}

/// The explanation of a profile.
pub fn profile_description(profile: CleanProfileId) -> (r: &'static str)
    ensures
        r@ == profile_text(profile),
{
    match profile {
        CleanProfileId::SocialMediaShare => "Remove GPS, device serials, and author info. Keeps date taken.",
        CleanProfileId::LegalDocument => "Remove author, edit history, and comments. Keeps creation date.",
        CleanProfileId::PhotoBackup => "Remove GPS/location only. Keeps camera settings and dates.",
        CleanProfileId::RemoveAll => "Strip all metadata categories from the file.",
    }
}

/// A profile as it is offered to the user.
#[derive(Debug, Clone)]
pub struct ProfileInfo {
    pub id: CleanProfileId,
    pub label: String,
    pub description: String,
}

/// The profiles in the order they are offered.
pub open spec fn offered_profiles() -> Seq<CleanProfileId> {
    seq![
        CleanProfileId::SocialMediaShare,
        CleanProfileId::LegalDocument,
        CleanProfileId::PhotoBackup,
        CleanProfileId::RemoveAll,
    ]
}

fn profile_info(id: CleanProfileId) -> (r: ProfileInfo)
    ensures
        r.id == id,
        r.label@ == profile_name(id),
        r.description@ == profile_text(id),
{
    ProfileInfo { id, label: owned(profile_label(id)), description: owned(profile_description(id)) }
}

/// Every profile with its label and description, in offering order.
pub fn list_profiles() -> (r: Vec<ProfileInfo>)
    ensures
        r@.len() == 4,
        forall|i: int|
            0 <= i < 4 ==> {
                &&& (#[trigger] r@[i]).id == offered_profiles()[i]
                &&& r@[i].label@ == profile_name(offered_profiles()[i])
                &&& r@[i].description@ == profile_text(offered_profiles()[i])
            },
{
    let mut r: Vec<ProfileInfo> = Vec::new();
    r.push(profile_info(CleanProfileId::SocialMediaShare));
    r.push(profile_info(CleanProfileId::LegalDocument));
    r.push(profile_info(CleanProfileId::PhotoBackup));
    r.push(profile_info(CleanProfileId::RemoveAll));
    r
}

/// Applying a profile a second time changes nothing: the selection is
/// already the profile's own.
pub proof fn law_profile_application_idempotent(
    profile: Option<CleanProfileId>,
    categories: Option<Seq<MetadataCategory>>,
)
    ensures
        selection_after_profile(profile, selection_after_profile(profile, categories))
            == selection_after_profile(profile, categories),
{
}

/// Every profile strips at least one category, each category at most once,
/// and "Remove All" strips every category.
pub proof fn law_profiles_cover_categories(p: CleanProfileId, c: MetadataCategory)
    ensures
        profile_categories(p).len() >= 1,
        profile_categories(p).no_duplicates(),
        profile_categories(CleanProfileId::RemoveAll).contains(c),
{
    let all = profile_categories(CleanProfileId::RemoveAll);
    match c {
        MetadataCategory::Gps => assert(all[0] == c),
        MetadataCategory::Device => assert(all[1] == c),
        MetadataCategory::Author => assert(all[2] == c),
        MetadataCategory::Timestamps => assert(all[3] == c),
        MetadataCategory::Other => assert(all[4] == c),
    }
}

/// What each profile strips, as its description says: "Social Media Share"
/// the GPS, device and author tags and keeps the dates; "Legal Document"
/// the author tags and the other tags (comments and the like) and keeps the
/// creation date; "Photo Backup" only the GPS tags; "Remove All" every
/// category. So only "Remove All" strips timestamps.
pub proof fn law_profile_contents(p: CleanProfileId, c: MetadataCategory)
    ensures
        profile_categories(p).contains(c) <==> match p {
            CleanProfileId::SocialMediaShare => c == MetadataCategory::Gps || c
                == MetadataCategory::Device || c == MetadataCategory::Author,
            CleanProfileId::LegalDocument => c == MetadataCategory::Author || c
                == MetadataCategory::Other,
            CleanProfileId::PhotoBackup => c == MetadataCategory::Gps,
            CleanProfileId::RemoveAll => true,
        },
        profile_categories(p).contains(MetadataCategory::Timestamps) <==> p
            == CleanProfileId::RemoveAll,
{
    let s = profile_categories(p);
    let t = MetadataCategory::Timestamps;
    assert(s.contains(c) <==> exists|i: int| 0 <= i < s.len() && s[i] == c);
    match p {
        CleanProfileId::SocialMediaShare => {
            assert(s.len() == 3 && s[0] == MetadataCategory::Gps && s[1] == MetadataCategory::Device
                && s[2] == MetadataCategory::Author);
        },
        CleanProfileId::LegalDocument => {
            assert(s.len() == 2 && s[0] == MetadataCategory::Author && s[1] == MetadataCategory::Other);
        },
        CleanProfileId::PhotoBackup => {
            assert(s.len() == 1 && s[0] == MetadataCategory::Gps);
        },
        CleanProfileId::RemoveAll => {
            law_profiles_cover_categories(p, c);
            law_profiles_cover_categories(p, t);
        },
    }
    if p != CleanProfileId::RemoveAll {
        assert(!s.contains(t));
    }
    if s.contains(c) {
        let i = choose|i: int| 0 <= i < s.len() && s[i] == c;
        assert(s[i] == c);
    }
}

/// The names the profiles are shown under.
pub proof fn law_profile_names(p: CleanProfileId)
    ensures
        profile_name(p) == match p {
            CleanProfileId::SocialMediaShare => "Social Media Share"@,
            CleanProfileId::LegalDocument => "Legal Document"@,
            CleanProfileId::PhotoBackup => "Photo Backup"@,
            CleanProfileId::RemoveAll => "Remove All Metadata"@,
        },
{
}

} // verus!
