//! Sorting metadata tags into privacy categories, scoring how much a file
//! exposes, and choosing which tags to strip.

use vstd::prelude::*;

use crate::text::{contains_seq, owned, str_contains, to_lowercase, unicode_lowercase};
use crate::types::{MetadataCategory, TagEntry};

verus! {

// ---------------------------------------------------------------------------
// Categorising tag names
// ---------------------------------------------------------------------------
/// Substrings that mark a location tag.
pub open spec fn gps_patterns() -> Seq<Seq<char>> {
    seq![
        "gps"@,
        "location"@,
        "latitude"@,
        "longitude"@,
        "altitude"@,
        "coordinates"@,
        "geo"@,
    ]
}

/// Substrings that mark a device tag.
pub open spec fn device_patterns() -> Seq<Seq<char>> {
    seq![
        "camera"@,
        "lens"@,
        "serial"@,
        "device"@,
        "make"@,
        "model"@,
        "software"@,
        "firmware"@,
        "bodyserial"@,
        "lensmodel"@,
        "uniquecamera"@,
    ]
}

/// Substrings that mark an authorship tag.
pub open spec fn author_patterns() -> Seq<Seq<char>> {
    seq![
        "author"@,
        "creator"@,
        "artist"@,
        "copyright"@,
        "owner"@,
        "producer"@,
        "publisher"@,
        "comment"@,
        "description"@,
        "title"@,
        "subject"@,
        "keywords"@,
        "company"@,
    ]
}

/// Substrings that mark a timestamp tag.
pub open spec fn timestamp_patterns() -> Seq<Seq<char>> {
    seq!["date"@, "time"@, "created"@, "modified"@, "digitized"@, "timestamp"@, "history"@]
}

/// Some pattern of the list occurs in `value`.
pub open spec fn matches_any(value: Seq<char>, patterns: Seq<Seq<char>>) -> bool {
    exists|j: int| 0 <= j < patterns.len() && contains_seq(value, #[trigger] patterns[j])
}

/// The category of an already lowercased tag name: the first group, in the
/// order GPS, device, author, timestamps, whose patterns occur in it.
pub open spec fn category_of_lowered(lower: Seq<char>) -> MetadataCategory {
    if matches_any(lower, gps_patterns()) {
        MetadataCategory::Gps
    } else if matches_any(lower, device_patterns()) {
        MetadataCategory::Device
    } else if matches_any(lower, author_patterns()) {
        MetadataCategory::Author
    } else if matches_any(lower, timestamp_patterns()) {
        MetadataCategory::Timestamps
    } else {
        MetadataCategory::Other
    }
}

/// The category of a tag name, matched without regard to case.
pub open spec fn category_of_name(name: Seq<char>) -> MetadataCategory {
    category_of_lowered(unicode_lowercase(name))
}

/// The views of a list of string slices.
pub open spec fn views_of(list: Seq<&str>) -> Seq<Seq<char>> {
    list.map_values(|p: &str| p@)
}

fn gps_pattern_list() -> (r: Vec<&'static str>)
    ensures
        views_of(r@) == gps_patterns(),
{
    let v = vec!["gps", "location", "latitude", "longitude", "altitude", "coordinates", "geo"];
    proof {
        assert(views_of(v@) =~= gps_patterns());
    }
    v
}

fn device_pattern_list() -> (r: Vec<&'static str>)
    ensures
        views_of(r@) == device_patterns(),
{
    let v = vec![
        "camera",
        "lens",
        "serial",
        "device",
        "make",
        "model",
        "software",
        "firmware",
        "bodyserial",
        "lensmodel",
        "uniquecamera",
    ];
    proof {
        assert(views_of(v@) =~= device_patterns());
    }
    v
}

fn author_pattern_list() -> (r: Vec<&'static str>)
    ensures
        views_of(r@) == author_patterns(),
{
    let v = vec![
        "author",
        "creator",
        "artist",
        "copyright",
        "owner",
        "producer",
        "publisher",
        "comment",
        "description",
        "title",
        "subject",
        "keywords",
        "company",
    ];
    proof {
        assert(views_of(v@) =~= author_patterns());
    }
    v
}

fn timestamp_pattern_list() -> (r: Vec<&'static str>)
    ensures
        views_of(r@) == timestamp_patterns(),
{
    let v = vec!["date", "time", "created", "modified", "digitized", "timestamp", "history"];
    proof {
        assert(views_of(v@) =~= timestamp_patterns());
    }
    v
}

/// Does any of the patterns occur in `value`?
pub fn matches_pattern(value: &str, patterns: &[&str]) -> (r: bool)
    ensures
        r == matches_any(value@, views_of(patterns@)),
{
    let mut i: usize = 0;
    while i < patterns.len()
        invariant
            i <= patterns@.len(),
            forall|j: int| 0 <= j < i ==> !contains_seq(value@, #[trigger] patterns@[j]@),
        decreases patterns@.len() - i,
    {
        if str_contains(value, patterns[i]) {
            proof {
                assert(views_of(patterns@)[i as int] == patterns@[i as int]@);
            }
            return true;
        }
        i = i + 1;
    }
    proof {
        assert forall|j: int| 0 <= j < views_of(patterns@).len() implies !contains_seq(
            value@,
            #[trigger] views_of(patterns@)[j],
        ) by {
            assert(views_of(patterns@)[j] == patterns@[j]@);
        }
    }
    false
}

/// The privacy category of a metadata tag name (case-insensitive).
pub fn categorize_tag(name: &str) -> (c: MetadataCategory)
    ensures
        c == category_of_name(name@),
{
    let lower = to_lowercase(name);
    let l = lower.as_str();
    if matches_pattern(l, gps_pattern_list().as_slice()) {
        MetadataCategory::Gps
    } else if matches_pattern(l, device_pattern_list().as_slice()) {
        MetadataCategory::Device
    } else if matches_pattern(l, author_pattern_list().as_slice()) {
        MetadataCategory::Author
    } else if matches_pattern(l, timestamp_pattern_list().as_slice()) {
        MetadataCategory::Timestamps
    } else {
        MetadataCategory::Other
    }
}

// ---------------------------------------------------------------------------
// Scoring
// ---------------------------------------------------------------------------
/// How much one tag of a category adds to the exposure risk.
pub open spec fn category_weight(c: MetadataCategory) -> nat {
    match c {
        MetadataCategory::Gps => 30,
        MetadataCategory::Author => 20,
        MetadataCategory::Device => 15,
        MetadataCategory::Timestamps => 10,
        MetadataCategory::Other => 5,
    }
}

/// The sum of the weights of all tags.
pub open spec fn weight_sum(tags: Seq<TagEntry>) -> nat
    decreases tags.len(),
{
    if tags.len() == 0 {
        0
    } else {
        weight_sum(tags.drop_last()) + category_weight(tags.last().category)
    }
}

/// Exposure risk: the weight sum, capped at 100.
pub open spec fn exposure_risk(tags: Seq<TagEntry>) -> nat {
    if weight_sum(tags) < 100 {
        weight_sum(tags)
    } else {
        100
    }
}

/// Privacy score: 100 minus the exposure risk.
pub open spec fn privacy_score(tags: Seq<TagEntry>) -> nat {
    (100 - exposure_risk(tags)) as nat
}

/// The weight sum of a concatenation is the sum of the weight sums.
pub proof fn lemma_weight_sum_concat(a: Seq<TagEntry>, b: Seq<TagEntry>)
    ensures
        weight_sum(a + b) == weight_sum(a) + weight_sum(b),
    decreases b.len(),
{
    if b.len() == 0 {
        assert(a + b =~= a);
    } else {
        assert((a + b).drop_last() =~= a + b.drop_last());
        lemma_weight_sum_concat(a, b.drop_last());
    }
}

/// Raw metadata exposure risk (0 = none, 100 = severe): every GPS tag adds
/// 30, author 20, device 15, timestamp 10, other 5, capped at 100. The
/// running sum stops at the cap, so any number of tags can be scored.
pub fn compute_exposure_risk(tags: &[TagEntry]) -> (r: u8)
    ensures
        r == exposure_risk(tags@),
        r <= 100,
{
    let mut score: u32 = 0;
    let mut i: usize = 0;
    while i < tags.len()
        invariant
            i <= tags@.len(),
            score == exposure_risk(tags@.subrange(0, i as int)),
        decreases tags@.len() - i,
    {
        let w: u32 = match tags[i].category {
            MetadataCategory::Gps => 30,
            MetadataCategory::Author => 20,
            MetadataCategory::Device => 15,
            MetadataCategory::Timestamps => 10,
            MetadataCategory::Other => 5,
        };
        proof {
            assert(tags@.subrange(0, i + 1).drop_last() =~= tags@.subrange(0, i as int));
        }
        score = if score + w < 100 {
            score + w
        } else {
            100
        };
        i = i + 1;
    }
    proof {
        assert(tags@.subrange(0, tags@.len() as int) =~= tags@);
    }
    score as u8
}

/// Privacy cleanliness rating (100 = fully clean, 0 = maximum exposure).
pub fn compute_privacy_score(tags: &[TagEntry]) -> (r: u8)
    ensures
        r == privacy_score(tags@),
        r + exposure_risk(tags@) == 100,
{
    100 - compute_exposure_risk(tags)
}

// ---------------------------------------------------------------------------
// Selecting tags
// ---------------------------------------------------------------------------
/// The tags whose category is one of `categories`, in the order given.
pub open spec fn tags_in_categories(tags: Seq<TagEntry>, categories: Seq<MetadataCategory>) -> Seq<
    TagEntry,
> {
    tags.filter(|t: TagEntry| categories.contains(t.category))
}

/// Is `c` one of `categories`?
pub fn contains_category(categories: &[MetadataCategory], c: MetadataCategory) -> (r: bool)
    ensures
        r == categories@.contains(c),
{
    let mut i: usize = 0;
    while i < categories.len()
        invariant
            i <= categories@.len(),
            forall|j: int| 0 <= j < i ==> categories@[j] != c,
        decreases categories@.len() - i,
    {
        if categories[i] == c {
            proof {
                assert(categories@[i as int] == c);
            }
            return true;
        }
        i = i + 1;
    }
    false
}

/// The tags that belong to one of the given categories, in order.
pub fn filter_tags_by_categories(tags: &[TagEntry], categories: &[MetadataCategory]) -> (r: Vec<
    TagEntry,
>)
    ensures
        r@ == tags_in_categories(tags@, categories@),
{
    let mut out: Vec<TagEntry> = Vec::new();
    let mut i: usize = 0;
    while i < tags.len()
        invariant
            i <= tags@.len(),
            out@ == tags_in_categories(tags@.subrange(0, i as int), categories@),
        decreases tags@.len() - i,
    {
        proof {
            assert(tags@.subrange(0, i + 1).drop_last() =~= tags@.subrange(0, i as int));
            reveal_with_fuel(Seq::filter, 1);
        }
        if contains_category(categories, tags[i].category) {
            out.push(tags[i].duplicate());
        }
        i = i + 1;
    }
    proof {
        assert(tags@.subrange(0, tags@.len() as int) =~= tags@);
    }
    out
}

/// The ExifTool tag-name patterns that address one category.
pub open spec fn names_for_category(c: MetadataCategory) -> Seq<Seq<char>> {
    match c {
        MetadataCategory::Gps => seq!["GPS*"@, "Composite:*GPS*"@, "XMP:GPS*"@, "Location*"@, "Geo*"@],
        MetadataCategory::Device => seq![
            "Make"@,
            "Model"@,
            "SerialNumber"@,
            "Camera*"@,
            "Lens*"@,
            "Software"@,
            "Device*"@,
            "UniqueCameraModel"@,
            "BodySerialNumber"@,
        ],
        MetadataCategory::Author => seq![
            "Author"@,
            "Creator"@,
            "Artist"@,
            "Copyright"@,
            "Owner"@,
            "Producer"@,
            "Publisher"@,
            "Comment"@,
            "Title"@,
            "Subject"@,
            "Keywords"@,
            "Company"@,
            "XMP:Creator*"@,
            "PDF:Author"@,
            "PDF:Creator"@,
            "PDF:Producer"@,
        ],
        MetadataCategory::Timestamps => seq![
            "DateTime*"@,
            "CreateDate"@,
            "ModifyDate"@,
            "FileModifyDate"@,
            "FileCreateDate"@,
            "History*"@,
            "TrackCreateDate"@,
            "MediaCreateDate"@,
        ],
        MetadataCategory::Other => seq!["-all:all"@],
    }
}

/// The patterns of every category of the list, in list order.
pub open spec fn tag_names(categories: Seq<MetadataCategory>) -> Seq<Seq<char>>
    decreases categories.len(),
{
    if categories.len() == 0 {
        seq![]
    } else {
        tag_names(categories.drop_last()) + names_for_category(categories.last())
    }
}

/// The views of a list of strings.
pub open spec fn string_views(list: Seq<String>) -> Seq<Seq<char>> {
    list.map_values(|s: String| s@)
}

fn category_name_list(c: MetadataCategory) -> (r: Vec<&'static str>)
    ensures
        views_of(r@) == names_for_category(c),
{
    let v = match c {
        MetadataCategory::Gps => vec!["GPS*", "Composite:*GPS*", "XMP:GPS*", "Location*", "Geo*"],
        MetadataCategory::Device => vec![
            "Make",
            "Model",
            "SerialNumber",
            "Camera*",
            "Lens*",
            "Software",
            "Device*",
            "UniqueCameraModel",
            "BodySerialNumber",
        ],
        MetadataCategory::Author => vec![
            "Author",
            "Creator",
            "Artist",
            "Copyright",
            "Owner",
            "Producer",
            "Publisher",
            "Comment",
            "Title",
            "Subject",
            "Keywords",
            "Company",
            "XMP:Creator*",
            "PDF:Author",
            "PDF:Creator",
            "PDF:Producer",
        ],
        MetadataCategory::Timestamps => vec![
            "DateTime*",
            "CreateDate",
            "ModifyDate",
            "FileModifyDate",
            "FileCreateDate",
            "History*",
            "TrackCreateDate",
            "MediaCreateDate",
        ],
        MetadataCategory::Other => vec!["-all:all"],
    };
    proof {
        assert(views_of(v@) =~= names_for_category(c));
    }
    v
}

/// ExifTool tag-name patterns (`-NAME=` targets) for the given categories.
pub fn tag_names_for_categories(categories: &[MetadataCategory]) -> (r: Vec<String>)
    ensures
        string_views(r@) == tag_names(categories@),
{
    let mut names: Vec<String> = Vec::new();
    let mut i: usize = 0;
    while i < categories.len()
        invariant
            i <= categories@.len(),
            string_views(names@) == tag_names(categories@.subrange(0, i as int)),
        decreases categories@.len() - i,
    {
        let lits = category_name_list(categories[i]);
        let ghost before = names@;
        let mut k: usize = 0;
        while k < lits.len()
            invariant
                k <= lits@.len(),
                string_views(names@) == string_views(before) + views_of(lits@.subrange(
                    0,
                    k as int,
                )),
            decreases lits@.len() - k,
        {
            let name = owned(lits[k]);
            let ghost prev = names@;
            names.push(name);
            proof {
                assert(string_views(names@) =~= string_views(prev).push(lits@[k as int]@));
                assert(views_of(lits@.subrange(0, k + 1)) =~= views_of(
                    lits@.subrange(0, k as int),
                ).push(lits@[k as int]@));
            }
            k = k + 1;
        }
        proof {
            assert(categories@.subrange(0, i + 1).drop_last() =~= categories@.subrange(0, i as int));
            assert(lits@.subrange(0, lits@.len() as int) =~= lits@);
        }
        i = i + 1;
    }
    proof {
        assert(categories@.subrange(0, categories@.len() as int) =~= categories@);
    }
    names
}

// ---------------------------------------------------------------------------
// Laws
// ---------------------------------------------------------------------------
/// Finding one more tag in a file never lowers its exposure risk and never
/// raises its privacy score.
pub proof fn law_extra_tag_never_improves_score(tags: Seq<TagEntry>, extra: TagEntry)
    ensures
        exposure_risk(tags.push(extra)) >= exposure_risk(tags),
        privacy_score(tags.push(extra)) <= privacy_score(tags),
{
    assert(tags.push(extra).drop_last() =~= tags);
}

/// The exposure risk of a tag list does not depend on the order in which
/// two parts of it are listed.
pub proof fn law_risk_ignores_order(a: Seq<TagEntry>, b: Seq<TagEntry>)
    ensures
        exposure_risk(a + b) == exposure_risk(b + a),
        privacy_score(a + b) == privacy_score(b + a),
{
    lemma_weight_sum_concat(a, b);
    lemma_weight_sum_concat(b, a);
}

/// The exposure risk of two tag lists put together is the sum of their
/// risks, capped at 100; so adding tags never lowers the risk.
pub proof fn law_risk_adds_up(a: Seq<TagEntry>, b: Seq<TagEntry>)
    ensures
        exposure_risk(a + b) == (if exposure_risk(a) + exposure_risk(b) < 100 {
            exposure_risk(a) + exposure_risk(b)
        } else {
            100
        }),
        exposure_risk(a + b) >= exposure_risk(a),
        exposure_risk(a + b) >= exposure_risk(b),
{
    lemma_weight_sum_concat(a, b);
}

/// The exposure risk is 0 exactly when there are no tags: every tag weighs
/// something.
pub proof fn law_risk_zero_only_without_tags(tags: Seq<TagEntry>)
    ensures
        exposure_risk(tags) == 0 <==> tags.len() == 0,
{
    if tags.len() > 0 {
        assert(weight_sum(tags) >= category_weight(tags.last().category));
    }
}

/// Tag lists holding the same tags, in any order, have the same weight sum.
proof fn lemma_weight_sum_permutation(a: Seq<TagEntry>, b: Seq<TagEntry>)
    requires
        a.to_multiset() == b.to_multiset(),
    ensures
        weight_sum(a) == weight_sum(b),
    decreases a.len(),
{
    broadcast use vstd::seq_lib::group_to_multiset_ensures;
    broadcast use vstd::multiset::group_multiset_axioms;

    if a.len() == 0 {
        assert(b.to_multiset().len() == 0);
        assert(b.len() == 0);
    } else {
        let x = a.last();
        let rest = a.drop_last();
        assert(rest.push(x) =~= a);
        assert(a.to_multiset() =~= rest.to_multiset().insert(x));
        assert(b.to_multiset().count(x) > 0);
        assert(b.contains(x));
        let k = choose|k: int| 0 <= k < b.len() && b[k] == x;
        let b2 = b.remove(k);
        assert(b2.to_multiset() =~= b.to_multiset().remove(x));
        assert(b2.to_multiset() =~= rest.to_multiset());
        lemma_weight_sum_permutation(rest, b2);
        let left = b.subrange(0, k);
        let right = b.subrange(k + 1, b.len() as int);
        assert(b =~= left + seq![x] + right);
        assert(b2 =~= left + right);
        lemma_weight_sum_concat(left, seq![x]);
        lemma_weight_sum_concat(left + seq![x], right);
        lemma_weight_sum_concat(left, right);
        assert(seq![x].drop_last() =~= Seq::<TagEntry>::empty());
        assert(seq![x].last() == x);
        assert(weight_sum(Seq::<TagEntry>::empty()) == 0);
        assert(weight_sum(seq![x]) == weight_sum(seq![x].drop_last()) + category_weight(x.category));
        assert(weight_sum(seq![x]) == category_weight(x.category));
        assert(weight_sum(a) == weight_sum(rest) + category_weight(x.category));
    }
}

/// The exposure risk and the privacy score of a tag list do not depend on
/// the order of its tags: any rearrangement gives the same values.
pub proof fn law_risk_ignores_permutation(a: Seq<TagEntry>, b: Seq<TagEntry>)
    requires
        a.to_multiset() == b.to_multiset(),
    ensures
        exposure_risk(a) == exposure_risk(b),
        privacy_score(a) == privacy_score(b),
{
    lemma_weight_sum_permutation(a, b);
}

/// The exposure risk never exceeds 100, and the privacy score and the
/// exposure risk always add up to 100.
pub proof fn law_score_complements_risk(tags: Seq<TagEntry>)
    ensures
        exposure_risk(tags) <= 100,
        privacy_score(tags) + exposure_risk(tags) == 100,
{
}

/// A file without tags has no exposure risk and a perfect privacy score.
pub proof fn law_no_tags_is_perfectly_private()
    ensures
        exposure_risk(Seq::<TagEntry>::empty()) == 0,
        privacy_score(Seq::<TagEntry>::empty()) == 100,
{
}

/// Every tag that the filter keeps belongs to one of the chosen categories,
/// and every tag of a chosen category is kept.
pub proof fn law_filter_keeps_exactly_chosen(
    tags: Seq<TagEntry>,
    categories: Seq<MetadataCategory>,
)
    ensures
        forall|i: int|
            0 <= i < tags_in_categories(tags, categories).len() ==> categories.contains(
                #[trigger] tags_in_categories(tags, categories)[i].category,
            ),
        forall|t: TagEntry|
            tags.contains(t) && categories.contains(t.category) ==> #[trigger] tags_in_categories(
                tags,
                categories,
            ).contains(t),
        tags_in_categories(tags, categories).len() <= tags.len(),
{
    let f = |t: TagEntry| categories.contains(t.category);
    tags.lemma_filter_len(f);
    assert forall|i: int|
        0 <= i < tags.filter(f).len() implies categories.contains(
        #[trigger] tags.filter(f)[i].category,
    ) by {
        tags.lemma_filter_pred(f, i);
    }
    assert forall|t: TagEntry|
        tags.contains(t) && categories.contains(t.category) implies #[trigger] tags.filter(
        f,
    ).contains(t) by {
        let k = choose|k: int| 0 <= k < tags.len() && tags[k] == t;
        assert(f(tags[k]));
        tags.lemma_filter_contains(f, k);
    }
}

/// Filtering twice by the same categories keeps the same tags as filtering
/// once.
pub proof fn law_filter_idempotent(tags: Seq<TagEntry>, categories: Seq<MetadataCategory>)
    ensures
        tags_in_categories(tags_in_categories(tags, categories), categories) == tags_in_categories(
            tags,
            categories,
        ),
    decreases tags.len(),
{
    let f = |t: TagEntry| categories.contains(t.category);
    reveal_with_fuel(Seq::filter, 1);
    if tags.len() > 0 {
        law_filter_idempotent(tags.drop_last(), categories);
        let rest = tags.drop_last().filter(f);
        if f(tags.last()) {
            assert(tags.filter(f) =~= rest.push(tags.last()));
            assert(rest.push(tags.last()).drop_last() =~= rest);
        } else {
            assert(tags.filter(f) =~= rest);
        }
    }
    assert(tags_in_categories(tags_in_categories(tags, categories), categories)
        =~= tags_in_categories(tags, categories));
}

/// Choosing every category keeps every tag.
pub proof fn law_filter_all_categories_keeps_all(tags: Seq<TagEntry>)
    ensures
        tags_in_categories(
            tags,
            seq![
                MetadataCategory::Gps,
                MetadataCategory::Device,
                MetadataCategory::Author,
                MetadataCategory::Timestamps,
                MetadataCategory::Other,
            ],
        ) == tags,
    decreases tags.len(),
{
    let all = seq![
        MetadataCategory::Gps,
        MetadataCategory::Device,
        MetadataCategory::Author,
        MetadataCategory::Timestamps,
        MetadataCategory::Other,
    ];
    reveal_with_fuel(Seq::filter, 1);
    if tags.len() > 0 {
        law_filter_all_categories_keeps_all(tags.drop_last());
        let c = tags.last().category;
        assert(all.contains(c)) by {
            match c {
                MetadataCategory::Gps => assert(all[0] == c),
                MetadataCategory::Device => assert(all[1] == c),
                MetadataCategory::Author => assert(all[2] == c),
                MetadataCategory::Timestamps => assert(all[3] == c),
                MetadataCategory::Other => assert(all[4] == c),
            }
        }
        assert(tags.drop_last().push(tags.last()) =~= tags);
    }
    assert(tags_in_categories(tags, all) =~= tags);
}

/// The ExifTool patterns for a list of categories made of two parts are the
/// patterns of the first part followed by those of the second.
pub proof fn law_tag_names_concat(a: Seq<MetadataCategory>, b: Seq<MetadataCategory>)
    ensures
        tag_names(a + b) == tag_names(a) + tag_names(b),
    decreases b.len(),
{
    if b.len() == 0 {
        assert(a + b =~= a);
        assert(tag_names(a) + tag_names(b) =~= tag_names(a));
    } else {
        assert((a + b).drop_last() =~= a + b.drop_last());
        law_tag_names_concat(a, b.drop_last());
        assert(tag_names(a + b) =~= tag_names(a) + tag_names(b));
    }
}

/// Tag names are categorised without regard to case: two names with the
/// same lowercase form fall in the same category, and a name whose lowercase
/// form holds a location pattern is a GPS tag whatever else it holds.
pub proof fn law_category_ignores_case(a: Seq<char>, b: Seq<char>)
    ensures
        unicode_lowercase(a) == unicode_lowercase(b) ==> category_of_name(a) == category_of_name(
            b,
        ),
        matches_any(unicode_lowercase(a), gps_patterns()) ==> category_of_name(a)
            == MetadataCategory::Gps,
{
}

/// How a tag name is categorised, by the words found in it (case aside):
/// a location word (gps, location, latitude, longitude, altitude,
/// coordinates, geo) makes it a GPS tag; else a device word (camera, lens,
/// serial, device, make, model, software, firmware, ...) a device tag; else
/// an authorship word (author, creator, artist, copyright, owner, producer,
/// publisher, comment, description, title, subject, keywords, company) an
/// author tag; else a time word (date, time, created, modified, digitized,
/// timestamp, history) a timestamp tag; a name with none of them is
/// "other".
pub proof fn law_category_words(name: Seq<char>)
    ensures
        matches_any(unicode_lowercase(name), seq!["gps"@, "location"@, "latitude"@, "longitude"@, "altitude"@, "coordinates"@, "geo"@]) ==> category_of_name(name)
            == MetadataCategory::Gps,
        !matches_any(unicode_lowercase(name), seq!["gps"@, "location"@, "latitude"@, "longitude"@, "altitude"@, "coordinates"@, "geo"@]) && matches_any(unicode_lowercase(name), seq!["camera"@, "lens"@, "serial"@, "device"@, "make"@, "model"@, "software"@, "firmware"@, "bodyserial"@, "lensmodel"@, "uniquecamera"@])
            ==> category_of_name(name) == MetadataCategory::Device,
        !matches_any(unicode_lowercase(name), seq!["gps"@, "location"@, "latitude"@, "longitude"@, "altitude"@, "coordinates"@, "geo"@]) && !matches_any(unicode_lowercase(name), seq!["camera"@, "lens"@, "serial"@, "device"@, "make"@, "model"@, "software"@, "firmware"@, "bodyserial"@, "lensmodel"@, "uniquecamera"@])
            && matches_any(unicode_lowercase(name), seq!["author"@, "creator"@, "artist"@, "copyright"@, "owner"@, "producer"@, "publisher"@, "comment"@, "description"@, "title"@, "subject"@, "keywords"@, "company"@]) ==> category_of_name(name)
            == MetadataCategory::Author,
        !matches_any(unicode_lowercase(name), seq!["gps"@, "location"@, "latitude"@, "longitude"@, "altitude"@, "coordinates"@, "geo"@]) && !matches_any(unicode_lowercase(name), seq!["camera"@, "lens"@, "serial"@, "device"@, "make"@, "model"@, "software"@, "firmware"@, "bodyserial"@, "lensmodel"@, "uniquecamera"@])
            && !matches_any(unicode_lowercase(name), seq!["author"@, "creator"@, "artist"@, "copyright"@, "owner"@, "producer"@, "publisher"@, "comment"@, "description"@, "title"@, "subject"@, "keywords"@, "company"@]) && matches_any(
            unicode_lowercase(name),
            seq!["date"@, "time"@, "created"@, "modified"@, "digitized"@, "timestamp"@, "history"@],
        ) ==> category_of_name(name) == MetadataCategory::Timestamps,
        !matches_any(unicode_lowercase(name), seq!["gps"@, "location"@, "latitude"@, "longitude"@, "altitude"@, "coordinates"@, "geo"@]) && !matches_any(unicode_lowercase(name), seq!["camera"@, "lens"@, "serial"@, "device"@, "make"@, "model"@, "software"@, "firmware"@, "bodyserial"@, "lensmodel"@, "uniquecamera"@])
            && !matches_any(unicode_lowercase(name), seq!["author"@, "creator"@, "artist"@, "copyright"@, "owner"@, "producer"@, "publisher"@, "comment"@, "description"@, "title"@, "subject"@, "keywords"@, "company"@]) && !matches_any(
            unicode_lowercase(name),
            seq!["date"@, "time"@, "created"@, "modified"@, "digitized"@, "timestamp"@, "history"@],
        ) ==> category_of_name(name) == MetadataCategory::Other,
{
}

/// What one tag weighs in the exposure risk: a GPS tag 30, an author tag
/// 20, a device tag 15, a timestamp 10, any other tag 5; a further tag adds
/// its weight to the risk of the others, up to the cap of 100.
pub proof fn law_category_weights(tags: Seq<TagEntry>, t: TagEntry)
    ensures
        exposure_risk(seq![t]) == match t.category {
            MetadataCategory::Gps => 30nat,
            MetadataCategory::Author => 20nat,
            MetadataCategory::Device => 15nat,
            MetadataCategory::Timestamps => 10nat,
            MetadataCategory::Other => 5nat,
        },
        exposure_risk(tags.push(t)) == (if exposure_risk(tags) + exposure_risk(seq![t]) < 100 {
            exposure_risk(tags) + exposure_risk(seq![t])
        } else {
            100
        }),
{
    assert(seq![t].drop_last() =~= Seq::<TagEntry>::empty());
    assert(weight_sum(Seq::<TagEntry>::empty()) == 0);
    assert(weight_sum(seq![t]) == category_weight(t.category));
    assert(tags.push(t) =~= tags + seq![t]);
    law_risk_adds_up(tags, seq![t]);
}

} // verus!
