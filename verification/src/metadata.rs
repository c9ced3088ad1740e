//! Reading metadata: turning ExifTool's JSON answer and a JPEG's EXIF block
//! into tags, building reports, and the decisions taken while reading and
//! cleaning a file.

use vstd::prelude::*;

use crate::categories::{
    category_of_name, categorize_tag, compute_privacy_score, filter_tags_by_categories,
    privacy_score, tag_names, tag_names_for_categories, tags_in_categories,
    string_views,
};
use crate::paths::{extension, extension_of, file_type_of, natively_cleanable, opt_str_view};
use crate::text::{owned, str_equal};
use crate::types::{
    category_list, tag_view, tag_views, CleanOptions, CleanResult, MetadataCategory,
    MetadataReport, PrivyFileError, TagEntry,
};

verus! {

// ---------------------------------------------------------------------------
// ExifTool's JSON answer
// ---------------------------------------------------------------------------
/// A JSON document as ExifTool prints it. Numbers keep their printed form;
/// objects keep their entries and their compact printed form.
#[derive(Debug)]
pub enum JsonValue {
    Null,
    Bool(bool),
    Number(String),
    Text(String),
    Array(Vec<JsonValue>),
    Object(Vec<(String, JsonValue)>, String),
}

/// How a JSON value is shown as a tag value: text as is, numbers and
/// booleans as printed, arrays as their items joined by ", ", null as
/// nothing, objects as their compact JSON.
pub open spec fn json_text(v: JsonValue) -> Seq<char>
    decreases v, 0int,
{
    match v {
        JsonValue::Null => Seq::empty(),
        JsonValue::Bool(b) => if b {
            "true"@
        } else {
            "false"@
        },
        JsonValue::Number(n) => n@,
        JsonValue::Text(t) => t@,
        JsonValue::Array(items) => {
            proof {
                assert(decreases_to!(v => items));
            }
            list_text(items@)
        },
        JsonValue::Object(_, text) => text@,
    }
}

/// The texts of a list of values, joined by ", ".
pub open spec fn list_text(items: Seq<JsonValue>) -> Seq<char>
    decreases items, 1int,
{
    if items.len() == 0 {
        Seq::empty()
    } else if items.len() == 1 {
        json_text(items[0])
    } else {
        list_text(items.drop_last()) + ", "@ + json_text(items.last())
    }
}

/// The text of a JSON value as it is shown for a tag.
pub fn json_value_to_string(value: &JsonValue) -> (r: String)
    ensures
        r@ == json_text(*value),
    decreases value,
{
    match value {
        JsonValue::Null => String::new(),
        JsonValue::Bool(b) => if *b {
            owned("true")
        } else {
            owned("false")
        },
        JsonValue::Number(n) => n.clone(),
        JsonValue::Text(t) => t.clone(),
        JsonValue::Array(items) => {
            let mut out = String::new();
            let mut i: usize = 0;
            while i < items.len()
                invariant
                    *value == JsonValue::Array(*items),
                    i <= items@.len(),
                    out@ == list_text(items@.subrange(0, i as int)),
                decreases items@.len() - i,
            {
                proof {
                    assert(decreases_to!(*items => items[i as int]));
                    assert(decreases_to!(*value => value->Array_0));
                    assert(decreases_to!(*value => items[i as int]));
                }
                let text = json_value_to_string(&items[i]);
                if i > 0 {
                    out.append(", ");
                }
                out.append(text.as_str());
                proof {
                    let s = items@.subrange(0, i + 1);
                    assert(s.drop_last() =~= items@.subrange(0, i as int));
                    assert(s.last() == items@[i as int]);
                    if i == 0 {
                        assert(s.len() == 1);
                        assert(out@ =~= json_text(s[0]));
                    }
                }
                i = i + 1;
            }
            proof {
                assert(items@.subrange(0, items@.len() as int) =~= items@);
            }
            out
        },
        JsonValue::Object(_, text) => text.clone(),
    }
}

/// The tags of an object's entries: every entry but `SourceFile` whose
/// value shows as a non-empty text, categorised by name.
pub open spec fn entry_tags(entries: Seq<(String, JsonValue)>) -> Seq<
    (Seq<char>, Seq<char>, MetadataCategory),
>
    decreases entries.len(),
{
    if entries.len() == 0 {
        seq![]
    } else {
        let rest = entry_tags(entries.drop_last());
        let (name, value) = entries.last();
        if name@ == "SourceFile"@ || json_text(value).len() == 0 {
            rest
        } else {
            rest.push((name@, json_text(value), category_of_name(name@)))
        }
    }
}

/// The tags of ExifTool's answer: those of the object that is the first
/// item of the top-level array; anything else yields no tags.
pub open spec fn exiftool_tags(doc: JsonValue) -> Seq<(Seq<char>, Seq<char>, MetadataCategory)> {
    match doc {
        JsonValue::Array(items) => if items.len() > 0 {
            match items@[0] {
                JsonValue::Object(entries, _) => entry_tags(entries@),
                _ => seq![],
            }
        } else {
            seq![]
        },
        _ => seq![],
    }
}

/// The tags of a parsed ExifTool answer (`-json` output, first file only).
pub fn exiftool_document_tags(doc: &JsonValue) -> (r: Vec<TagEntry>)
    ensures
        tag_views(r@) == exiftool_tags(*doc),
{
    let mut tags: Vec<TagEntry> = Vec::new();
    let items = match doc {
        JsonValue::Array(items) => items,
        _ => {
            proof {
                assert(tag_views(tags@) =~= Seq::<(Seq<char>, Seq<char>, MetadataCategory)>::empty());
            }
            return tags;
        },
    };
    if items.len() == 0 {
        proof {
            assert(tag_views(tags@) =~= Seq::<(Seq<char>, Seq<char>, MetadataCategory)>::empty());
        }
        return tags;
    }
    let entries = match &items[0] {
        JsonValue::Object(entries, _) => entries,
        _ => {
            proof {
                assert(tag_views(tags@) =~= Seq::<(Seq<char>, Seq<char>, MetadataCategory)>::empty());
            }
            return tags;
        },
    };
    let mut i: usize = 0;
    while i < entries.len()
        invariant
            i <= entries@.len(),
            tag_views(tags@) == entry_tags(entries@.subrange(0, i as int)),
        decreases entries@.len() - i,
    {
        let name = &entries[i].0;
        let text = json_value_to_string(&entries[i].1);
        let ghost prev = tags@;
        proof {
            let s = entries@.subrange(0, i + 1);
            assert(s.drop_last() =~= entries@.subrange(0, i as int));
            assert(s.last() == entries@[i as int]);
        }
        if !str_equal(name.as_str(), "SourceFile") && !text.as_str().is_empty() {
            let category = categorize_tag(name.as_str());
            tags.push(TagEntry { name: name.clone(), value: text, category });
            proof {
                assert(tag_views(tags@) =~= tag_views(prev).push(tag_view(tags@.last())));
            }
        }
        i = i + 1;
    }
    proof {
        assert(entries@.subrange(0, entries@.len() as int) =~= entries@);
    }
    tags
}

/// What holds of every tag taken from ExifTool's answer: it is never the
/// `SourceFile` entry, its value is never empty, and its category is the
/// one its name calls for.
pub open spec fn meaningful_tag(t: (Seq<char>, Seq<char>, MetadataCategory)) -> bool {
    t.0 != "SourceFile"@ && t.1.len() > 0 && t.2 == category_of_name(t.0)
}

/// Every tag taken from ExifTool's answer is meaningful, and there are
/// never more tags than entries.
pub proof fn law_exiftool_tags_meaningful(entries: Seq<(String, JsonValue)>)
    ensures
        forall|i: int|
            0 <= i < entry_tags(entries).len() ==> meaningful_tag(#[trigger] entry_tags(entries)[i]),
        entry_tags(entries).len() <= entries.len(),
    decreases entries.len(),
{
    if entries.len() > 0 {
        law_exiftool_tags_meaningful(entries.drop_last());
        let rest = entry_tags(entries.drop_last());
        assert forall|i: int| 0 <= i < entry_tags(entries).len() implies meaningful_tag(
            #[trigger] entry_tags(entries)[i],
        ) by {
            if i < rest.len() {
                assert(entry_tags(entries)[i] == rest[i]);
            }
        }
    }
}

/// The error for an ExifTool answer that is not JSON.
pub fn invalid_json_error(detail: &str) -> (r: PrivyFileError)
    ensures
        r matches PrivyFileError::Metadata(m) && m@ == "Invalid ExifTool JSON: "@ + detail@,
{
    let mut m = owned("Invalid ExifTool JSON: ");
    m.append(detail);
    PrivyFileError::Metadata(m)
}

/// JSON values of `serde_json`, carried through the parser's wrapper.
#[verifier::external_type_specification]
#[verifier::external_body]
pub struct ExJsonValue(serde_json::Value);

/// What `serde_json` reads from a byte string: the document in the
/// library's model, or the text of the parser's error.
pub uninterp spec fn json_document(bytes: Seq<u8>) -> Result<JsonValue, Seq<char>>;

/// The conversion half of `parse_json`: a value parsed by `serde_json` in
/// the library's model, one variant for one variant, numbers in their
/// printed form, object entries in the map's order with the object's
/// compact text. It makes no decision of its own.
#[verifier::external_body]
fn json_model(value: &serde_json::Value) -> JsonValue {
    match value {
        serde_json::Value::Null => JsonValue::Null,
        serde_json::Value::Bool(b) => JsonValue::Bool(*b),
        serde_json::Value::Number(n) => JsonValue::Number(n.to_string()),
        serde_json::Value::String(s) => JsonValue::Text(s.clone()),
        serde_json::Value::Array(items) => JsonValue::Array(items.iter().map(json_model).collect()),
        serde_json::Value::Object(map) => JsonValue::Object(
            map.iter().map(|(k, v)| (k.clone(), json_model(v))).collect(),
            serde_json::to_string(map).unwrap_or_default(),
        ),
    }
}

/// Trusted wrapper around `serde_json::from_slice` into a
/// `serde_json::Value`. Claims only that the document it hands back, or the
/// text of the parser's error, is the named reading of those bytes; what
/// the parser accepts is not stated.
#[verifier::external_body]
fn parse_json(bytes: &[u8]) -> (r: Result<JsonValue, String>)
    ensures
        match r {
            Ok(doc) => json_document(bytes@) == Ok::<JsonValue, Seq<char>>(doc),
            Err(e) => json_document(bytes@) == Err::<JsonValue, Seq<char>>(e@),
        },
{
    match serde_json::from_slice::<serde_json::Value>(bytes) {
        Ok(value) => Ok(json_model(&value)),
        Err(error) => Err(error.to_string()),
    }
}

/// The tags in ExifTool's `-json` answer for a file; an answer that is not
/// JSON is a metadata error naming the parser's complaint.
pub fn parse_exiftool_json(bytes: &[u8]) -> (r: Result<Vec<TagEntry>, PrivyFileError>)
    ensures
        match json_document(bytes@) {
            Ok(doc) => r is Ok && tag_views(r->Ok_0@) == exiftool_tags(doc),
            Err(e) => r matches Err(PrivyFileError::Metadata(m)) && m@ == "Invalid ExifTool JSON: "@
                + e,
        },
{
    match parse_json(bytes) {
        Ok(doc) => Ok(exiftool_document_tags(&doc)),
        Err(e) => Err(invalid_json_error(e.as_str())),
    }
}

/// The ways running ExifTool can fail.
#[derive(Debug, Clone, Copy, PartialEq, Eq, Structural)]
pub enum ExifToolFailure {
    /// The program could not be started.
    Launch,
    /// Reading a file's tags ended with an error status.
    Read,
    /// No ExifTool program was found.
    Missing,
    /// The bundled program does not start.
    Broken,
    /// Cleaning a file ended with an error status.
    Clean,
}

/// The error text for a failure; `detail` is the system's error or the
/// program's error output, where the failure has one.
pub open spec fn failure_text(kind: ExifToolFailure, detail: Seq<char>) -> Seq<char> {
    match kind {
        ExifToolFailure::Launch => "Failed to run ExifTool: "@ + detail,
        ExifToolFailure::Read => "ExifTool failed: "@ + detail,
        ExifToolFailure::Missing => "ExifTool is not available. Reinstall PrivyFile or run npm run fetch-exiftool for development builds."@,
        ExifToolFailure::Broken => "Bundled ExifTool failed to start. Ensure exiftool_files/ is installed beside exiftool.exe."@,
        ExifToolFailure::Clean => "ExifTool clean failed: "@ + detail,
    }
}

/// The metadata error for a failure of ExifTool.
pub fn exiftool_error(kind: ExifToolFailure, detail: &str) -> (r: PrivyFileError)
    ensures
        r matches PrivyFileError::Metadata(m) && m@ == failure_text(kind, detail@),
{
    let m = match kind {
        ExifToolFailure::Launch => {
            let mut m = owned("Failed to run ExifTool: ");
            m.append(detail);
            m
        },
        ExifToolFailure::Read => {
            let mut m = owned("ExifTool failed: ");
            m.append(detail);
            m
        },
        ExifToolFailure::Missing => owned(
            "ExifTool is not available. Reinstall PrivyFile or run npm run fetch-exiftool for development builds.",
        ),
        ExifToolFailure::Broken => owned(
            "Bundled ExifTool failed to start. Ensure exiftool_files/ is installed beside exiftool.exe.",
        ),
        ExifToolFailure::Clean => {
            let mut m = owned("ExifTool clean failed: ");
            m.append(detail);
            m
        },
    };
    PrivyFileError::Metadata(m)
}

// ---------------------------------------------------------------------------
// EXIF blocks of JPEG files
// ---------------------------------------------------------------------------
/// What the EXIF reader finds in a file's bytes: each field's tag name and
/// displayed value (with unit), or the reader's error text.
pub uninterp spec fn exif_fields(bytes: Seq<u8>) -> Result<Seq<(Seq<char>, Seq<char>)>, Seq<char>>;

/// The plain values of a list of string pairs.
pub open spec fn pair_views(v: Seq<(String, String)>) -> Seq<(Seq<char>, Seq<char>)> {
    v.map_values(|p: (String, String)| (p.0@, p.1@))
}

/// Trusted wrapper around `exif::Reader::read_from_container` of the
/// `kamadak-exif` crate, reading from the file's bytes. Claims only that the
/// fields it hands back (the tag's debug name and the displayed value with
/// its unit, in the reader's order), or the error's text, are the named
/// reading of those bytes.
#[verifier::external_body]
fn read_exif_fields(bytes: &[u8]) -> (r: Result<Vec<(String, String)>, String>)
    ensures
        match r {
            Ok(v) => exif_fields(bytes@) == Ok::<Seq<(Seq<char>, Seq<char>)>, Seq<char>>(
                pair_views(v@),
            ),
            Err(e) => exif_fields(bytes@) == Err::<Seq<(Seq<char>, Seq<char>)>, Seq<char>>(e@),
        },
{
    let exif = exif::Reader::new().read_from_container(&mut std::io::Cursor::new(bytes)).map_err(
        |e| e.to_string(),
    )?;
    Ok(
        exif.fields().map(
            |f| (format!("{:?}", f.tag), f.display_value().with_unit(&exif).to_string()),
        ).collect(),
    )
}

/// EXIF fields as tags, categorised by name.
pub open spec fn field_tags(fields: Seq<(Seq<char>, Seq<char>)>) -> Seq<
    (Seq<char>, Seq<char>, MetadataCategory),
> {
    fields.map_values(
        |f: (Seq<char>, Seq<char>)| (f.0, f.1, category_of_name(f.0)),
    )
}

/// The tags of a list of EXIF fields.
pub fn tags_from_exif_fields(fields: &Vec<(String, String)>) -> (r: Vec<TagEntry>)
    ensures
        tag_views(r@) == field_tags(pair_views(fields@)),
{
    let mut tags: Vec<TagEntry> = Vec::new();
    let mut i: usize = 0;
    while i < fields.len()
        invariant
            i <= fields@.len(),
            tag_views(tags@) == field_tags(pair_views(fields@.subrange(0, i as int))),
        decreases fields@.len() - i,
    {
        let name = fields[i].0.clone();
        let value = fields[i].1.clone();
        let category = categorize_tag(name.as_str());
        let ghost prev = tags@;
        tags.push(TagEntry { name, value, category });
        proof {
            let f = fields@[i as int];
            assert(tag_views(tags@) =~= tag_views(prev).push((f.0@, f.1@, category_of_name(f.0@))));
            assert(pair_views(fields@.subrange(0, i + 1)) =~= pair_views(
                fields@.subrange(0, i as int),
            ).push((f.0@, f.1@)));
            assert(field_tags(pair_views(fields@.subrange(0, i + 1))) =~= field_tags(
                pair_views(fields@.subrange(0, i as int)),
            ).push((f.0@, f.1@, category_of_name(f.0@))));
        }
        i = i + 1;
    }
    proof {
        assert(fields@.subrange(0, fields@.len() as int) =~= fields@);
    }
    tags
}

/// The tags of a JPEG file's EXIF block, given the file's bytes; when the
/// reader fails, a metadata error with its text.
pub fn read_jpeg_metadata(bytes: &[u8]) -> (r: Result<Vec<TagEntry>, PrivyFileError>)
    ensures
        match exif_fields(bytes@) {
            Ok(fields) => r is Ok && tag_views(r->Ok_0@) == field_tags(fields),
            Err(e) => r matches Err(PrivyFileError::Metadata(m)) && m@ == e,
        },
{
    match read_exif_fields(bytes) {
        Ok(fields) => Ok(tags_from_exif_fields(&fields)),
        Err(e) => Err(PrivyFileError::Metadata(e)),
    }
}

// ---------------------------------------------------------------------------
// Images cleaned without ExifTool
// ---------------------------------------------------------------------------
/// What the `image` crate makes of an image's bytes when it decodes them and
/// encodes the picture again in the format of a file extension (`None`: no
/// extension): the new bytes, or the text of its error.
pub uninterp spec fn reencoded(bytes: Seq<u8>, extension: Option<Seq<char>>) -> Result<
    Seq<u8>,
    Seq<char>,
>;

/// Trusted wrapper around `image::load_from_memory`, then
/// `ImageFormat::from_extension` and `DynamicImage::write_to` into memory,
/// the steps `DynamicImage::save` takes with a file's extension. Claims only
/// that the bytes it hands back, or its error's text, are the named
/// re-encoding of those bytes; which images decode, and what the encoder
/// writes, are not stated.
#[verifier::external_body]
fn reencode_image(bytes: &[u8], extension: Option<&str>) -> (r: Result<Vec<u8>, String>)
    ensures
        match r {
            Ok(v) => reencoded(bytes@, opt_str_view(extension)) == Ok::<Seq<u8>, Seq<char>>(v@),
            Err(e) => reencoded(bytes@, opt_str_view(extension)) == Err::<Seq<u8>, Seq<char>>(e@),
        },
{
    let picture = image::load_from_memory(bytes).map_err(|e| e.to_string())?;
    let hint = match extension {
        Some(ext) => image::error::ImageFormatHint::PathExtension(ext.into()),
        None => image::error::ImageFormatHint::Unknown,
    };
    let format = extension.and_then(image::ImageFormat::from_extension).ok_or_else(
        || image::ImageError::Unsupported(hint.into()).to_string(),
    )?;
    let mut out = std::io::Cursor::new(Vec::new());
    picture.write_to(&mut out, format).map_err(|e| e.to_string())?;
    Ok(out.into_inner())
}

/// A metadata-free copy of an image: its bytes decoded and encoded again in
/// the format that the output path's extension names. A failure is a
/// metadata error with the image library's text.
pub fn clean_native_image_bytes(bytes: &[u8], output_path: &str) -> (r: Result<
    Vec<u8>,
    PrivyFileError,
>)
    ensures
        match reencoded(bytes@, extension_of(output_path@)) {
            Ok(out) => r matches Ok(v) && v@ == out,
            Err(e) => r matches Err(PrivyFileError::Metadata(m)) && m@ == e,
        },
{
    let ext = extension(output_path);
    let ext_ref: Option<&str> = match &ext {
        Some(e) => Some(e.as_str()),
        None => None,
    };
    match reencode_image(bytes, ext_ref) {
        Ok(v) => Ok(v),
        Err(e) => Err(PrivyFileError::Metadata(e)),
    }
}

// ---------------------------------------------------------------------------
// Reports
// ---------------------------------------------------------------------------
/// A report on a file: its path and type, its tags, and their privacy score.
pub fn metadata_report_from_tags(path: &str, file_type: &str, tags: Vec<TagEntry>) -> (r:
    MetadataReport)
    ensures
        r.file_path@ == path@,
        r.file_type@ == file_type@,
        r.tags@ == tags@,
        r.privacy_score == privacy_score(tags@),
{
    let privacy_score = compute_privacy_score(tags.as_slice());
    MetadataReport {
        file_path: owned(path),
        file_type: owned(file_type),
        tags,
        privacy_score,
    }
}

// ---------------------------------------------------------------------------
// Decisions of reading and cleaning
// ---------------------------------------------------------------------------
/// Check that a file can be examined: it must exist and be of a supported
/// type; the result is its type.
pub fn check_file_target(path: &str, exists: bool) -> (r: Result<&'static str, PrivyFileError>)
    ensures
        !exists ==> (r matches Err(PrivyFileError::NotFound(p)) && p@ == path@),
        exists && file_type_of(path@) is None ==> (r matches Err(PrivyFileError::Unsupported(p))
            && p@ == path@),
        exists && file_type_of(path@) is Some ==> (r matches Ok(t) && t@ == file_type_of(
            path@,
        )->0),
{
    if !exists {
        return Err(PrivyFileError::NotFound(owned(path)));
    }
    match crate::paths::detect_file_type(path) {
        Some(t) => Ok(t),
        None => Err(PrivyFileError::Unsupported(owned(path))),
    }
}

/// Where the tags of a file are read from.
#[derive(Debug, Clone, Copy, PartialEq, Eq, Structural)]
pub enum MetadataSource {
    ExifTool,
    NativeJpeg,
    Nothing,
}

/// ExifTool when it is available; otherwise the built-in EXIF reader for
/// JPEG files; otherwise nothing is read.
pub fn metadata_source(exiftool_available: bool, file_type: &str) -> (r: MetadataSource)
    ensures
        exiftool_available ==> r == MetadataSource::ExifTool,
        !exiftool_available && file_type@ == "jpeg"@ ==> r == MetadataSource::NativeJpeg,
        !exiftool_available && file_type@ != "jpeg"@ ==> r == MetadataSource::Nothing,
{
    if exiftool_available {
        MetadataSource::ExifTool
    } else if str_equal(file_type, "jpeg") {
        MetadataSource::NativeJpeg
    } else {
        MetadataSource::Nothing
    }
}

/// The arguments ExifTool is started with to report a file's tags.
pub fn exiftool_read_args(path: &str) -> (r: Vec<String>)
    ensures
        string_views(r@) == seq!["-json"@, "-a"@, "-G1"@, path@],
{
    let mut args: Vec<String> = Vec::new();
    args.push(owned("-json"));
    args.push(owned("-a"));
    args.push(owned("-G1"));
    args.push(owned(path));
    proof {
        assert(string_views(args@) =~= seq!["-json"@, "-a"@, "-G1"@, path@]);
    }
    args
}

/// How a file gets cleaned.
#[derive(Debug, Clone, Copy, PartialEq, Eq, Structural)]
pub enum CleanMethod {
    ExifTool,
    NativeImage,
}

/// ExifTool when it is available; otherwise re-encoding for the image types
/// that allows; otherwise an error.
pub fn choose_clean_method(exiftool_available: bool, file_type: &str) -> (r: Result<
    CleanMethod,
    PrivyFileError,
>)
    ensures
        exiftool_available ==> r == Ok::<CleanMethod, PrivyFileError>(CleanMethod::ExifTool),
        !exiftool_available && natively_cleanable(file_type@) ==> r == Ok::<
            CleanMethod,
            PrivyFileError,
        >(CleanMethod::NativeImage),
        !exiftool_available && !natively_cleanable(file_type@) ==> (r matches Err(
            PrivyFileError::Metadata(m),
        ) && m@
            == "ExifTool is required to clean this file type. Reinstall PrivyFile to restore the bundled copy."@),
{
    if exiftool_available {
        Ok(CleanMethod::ExifTool)
    } else if crate::paths::is_rust_native_image(file_type) {
        Ok(CleanMethod::NativeImage)
    } else {
        Err(
            PrivyFileError::Metadata(
                owned(
                    "ExifTool is required to clean this file type. Reinstall PrivyFile to restore the bundled copy.",
                ),
            ),
        )
    }
}

/// The tags a clean removes: all of them when no categories are chosen,
/// otherwise those of the chosen categories.
pub open spec fn removed_tag_list(tags: Seq<TagEntry>, categories: Option<Seq<MetadataCategory>>) -> Seq<
    TagEntry,
> {
    match categories {
        None => tags,
        Some(c) => tags_in_categories(tags, c),
    }
}

/// The tags a clean with these categories removes.
pub fn removed_tags(tags: &[TagEntry], categories: &Option<Vec<MetadataCategory>>) -> (r: Vec<
    TagEntry,
>)
    ensures
        r@ == removed_tag_list(tags@, category_list(*categories)),
{
    match categories {
        None => {
            let mut out: Vec<TagEntry> = Vec::new();
            let mut i: usize = 0;
            while i < tags.len()
                invariant
                    i <= tags@.len(),
                    out@ == tags@.subrange(0, i as int),
                decreases tags@.len() - i,
            {
                out.push(tags[i].duplicate());
                i = i + 1;
                proof {
                    assert(out@ =~= tags@.subrange(0, i as int));
                }
            }
            proof {
                assert(out@ =~= tags@);
            }
            out
        },
        Some(c) => filter_tags_by_categories(tags, c.as_slice()),
    }
}

/// The ExifTool tag patterns a clean with these categories deletes: none
/// (everything goes) when no categories are chosen.
pub fn exiftool_clean_patterns(categories: &Option<Vec<MetadataCategory>>) -> (r: Vec<String>)
    ensures
        string_views(r@) == match category_list(*categories) {
            None => Seq::<Seq<char>>::empty(),
            Some(c) => tag_names(c),
        },
{
    match categories {
        None => {
            let v: Vec<String> = Vec::new();
            proof {
                assert(string_views(v@) =~= Seq::<Seq<char>>::empty());
            }
            v
        },
        Some(c) => tag_names_for_categories(c.as_slice()),
    }
}

/// The arguments for one pattern deletion: `-PATTERN=`.
pub open spec fn deletion_args(patterns: Seq<Seq<char>>) -> Seq<Seq<char>> {
    patterns.map_values(|p: Seq<char>| "-"@ + p + "="@)
}

/// The arguments ExifTool is started with to clean the copy at
/// `output_path` in place: delete everything, or each pattern.
pub open spec fn clean_args(remove_all: bool, patterns: Seq<Seq<char>>, output_path: Seq<char>) -> Seq<
    Seq<char>,
> {
    seq!["-overwrite_original"@] + (if remove_all {
        seq!["-all="@]
    } else {
        deletion_args(patterns)
    }) + seq![output_path]
}

/// The ExifTool arguments that clean the copy at `output_path`.
pub fn exiftool_clean_args(remove_all: bool, tag_patterns: &[String], output_path: &str) -> (r: Vec<
    String,
>)
    ensures
        string_views(r@) == clean_args(remove_all, string_views(tag_patterns@), output_path@),
{
    let mut args: Vec<String> = Vec::new();
    args.push(owned("-overwrite_original"));
    let ghost head = string_views(args@);
    if remove_all {
        args.push(owned("-all="));
        proof {
            assert(string_views(args@) =~= head + seq!["-all="@]);
        }
    } else {
        let mut i: usize = 0;
        while i < tag_patterns.len()
            invariant
                i <= tag_patterns@.len(),
                string_views(args@) == head + deletion_args(
                    string_views(tag_patterns@.subrange(0, i as int)),
                ),
            decreases tag_patterns@.len() - i,
        {
            let mut a = owned("-");
            a.append(tag_patterns[i].as_str());
            a.append("=");
            let ghost prev = string_views(args@);
            args.push(a);
            proof {
                assert(string_views(args@) =~= prev.push(a@));
                assert(deletion_args(string_views(tag_patterns@.subrange(0, i + 1))) =~= deletion_args(
                    string_views(tag_patterns@.subrange(0, i as int)),
                ).push("-"@ + tag_patterns@[i as int]@ + "="@));
            }
            i = i + 1;
        }
        proof {
            assert(tag_patterns@.subrange(0, tag_patterns@.len() as int) =~= tag_patterns@);
        }
    }
    let ghost mid = string_views(args@);
    args.push(owned(output_path));
    proof {
        assert(string_views(args@) =~= mid.push(output_path@));
        assert(string_views(args@) =~= clean_args(
            remove_all,
            string_views(tag_patterns@),
            output_path@,
        ));
    }
    args
}

/// Should the original be shredded after cleaning? Only when it is not to
/// be preserved and shredding was asked for.
pub open spec fn shreds_original(options: CleanOptions) -> bool {
    !options.preserve_original && options.shred_original
}

/// Is the original to be shredded once it has been cleaned?
pub fn should_shred_original(options: &CleanOptions) -> (r: bool)
    ensures
        r == shreds_original(*options),
{
    !options.preserve_original && options.shred_original
}

/// The record of a finished clean.
pub fn clean_result(
    source_path: &str,
    output_path: &str,
    removed_tags: Vec<TagEntry>,
    score_before: u8,
    score_after: u8,
    bytes_before: u64,
    bytes_after: u64,
    options: &CleanOptions,
) -> (r: CleanResult)
    ensures
        r.source_path@ == source_path@,
        r.output_path matches Some(p) && p@ == output_path@,
        r.removed_tags@ == removed_tags@,
        r.privacy_score_before == score_before,
        r.privacy_score_after == score_after,
        r.bytes_before == bytes_before,
        r.bytes_after == Some(bytes_after),
        r.original_shredded == shreds_original(*options),
{
    CleanResult {
        source_path: owned(source_path),
        output_path: Some(owned(output_path)),
        removed_tags,
        privacy_score_before: score_before,
        privacy_score_after: score_after,
        bytes_before,
        bytes_after: Some(bytes_after),
        original_shredded: should_shred_original(options),
    }
}

/// `x` read as a signed 64-bit integer (two's complement).
pub open spec fn as_signed(x: u64) -> int {
    if x <= i64::MAX {
        x as int
    } else {
        x - 0x1_0000_0000_0000_0000
    }
}

/// Change in size between two byte counts, each read as a signed 64-bit
/// integer; defined when the difference fits in one.
pub fn compare_metadata_size(before: u64, after: u64) -> (r: i64)
    requires
        i64::MIN <= as_signed(after) - as_signed(before) <= i64::MAX,
    ensures
        r == as_signed(after) - as_signed(before),
{
    let a = after as i64;
    let b = before as i64;
    assert(a == as_signed(after)) by (bit_vector)
        requires
            a == after as i64,
    ;
    assert(b == as_signed(before)) by (bit_vector)
        requires
            b == before as i64,
    ;
    a - b
}

/// The state of the ExifTool installation, as shown to the user.
#[derive(Debug, Clone)]
pub struct ExifToolStatus {
    pub available: bool,
    pub version: Option<String>,
    pub path: Option<String>,
    pub bundle_dir: Option<String>,
}

} // verus!
