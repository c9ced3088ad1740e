use privyfile_core::batch::{plan_batch_item, BatchOutcome, BatchRun, BatchStep};
use privyfile_core::locations::{configure_action, exiftool_usable, first_file, ConfigureAction};
use privyfile_core::categories::{
    categorize_tag, compute_exposure_risk, compute_privacy_score, filter_tags_by_categories,
    matches_pattern, tag_names_for_categories,
};
use privyfile_core::history::{append_bounded, history_entry_from_clean, HISTORY_LIMIT};
use privyfile_core::locations::{
    binary_layout_ok, bundle_is_valid, choose_output_dir, cleaned_file_name,
    cleaned_output_candidate, data_dir_from, exiftool_binary_name, exiftool_candidates,
    exiftool_platform_dir, history_file_path, settings_file_path, HostOs, OutputNameSearch,
};
use privyfile_core::metadata::{
    check_file_target, choose_clean_method, clean_result, compare_metadata_size,
    exiftool_clean_args, exiftool_clean_patterns, exiftool_error, exiftool_read_args,
    clean_native_image_bytes, exiftool_document_tags, invalid_json_error, json_value_to_string,
    metadata_report_from_tags, metadata_source, parse_exiftool_json, read_jpeg_metadata,
    removed_tags, should_shred_original, tags_from_exif_fields,
    CleanMethod, ExifToolFailure, JsonValue, MetadataSource,
};
use privyfile_core::paths::{
    detect_file_type, extension, file_name, file_stem, is_rust_native_image, join_path,
    supported_extension,
};
use privyfile_core::profiles::{
    apply_profile, categories_for_profile, list_profiles, profile_description, profile_label,
};
use privyfile_core::reports::{html_escape, render_html_report, render_html_report_at};
use privyfile_core::shred::{
    check_shred_folder, check_shred_target, effective_passes, is_likely_ssd, next_chunk_len,
    pass_pattern, pattern_for_pass, shred_result, shred_warning, shred_warning_message,
};
use privyfile_core::text::{ascii_lowercase, decimal_string, str_contains, str_equal, to_lowercase};
use privyfile_core::types::{
    AppSettings, BatchAction, BatchItem, BatchItemResult, CleanOptions, CleanProfileId,
    HistoryEntry, MetadataCategory, PrivyFileError, ShredMethod, ShredOptions, TagEntry,
};

fn tag(name: &str, category: MetadataCategory) -> TagEntry {
    TagEntry { name: name.to_string(), value: "v".to_string(), category }
}

fn names(tags: &[TagEntry]) -> Vec<String> {
    tags.iter().map(|t| t.name.clone()).collect()
}

// ----- text -----------------------------------------------------------------

#[test]
fn decimal_rendering() {
    assert_eq!(decimal_string(0), "0");
    assert_eq!(decimal_string(7), "7");
    assert_eq!(decimal_string(1234), "1234");
    assert_eq!(decimal_string(u64::MAX), "18446744073709551615");
}

#[test]
fn ascii_case_folding_keeps_other_characters() {
    assert_eq!(ascii_lowercase("AbC-Ä9z"), "abc-Ä9z");
    assert_eq!(to_lowercase("GPS Ä"), "gps ä");
}

#[test]
fn substring_and_equality() {
    assert!(str_contains("gpslatitude", "latitude"));
    assert!(str_contains("abc", ""));
    assert!(!str_contains("ab", "abc"));
    assert!(str_equal("jpeg", "jpeg"));
    assert!(!str_equal("jpeg", "jpg"));
}

// ----- types ----------------------------------------------------------------

#[test]
fn error_messages_have_kind_prefixes() {
    assert_eq!(PrivyFileError::Io("disk".into()).message(), "IO error: disk");
    assert_eq!(PrivyFileError::Metadata("x".into()).message(), "Metadata error: x");
    assert_eq!(PrivyFileError::Shred("y".into()).message(), "Shred error: y");
    assert_eq!(PrivyFileError::NotFound("a.jpg".into()).message(), "File not found: a.jpg");
    assert_eq!(
        PrivyFileError::Unsupported("a.txt".into()).message(),
        "Unsupported file type: a.txt"
    );
}

#[test]
fn category_labels() {
    assert_eq!(MetadataCategory::Gps.label(), "GPS / Location");
    assert_eq!(MetadataCategory::Device.label(), "Device Info");
    assert_eq!(MetadataCategory::Author.label(), "Author / Creator");
    assert_eq!(MetadataCategory::Timestamps.label(), "Timestamps");
    assert_eq!(MetadataCategory::Other.label(), "Other");
}

#[test]
fn defaults() {
    let c = CleanOptions::default();
    assert!(c.categories.is_none() && c.output_dir.is_none() && c.profile.is_none());
    assert!(c.preserve_original && !c.shred_original);
    let s = ShredOptions::default();
    assert_eq!(s.method, ShredMethod::Random1Pass);
    assert_eq!(s.passes, 1);
    let a = AppSettings::default();
    assert!(a.preserve_original && a.enable_history && !a.watch_folder_enabled);
    assert_eq!(a.default_profile, CleanProfileId::RemoveAll);
    assert_eq!(a.default_shred_passes, 1);
}

// ----- categories -------------------------------------------------------------

#[test]
fn categories_by_name() {
    assert_eq!(categorize_tag("DateTimeOriginal"), MetadataCategory::Timestamps);
    assert_eq!(categorize_tag("Make"), MetadataCategory::Device);
    assert_eq!(categorize_tag("Artist"), MetadataCategory::Author);
    assert_eq!(categorize_tag("FileSize"), MetadataCategory::Other);
    assert_eq!(categorize_tag("XMP:Keywords"), MetadataCategory::Author);
}

#[test]
fn categories_follow_priority_order() {
    // GPS before timestamps, device before author.
    assert_eq!(categorize_tag("GPSDateTime"), MetadataCategory::Gps);
    assert_eq!(categorize_tag("CameraOwnerName"), MetadataCategory::Device);
}

#[test]
fn categories_ignore_case() {
    assert_eq!(categorize_tag("gpslatitude"), MetadataCategory::Gps);
    assert_eq!(categorize_tag("GPSLATITUDE"), MetadataCategory::Gps);
    assert_eq!(categorize_tag("Composite:GPSPosition"), MetadataCategory::Gps);
}

#[test]
fn pattern_matching() {
    assert!(matches_pattern("lensmodel", &["zoom", "lens"]));
    assert!(!matches_pattern("lensmodel", &[]));
    assert!(!matches_pattern("iso", &["lens"]));
}

#[test]
fn risk_weights_and_cap() {
    assert_eq!(compute_exposure_risk(&[tag("a", MetadataCategory::Other)]), 5);
    assert_eq!(compute_exposure_risk(&[tag("a", MetadataCategory::Timestamps)]), 10);
    assert_eq!(compute_exposure_risk(&[tag("a", MetadataCategory::Device)]), 15);
    let gps: Vec<TagEntry> = (0..4).map(|_| tag("g", MetadataCategory::Gps)).collect();
    assert_eq!(compute_exposure_risk(&gps), 100);
    assert_eq!(compute_privacy_score(&gps), 0);
}

#[test]
fn extra_tag_never_improves_score() {
    let mut tags = vec![tag("a", MetadataCategory::Author)];
    let before = compute_privacy_score(&tags);
    tags.push(tag("b", MetadataCategory::Other));
    assert!(compute_privacy_score(&tags) <= before);
    assert_eq!(compute_privacy_score(&tags) + compute_exposure_risk(&tags), 100);
}

#[test]
fn risk_ignores_order() {
    let a = vec![tag("a", MetadataCategory::Gps), tag("b", MetadataCategory::Other)];
    let b = vec![tag("b", MetadataCategory::Other), tag("a", MetadataCategory::Gps)];
    assert_eq!(compute_exposure_risk(&a), compute_exposure_risk(&b));
    assert_eq!(compute_exposure_risk(&a), 35);
}

#[test]
fn filter_keeps_chosen_in_order_and_is_idempotent() {
    let tags = vec![
        tag("a", MetadataCategory::Gps),
        tag("b", MetadataCategory::Other),
        tag("c", MetadataCategory::Gps),
        tag("d", MetadataCategory::Author),
    ];
    let once = filter_tags_by_categories(&tags, &[MetadataCategory::Gps, MetadataCategory::Author]);
    assert_eq!(names(&once), vec!["a", "c", "d"]);
    let twice =
        filter_tags_by_categories(&once, &[MetadataCategory::Gps, MetadataCategory::Author]);
    assert_eq!(names(&twice), names(&once));
    let all = filter_tags_by_categories(
        &tags,
        &[
            MetadataCategory::Gps,
            MetadataCategory::Device,
            MetadataCategory::Author,
            MetadataCategory::Timestamps,
            MetadataCategory::Other,
        ],
    );
    assert_eq!(names(&all), names(&tags));
    assert!(filter_tags_by_categories(&tags, &[]).is_empty());
}

#[test]
fn tag_names_concatenate() {
    assert_eq!(tag_names_for_categories(&[MetadataCategory::Other]), vec!["-all:all"]);
    let gps = tag_names_for_categories(&[MetadataCategory::Gps]);
    assert_eq!(gps, vec!["GPS*", "Composite:*GPS*", "XMP:GPS*", "Location*", "Geo*"]);
    let both = tag_names_for_categories(&[MetadataCategory::Gps, MetadataCategory::Other]);
    let mut expected = gps.clone();
    expected.push("-all:all".to_string());
    assert_eq!(both, expected);
    assert_eq!(tag_names_for_categories(&[MetadataCategory::Device]).len(), 9);
    assert_eq!(tag_names_for_categories(&[MetadataCategory::Author]).len(), 16);
    assert_eq!(tag_names_for_categories(&[MetadataCategory::Timestamps]).len(), 8);
}

// ----- profiles ---------------------------------------------------------------

#[test]
fn profile_resolves_categories() {
    let mut options = CleanOptions::default();
    options.profile = Some(CleanProfileId::PhotoBackup);
    options.categories = Some(vec![MetadataCategory::Author]);
    let applied = apply_profile(options);
    assert_eq!(applied.categories, Some(vec![MetadataCategory::Gps]));
    let again = apply_profile(applied.clone());
    assert_eq!(again.categories, applied.categories);
    let mut plain = CleanOptions::default();
    plain.categories = Some(vec![MetadataCategory::Device]);
    assert_eq!(apply_profile(plain).categories, Some(vec![MetadataCategory::Device]));
}

#[test]
fn profile_tables() {
    assert_eq!(categories_for_profile(CleanProfileId::RemoveAll).len(), 5);
    assert_eq!(
        categories_for_profile(CleanProfileId::LegalDocument),
        vec![MetadataCategory::Author, MetadataCategory::Other]
    );
    assert_eq!(profile_label(CleanProfileId::SocialMediaShare), "Social Media Share");
    assert_eq!(
        profile_description(CleanProfileId::RemoveAll),
        "Strip all metadata categories from the file."
    );
    let list = list_profiles();
    assert_eq!(list.len(), 4);
    assert_eq!(list[2].id, CleanProfileId::PhotoBackup);
    assert_eq!(list[2].label, "Photo Backup");
    assert_eq!(list[3].label, "Remove All Metadata");
}

// ----- paths ------------------------------------------------------------------

#[test]
fn file_names_stems_and_extensions() {
    assert_eq!(file_name("dir/photo.tar.gz").as_deref(), Some("photo.tar.gz"));
    assert_eq!(extension("dir/photo.tar.gz").as_deref(), Some("gz"));
    assert_eq!(file_stem("dir/photo.tar.gz").as_deref(), Some("photo.tar"));
    assert_eq!(extension(".bashrc"), None);
    assert_eq!(file_stem(".bashrc").as_deref(), Some(".bashrc"));
    assert_eq!(file_name("a/b/").as_deref(), Some("b"));
    assert_eq!(file_name("a/./").as_deref(), Some("a"));
    assert_eq!(file_name("a/.."), None);
    assert_eq!(file_name("/"), None);
    assert_eq!(extension("file.").as_deref(), Some(""));
    assert_eq!(file_stem("file.").as_deref(), Some("file"));
}

#[test]
fn joining_paths() {
    assert_eq!(join_path("a", "b"), "a/b");
    assert_eq!(join_path("a/", "b"), "a/b");
    assert_eq!(join_path("", "b"), "b");
    assert_eq!(join_path("a", "/b"), "/b");
}

#[test]
fn file_types() {
    assert_eq!(detect_file_type("clip.MKV"), Some("video"));
    assert_eq!(detect_file_type("scan.TIF"), Some("tiff"));
    assert_eq!(detect_file_type("a/b/report.pdf"), Some("pdf"));
    assert_eq!(detect_file_type("notes.txt"), None);
    assert_eq!(detect_file_type("noext"), None);
    assert!(is_rust_native_image("png"));
    assert!(!is_rust_native_image("heic"));
    assert!(supported_extension("x.webp"));
    assert!(!supported_extension("x.exe"));
}

// ----- locations --------------------------------------------------------------

#[test]
fn cleaned_copy_names() {
    assert_eq!(cleaned_file_name("photo", "jpg", 0), "photo-cleaned.jpg");
    assert_eq!(cleaned_file_name("photo", "jpg", 3), "photo-cleaned-3.jpg");
    assert_eq!(cleaned_output_candidate("out", "/x/photo.JPG", 0), "out/photo-cleaned.JPG");
    assert_eq!(cleaned_output_candidate("out", "README", 12), "out/README-cleaned-12.bin");
    assert_ne!(cleaned_file_name("a", "b", 1), cleaned_file_name("a", "b", 10));
}

#[test]
fn output_directory_choice() {
    assert_eq!(choose_output_dir(Some("o".into()), Some("p".into())).unwrap(), "o");
    assert_eq!(choose_output_dir(None, Some("p".into())).unwrap(), "p");
    match choose_output_dir(None, None) {
        Err(PrivyFileError::Metadata(m)) => assert_eq!(m, "Unable to resolve output directory"),
        _ => panic!("expected an error"),
    }
}

#[test]
fn data_directory() {
    assert_eq!(data_dir_from(Some("/c".into()), Some("/a".into()), None, "/t".into()), "/c");
    assert_eq!(data_dir_from(None, Some("/a".into()), Some("/x".into()), "/t".into()), "/a/PrivyFile");
    assert_eq!(data_dir_from(None, None, Some("/x".into()), "/t".into()), "/x/PrivyFile");
    assert_eq!(data_dir_from(None, None, None, "/t/".into()), "/t/PrivyFile");
    assert_eq!(history_file_path("/d"), "/d/history.json");
    assert_eq!(settings_file_path("/d"), "/d/settings.json");
}

#[test]
fn exiftool_search_order() {
    assert_eq!(exiftool_platform_dir(HostOs::MacOs), "macos");
    assert_eq!(exiftool_platform_dir(HostOs::Linux), "linux");
    assert_eq!(exiftool_binary_name(HostOs::Windows), "exiftool.exe");
    assert_eq!(exiftool_binary_name(HostOs::Linux), "exiftool");
    let c = exiftool_candidates(Some("/b"), Some("/env/exiftool"), Some("/ed"), Some("/app"), HostOs::Linux);
    assert_eq!(
        c,
        vec![
            "/b/exiftool",
            "/env/exiftool",
            "/ed/exiftool",
            "/app/binaries/linux/exiftool",
            "/app/resources/binaries/linux/exiftool",
            "/app/binaries/exiftool",
            "/app/../../src-tauri/binaries/linux/exiftool",
            "/app/../src-tauri/binaries/linux/exiftool",
            "src-tauri/binaries/linux/exiftool",
        ]
    );
    let only_dev = exiftool_candidates(None, None, None, None, HostOs::Windows);
    assert_eq!(only_dev, vec!["src-tauri/binaries/win/exiftool.exe"]);
}

#[test]
fn bundle_checks() {
    assert!(!bundle_is_valid(HostOs::Linux, true, false, false));
    assert!(bundle_is_valid(HostOs::Linux, true, false, true));
    assert!(!bundle_is_valid(HostOs::Windows, true, false, true));
    assert!(bundle_is_valid(HostOs::Windows, true, true, false));
    assert!(!bundle_is_valid(HostOs::Windows, false, true, true));
    assert!(binary_layout_ok(HostOs::MacOs, true, true, true, false));
    assert!(!binary_layout_ok(HostOs::MacOs, true, false, true, true));
}

// ----- metadata ---------------------------------------------------------------

fn exiftool_doc() -> JsonValue {
    JsonValue::Array(vec![JsonValue::Object(
        vec![
            ("SourceFile".into(), JsonValue::Text("a.jpg".into())),
            ("IFD0:Make".into(), JsonValue::Text("Canon".into())),
            ("ExifIFD:ISO".into(), JsonValue::Number("100".into())),
            ("Flash".into(), JsonValue::Bool(false)),
            (
                "XMP:Keywords".into(),
                JsonValue::Array(vec![JsonValue::Text("a".into()), JsonValue::Number("2".into())]),
            ),
            ("Empty".into(), JsonValue::Text("".into())),
            ("Nothing".into(), JsonValue::Null),
            ("Nested".into(), JsonValue::Object(vec![], "{\"a\":1}".into())),
        ],
        "{}".into(),
    )])
}

#[test]
fn exiftool_json_to_tags() {
    let tags = exiftool_document_tags(&exiftool_doc());
    let got: Vec<(String, String, MetadataCategory)> =
        tags.iter().map(|t| (t.name.clone(), t.value.clone(), t.category)).collect();
    assert_eq!(
        got,
        vec![
            ("IFD0:Make".to_string(), "Canon".to_string(), MetadataCategory::Device),
            ("ExifIFD:ISO".to_string(), "100".to_string(), MetadataCategory::Other),
            ("Flash".to_string(), "false".to_string(), MetadataCategory::Other),
            ("XMP:Keywords".to_string(), "a, 2".to_string(), MetadataCategory::Author),
            ("Nested".to_string(), "{\"a\":1}".to_string(), MetadataCategory::Other),
        ]
    );
}

#[test]
fn exiftool_json_without_object_gives_nothing() {
    assert!(exiftool_document_tags(&JsonValue::Null).is_empty());
    assert!(exiftool_document_tags(&JsonValue::Array(vec![])).is_empty());
    assert!(exiftool_document_tags(&JsonValue::Array(vec![JsonValue::Bool(true)])).is_empty());
}

#[test]
fn exiftool_output_bytes_to_tags() {
    let output = br#"[{"SourceFile":"a.jpg","IFD0:Make":"Canon","ExifIFD:ISO":100,"Flash":false,"XMP:Keywords":["a",2],"Empty":"","Nothing":null,"Nested":{"a":1}}]"#;
    let tags = parse_exiftool_json(output).unwrap();
    let mut got: Vec<(String, String, MetadataCategory)> =
        tags.iter().map(|t| (t.name.clone(), t.value.clone(), t.category)).collect();
    got.sort_by(|a, b| a.0.cmp(&b.0));
    assert_eq!(
        got,
        vec![
            ("ExifIFD:ISO".to_string(), "100".to_string(), MetadataCategory::Other),
            ("Flash".to_string(), "false".to_string(), MetadataCategory::Other),
            ("IFD0:Make".to_string(), "Canon".to_string(), MetadataCategory::Device),
            ("Nested".to_string(), "{\"a\":1}".to_string(), MetadataCategory::Other),
            ("XMP:Keywords".to_string(), "a, 2".to_string(), MetadataCategory::Author),
        ]
    );
}

#[test]
fn exiftool_output_of_other_shapes_gives_nothing() {
    assert!(parse_exiftool_json(b"{}").unwrap().is_empty());
    assert!(parse_exiftool_json(b"[]").unwrap().is_empty());
    assert!(parse_exiftool_json(b"[1, 2]").unwrap().is_empty());
}

#[test]
fn exiftool_output_that_is_not_json() {
    match parse_exiftool_json(b"not json") {
        Err(PrivyFileError::Metadata(m)) => {
            assert!(m.starts_with("Invalid ExifTool JSON: "));
            assert!(m.len() > "Invalid ExifTool JSON: ".len());
        }
        other => panic!("unexpected {other:?}"),
    }
}

fn tiny_png() -> Vec<u8> {
    let picture = image::RgbImage::from_pixel(2, 3, image::Rgb([200, 10, 30]));
    let mut out = std::io::Cursor::new(Vec::new());
    image::DynamicImage::ImageRgb8(picture)
        .write_to(&mut out, image::ImageFormat::Png)
        .unwrap();
    out.into_inner()
}

#[test]
fn native_image_is_encoded_again() {
    let png = tiny_png();
    let same_format = clean_native_image_bytes(&png, "/out/photo_cleaned.png").unwrap();
    let decoded = image::load_from_memory(&same_format).unwrap();
    assert_eq!((decoded.width(), decoded.height()), (2, 3));
    let as_jpeg = clean_native_image_bytes(&png, "/out/photo_cleaned.JPG").unwrap();
    assert_ne!(as_jpeg, png);
    assert_eq!(&as_jpeg[..2], &[0xFF, 0xD8]);
}

#[test]
fn native_image_errors() {
    match clean_native_image_bytes(b"not an image", "/out/a_cleaned.png") {
        Err(PrivyFileError::Metadata(m)) => assert!(!m.is_empty()),
        other => panic!("unexpected {other:?}"),
    }
    match clean_native_image_bytes(&tiny_png(), "/out/a_cleaned.xyz") {
        Err(PrivyFileError::Metadata(m)) => {
            assert_eq!(m, "The file extension `.\"xyz\"` was not recognized as an image format")
        }
        other => panic!("unexpected {other:?}"),
    }
    match clean_native_image_bytes(&tiny_png(), "/out/a_cleaned") {
        Err(PrivyFileError::Metadata(m)) => assert_eq!(m, "The image format could not be determined"),
        other => panic!("unexpected {other:?}"),
    }
}

#[test]
fn original_is_shredded_only_when_not_preserved() {
    let mut options = CleanOptions::default();
    options.preserve_original = false;
    options.shred_original = true;
    assert!(should_shred_original(&options));
    options.preserve_original = true;
    assert!(!should_shred_original(&options));
    options.preserve_original = false;
    options.shred_original = false;
    assert!(!should_shred_original(&options));
}

#[test]
fn json_value_texts() {
    assert_eq!(json_value_to_string(&JsonValue::Bool(true)), "true");
    assert_eq!(json_value_to_string(&JsonValue::Null), "");
    assert_eq!(
        json_value_to_string(&JsonValue::Array(vec![
            JsonValue::Array(vec![JsonValue::Text("x".into()), JsonValue::Text("y".into())]),
            JsonValue::Null,
        ])),
        "x, y, "
    );
    match invalid_json_error("eof") {
        PrivyFileError::Metadata(m) => assert_eq!(m, "Invalid ExifTool JSON: eof"),
        _ => panic!("wrong variant"),
    }
}

fn jpeg_with_make() -> Vec<u8> {
    let mut tiff = vec![0x4d, 0x4d, 0x00, 0x2a, 0x00, 0x00, 0x00, 0x08];
    tiff.extend_from_slice(&[0x00, 0x01]);
    tiff.extend_from_slice(&[0x01, 0x0f, 0x00, 0x02, 0x00, 0x00, 0x00, 0x06, 0x00, 0x00, 0x00, 0x1a]);
    tiff.extend_from_slice(&[0x00, 0x00, 0x00, 0x00]);
    tiff.extend_from_slice(b"Canon\0");
    let mut app1 = b"Exif\0\0".to_vec();
    app1.extend_from_slice(&tiff);
    let len = (app1.len() + 2) as u16;
    let mut jpeg = vec![0xff, 0xd8, 0xff, 0xe1, (len >> 8) as u8, (len & 0xff) as u8];
    jpeg.extend_from_slice(&app1);
    jpeg.extend_from_slice(&[0xff, 0xd9]);
    jpeg
}

#[test]
fn jpeg_exif_fields_become_tags() {
    let tags = read_jpeg_metadata(&jpeg_with_make()).expect("exif block");
    assert_eq!(tags.len(), 1);
    assert!(tags[0].value.contains("Canon"));
    assert_eq!(tags[0].category, categorize_tag(&tags[0].name));
}

#[test]
fn unreadable_jpeg_is_a_metadata_error() {
    match read_jpeg_metadata(b"not an image") {
        Err(PrivyFileError::Metadata(m)) => assert!(!m.is_empty()),
        _ => panic!("expected a metadata error"),
    }
}

#[test]
fn exif_fields_are_categorised() {
    let tags = tags_from_exif_fields(&vec![
        ("GPSLatitude".to_string(), "59.9".to_string()),
        ("Model".to_string(), "X".to_string()),
    ]);
    assert_eq!(tags[0].category, MetadataCategory::Gps);
    assert_eq!(tags[1].category, MetadataCategory::Device);
    assert_eq!(tags[1].value, "X");
}

#[test]
fn reports_score_their_tags() {
    let tags = vec![tag("GPSLatitude", MetadataCategory::Gps)];
    let r = metadata_report_from_tags("/p/a.jpg", "jpeg", tags);
    assert_eq!(r.file_path, "/p/a.jpg");
    assert_eq!(r.file_type, "jpeg");
    assert_eq!(r.privacy_score, 70);
}

#[test]
fn file_target_checks() {
    match check_file_target("a.jpg", false) {
        Err(PrivyFileError::NotFound(p)) => assert_eq!(p, "a.jpg"),
        _ => panic!(),
    }
    match check_file_target("a.txt", true) {
        Err(PrivyFileError::Unsupported(p)) => assert_eq!(p, "a.txt"),
        _ => panic!(),
    }
    assert_eq!(check_file_target("a.JPEG", true).unwrap(), "jpeg");
}

#[test]
fn reading_and_cleaning_decisions() {
    assert_eq!(metadata_source(true, "pdf"), MetadataSource::ExifTool);
    assert_eq!(metadata_source(false, "jpeg"), MetadataSource::NativeJpeg);
    assert_eq!(metadata_source(false, "png"), MetadataSource::Nothing);
    assert_eq!(choose_clean_method(true, "pdf").unwrap(), CleanMethod::ExifTool);
    assert_eq!(choose_clean_method(false, "webp").unwrap(), CleanMethod::NativeImage);
    match choose_clean_method(false, "pdf") {
        Err(PrivyFileError::Metadata(m)) => assert!(m.starts_with("ExifTool is required")),
        _ => panic!(),
    }
    assert_eq!(exiftool_read_args("/f.jpg"), vec!["-json", "-a", "-G1", "/f.jpg"]);
}

#[test]
fn cleaning_plan() {
    let tags = vec![tag("a", MetadataCategory::Gps), tag("b", MetadataCategory::Other)];
    assert_eq!(names(&removed_tags(&tags, &None)), vec!["a", "b"]);
    assert_eq!(names(&removed_tags(&tags, &Some(vec![MetadataCategory::Other]))), vec!["b"]);
    assert!(exiftool_clean_patterns(&None).is_empty());
    assert_eq!(exiftool_clean_patterns(&Some(vec![MetadataCategory::Other])), vec!["-all:all"]);
    assert_eq!(
        exiftool_clean_args(true, &["Make".to_string()], "/o.jpg"),
        vec!["-overwrite_original", "-all=", "/o.jpg"]
    );
    assert_eq!(
        exiftool_clean_args(false, &["Make".to_string(), "GPS*".to_string()], "/o.jpg"),
        vec!["-overwrite_original", "-Make=", "-GPS*=", "/o.jpg"]
    );
    let mut options = CleanOptions::default();
    options.preserve_original = false;
    options.shred_original = true;
    let r = clean_result("/a.jpg", "/a-cleaned.jpg", vec![], 40, 100, 10, 8, &options);
    assert!(r.original_shredded);
    assert_eq!(r.output_path.as_deref(), Some("/a-cleaned.jpg"));
    assert_eq!(r.bytes_after, Some(8));
    let kept = clean_result("/a.jpg", "/o.jpg", vec![], 1, 2, 3, 4, &CleanOptions::default());
    assert!(!kept.original_shredded);
}

#[test]
fn size_difference() {
    assert_eq!(compare_metadata_size(5, 3), -2);
    assert_eq!(compare_metadata_size(3, 5), 2);
    assert_eq!(compare_metadata_size(u64::MAX, 0), 1);
}

#[test]
fn exiftool_failures() {
    let text = |e: PrivyFileError| match e {
        PrivyFileError::Metadata(m) => m,
        _ => panic!(),
    };
    assert_eq!(text(exiftool_error(ExifToolFailure::Launch, "no such file")), "Failed to run ExifTool: no such file");
    assert_eq!(text(exiftool_error(ExifToolFailure::Read, "bad")), "ExifTool failed: bad");
    assert_eq!(text(exiftool_error(ExifToolFailure::Clean, "bad")), "ExifTool clean failed: bad");
    assert!(text(exiftool_error(ExifToolFailure::Missing, "")).starts_with("ExifTool is not available."));
    assert!(text(exiftool_error(ExifToolFailure::Broken, "")).starts_with("Bundled ExifTool failed to start."));
}

// ----- shred ------------------------------------------------------------------

#[test]
fn pass_counts() {
    let custom = |p: u8| effective_passes(&ShredOptions { method: ShredMethod::Custom, passes: p });
    assert_eq!(custom(0), 1);
    assert_eq!(custom(5), 5);
    assert_eq!(effective_passes(&ShredOptions { method: ShredMethod::Random1Pass, passes: 9 }), 1);
}

#[test]
fn pass_patterns() {
    let p = pass_pattern(ShredMethod::SevenPass, 2);
    assert_eq!(p.len(), 4096);
    assert!(p.iter().all(|b| *b == 0xAA));
    assert!(pass_pattern(ShredMethod::SevenPass, 3).iter().all(|b| *b == 0x55));
    assert!(pass_pattern(ShredMethod::Dod5220, 1).iter().all(|b| *b == 0xFF));
    assert!(pass_pattern(ShredMethod::Dod5220, 0).iter().all(|b| *b == 0x00));
    let r = pass_pattern(ShredMethod::Random1Pass, 0);
    assert_eq!(r.len(), 4096);
    assert!(r.iter().any(|b| *b != r[0]));
}

#[test]
fn shred_helpers() {
    assert_eq!(next_chunk_len(10, 4096), 10);
    assert_eq!(next_chunk_len(10_000, 4096), 4096);
    match check_shred_target("/x", false, false) {
        Err(PrivyFileError::NotFound(p)) => assert_eq!(p, "/x"),
        _ => panic!(),
    }
    match check_shred_target("/x", true, true) {
        Err(PrivyFileError::Shred(m)) => assert_eq!(m, "Path is a directory; use shred_folder"),
        _ => panic!(),
    }
    assert!(check_shred_target("/x", true, false).is_ok());
    assert!(check_shred_folder("/d", false).is_err());
    let r = shred_result("/x", 3, 11);
    assert_eq!(r.bytes_overwritten, 33);
    assert_eq!(r.passes_completed, 3);
    assert!(r.deleted);
    assert!(is_likely_ssd("/mnt/NVMe0/file"));
    assert!(is_likely_ssd("D:\\SSD\\a"));
    assert!(!is_likely_ssd("/home/a"));
    assert!(shred_warning_message().starts_with("Secure deletion cannot be guaranteed"));
    assert!(shred_warning_message().contains("TRIM. Overwriting"));
    assert_eq!(shred_warning(), shred_warning_message());
}

// ----- history ----------------------------------------------------------------

fn entry(n: u8) -> HistoryEntry {
    HistoryEntry {
        timestamp: String::new(),
        source_path: format!("{n}"),
        output_path: None,
        action: "clean".into(),
        privacy_score_before: n,
        privacy_score_after: n,
    }
}

#[test]
fn history_is_bounded() {
    let full: Vec<HistoryEntry> = (0..HISTORY_LIMIT).map(|i| entry((i % 200) as u8)).collect();
    let next = append_bounded(full, entry(250));
    assert_eq!(next.len(), HISTORY_LIMIT);
    assert_eq!(next.last().unwrap().privacy_score_before, 250);
    assert_eq!(next[0].source_path, "1");
    let short = append_bounded(vec![entry(1)], entry(2));
    assert_eq!(short.len(), 2);
}

#[test]
fn history_entries_for_cleans() {
    let e = history_entry_from_clean("/a.jpg", Some("/b.jpg"), 40, 90);
    assert_eq!(e.action, "clean");
    assert_eq!(e.output_path.as_deref(), Some("/b.jpg"));
    assert_eq!(e.privacy_score_after, 90);
    assert!(e.timestamp.contains('T'));
    assert!(history_entry_from_clean("/a", None, 1, 2).output_path.is_none());
}

// ----- reports ----------------------------------------------------------------

fn item_result(path: &str, success: bool, message: &str) -> BatchItemResult {
    BatchItemResult {
        path: path.into(),
        success,
        message: message.into(),
        clean_result: None,
        shred_result: None,
        metadata: None,
    }
}

#[test]
fn escaping() {
    assert_eq!(html_escape("a<b>&\"c\""), "a&lt;b&gt;&amp;&quot;c&quot;");
    let e = html_escape("<script>\"x\"</script>");
    assert!(!e.contains('<') && !e.contains('>') && !e.contains('"'));
}

#[test]
fn report_page() {
    let results = vec![item_result("a<b", true, "Cleaned"), item_result("c", false, "x&y")];
    let page = render_html_report_at(&results, "T0");
    assert!(page.starts_with("<!DOCTYPE html>\n<html lang=\"en\">"));
    assert!(page.contains("<p>Generated at T0</p>"));
    assert!(page.contains(
        "<tbody><tr><td>a&lt;b</td><td>OK</td><td>Cleaned</td></tr>\n<tr><td>c</td><td>Failed</td><td>x&amp;y</td></tr></tbody>"
    ));
    assert!(page.ends_with("</tbody>\n  </table>\n</body>\n</html>"));
    assert!(page.contains("body { font-family: Segoe UI, sans-serif;"));
    let now = render_html_report(&results);
    assert!(now.contains("<td>a&lt;b</td>"));
}

// ----- batch ------------------------------------------------------------------

#[test]
fn batch_plans_and_records() {
    let items = vec![
        BatchItem { path: "/m.jpg".into(), action: BatchAction::MetadataOnly },
        BatchItem { path: "/c.jpg".into(), action: BatchAction::CleanAndShred },
        BatchItem { path: "/s.jpg".into(), action: BatchAction::Shred },
    ];
    let mut base = CleanOptions::default();
    base.profile = Some(CleanProfileId::PhotoBackup);
    match plan_batch_item(&items[1], &base) {
        BatchStep::Clean { path, options } => {
            assert_eq!(path, "/c.jpg");
            assert!(!options.preserve_original && options.shred_original);
            assert_eq!(options.categories, Some(vec![MetadataCategory::Gps]));
        }
        _ => panic!(),
    }
    let plain = BatchItem { path: "/p.jpg".into(), action: BatchAction::Clean };
    match plan_batch_item(&plain, &base) {
        BatchStep::Clean { options, .. } => assert!(options.preserve_original),
        _ => panic!(),
    }

    let mut run = BatchRun::start();
    let mut steps = 0;
    while let Some(step) = run.next_step(&items, &base) {
        let outcome = match step {
            BatchStep::ReadMetadata { path } => {
                BatchOutcome::Metadata(metadata_report_from_tags(&path, "jpeg", vec![]))
            }
            BatchStep::Clean { path, options } => BatchOutcome::Cleaned(clean_result(
                &path, "/out.jpg", vec![], 50, 100, 1, 1, &options,
            )),
            BatchStep::Shred { path } => BatchOutcome::Shredded(shred_result(&path, 1, 4)),
        };
        run.record(&items, outcome);
        steps += 1;
        assert_eq!(run.current(), steps);
    }
    assert_eq!(steps, 3);
    let result = run.finish(&items, "/r.json".into());
    let msgs: Vec<String> = result.items.iter().map(|r| r.message.clone()).collect();
    assert_eq!(msgs, vec!["Metadata read", "Cleaned and shredded original", "Shredded"]);
    assert!(result.items[0].metadata.is_some());
    assert!(result.items[1].clean_result.as_ref().unwrap().original_shredded);
    assert!(result.items[2].shred_result.is_some());
    assert_eq!(result.report_path.as_deref(), Some("/r.json"));
}

#[test]
fn output_name_search_takes_first_free_candidate() {
    let taken = ["/out/photo-cleaned.jpg", "/out/photo-cleaned-1.jpg"];
    let mut search = OutputNameSearch::new("/out", "/in/photo.jpg");
    let mut looked_at = Vec::new();
    let name = loop {
        let candidate = search.candidate();
        looked_at.push(candidate.clone());
        let exists = taken.contains(&candidate.as_str());
        assert!(search.can_skip());
        if let Some(name) = search.answer(exists) {
            break name;
        }
    };
    assert_eq!(name, "/out/photo-cleaned-2.jpg");
    assert_eq!(
        looked_at,
        vec!["/out/photo-cleaned.jpg", "/out/photo-cleaned-1.jpg", "/out/photo-cleaned-2.jpg"]
    );
}

#[test]
fn risk_is_capped_for_long_lists() {
    let many: Vec<TagEntry> = (0..10_000).map(|_| tag("GPSLatitude", MetadataCategory::Gps)).collect();
    assert_eq!(compute_exposure_risk(&many), 100);
    assert_eq!(compute_privacy_score(&many), 0);
    let few = vec![tag("Make", MetadataCategory::Device), tag("Other", MetadataCategory::Other)];
    assert_eq!(compute_exposure_risk(&few), 20);
}

#[test]
fn risk_adds_up_with_a_cap() {
    let a = vec![tag("GPSLatitude", MetadataCategory::Gps), tag("Artist", MetadataCategory::Author)];
    let b = vec![tag("Make", MetadataCategory::Device), tag("DateTime", MetadataCategory::Timestamps)];
    let ab: Vec<TagEntry> = a.iter().chain(b.iter()).cloned().collect();
    let ba: Vec<TagEntry> = b.iter().chain(a.iter()).cloned().collect();
    assert_eq!(compute_exposure_risk(&ab), 75);
    assert_eq!(compute_exposure_risk(&ab), compute_exposure_risk(&a) + compute_exposure_risk(&b));
    assert_eq!(compute_exposure_risk(&ba), compute_exposure_risk(&ab));
    let aaa: Vec<TagEntry> = ab.iter().chain(ab.iter()).cloned().collect();
    assert_eq!(compute_exposure_risk(&aaa), 100);
}

#[test]
fn risk_zero_only_without_tags() {
    assert_eq!(compute_exposure_risk(&[]), 0);
    assert!(compute_exposure_risk(&[tag("Misc", MetadataCategory::Other)]) > 0);
}

#[test]
fn drawn_bytes_are_written_as_drawn() {
    let drawn: Vec<u8> = (0..4096).map(|i| (i % 251) as u8).collect();
    assert_eq!(pattern_for_pass(ShredMethod::Random1Pass, 0, drawn.clone()), drawn);
    assert_eq!(pattern_for_pass(ShredMethod::SevenPass, 6, drawn.clone()), drawn);
    let fixed = pattern_for_pass(ShredMethod::SevenPass, 2, drawn);
    assert_eq!(fixed.len(), 4096);
    assert!(fixed.iter().all(|b| *b == 0xAA));
}

#[test]
fn batch_notices_and_failure() {
    let items = vec![
        BatchItem { path: "/a.jpg".into(), action: BatchAction::Shred },
        BatchItem { path: "/b.jpg".into(), action: BatchAction::Shred },
    ];
    let mut run = BatchRun::start();
    let n = run.starting_notice(&items);
    assert_eq!((n.current, n.total, n.file_path.as_str(), n.status.as_str()), (0, 2, "/a.jpg", "Processing"));
    run.record(&items, BatchOutcome::Shredded(shred_result("/a.jpg", 1, 4)));
    let n = run.finished_notice(&items);
    assert_eq!((n.current, n.total, n.file_path.as_str(), n.status.as_str()), (1, 2, "/a.jpg", "Done"));
    let n = run.starting_notice(&items);
    assert_eq!((n.current, n.file_path.as_str()), (1, "/b.jpg"));
    match run.fail(PrivyFileError::NotFound("/b.jpg".into())) {
        Err(PrivyFileError::NotFound(p)) => assert_eq!(p, "/b.jpg"),
        other => panic!("unexpected {other:?}"),
    }
}

#[test]
fn exiftool_discovery_decisions() {
    assert_eq!(configure_action(false, false), ConfigureAction::Refuse);
    assert_eq!(configure_action(true, false), ConfigureAction::Refuse);
    assert_eq!(configure_action(true, true), ConfigureAction::KeepCurrent);
    assert_eq!(configure_action(false, true), ConfigureAction::Store);
    let candidates: Vec<String> = vec!["/a".into(), "/b".into(), "/c".into()];
    assert_eq!(first_file(&candidates, &[false, true, true]), Some(1));
    assert_eq!(first_file(&candidates, &[false, false, false]), None);
    assert!(exiftool_usable(Some(true), false));
    assert!(!exiftool_usable(Some(false), true));
    assert!(exiftool_usable(None, true));
    assert!(!exiftool_usable(None, false));
}
