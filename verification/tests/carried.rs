use privyfile_core::categories::{categorize_tag, compute_exposure_risk, compute_privacy_score};
use privyfile_core::locations::{exiftool_platform_dir, install_candidate_dirs, HostOs};
use privyfile_core::paths::detect_file_type;
use privyfile_core::shred::effective_passes;
use privyfile_core::types::{MetadataCategory, ShredMethod, ShredOptions, TagEntry};

#[test]
fn privacy_score_weights() {
    let tags = vec![
        TagEntry {
            name: "GPSLatitude".into(),
            value: "59.9".into(),
            category: MetadataCategory::Gps,
        },
        TagEntry {
            name: "Author".into(),
            value: "Jane".into(),
            category: MetadataCategory::Author,
        },
    ];
    assert_eq!(compute_exposure_risk(&tags), 50);
    assert_eq!(compute_privacy_score(&tags), 50);
}

#[test]
fn clean_file_has_perfect_privacy_score() {
    assert_eq!(compute_privacy_score(&[]), 100);
}

#[test]
fn categorize_gps_tag() {
    assert_eq!(categorize_tag("GPSLongitude"), MetadataCategory::Gps);
    assert_eq!(categorize_tag("CameraModel"), MetadataCategory::Device);
}

#[test]
fn install_candidates_include_platform_folder() {
    let dirs = install_candidate_dirs(
        "C:\\Program Files\\PrivyFile",
        exiftool_platform_dir(HostOs::Windows),
    );
    assert!(dirs.iter().any(|dir| {
        let parts: Vec<&str> = dir.split(|c| c == '/' || c == '\\').collect();
        parts.len() >= 2 && parts[parts.len() - 2..] == ["binaries", "win"]
    }));
}

#[test]
fn detect_jpeg() {
    assert_eq!(detect_file_type("photo.JPG"), Some("jpeg"));
}

#[test]
fn dod_has_three_passes() {
    assert_eq!(
        effective_passes(&ShredOptions {
            method: ShredMethod::Dod5220,
            passes: 1,
        }),
        3
    );
}

#[test]
fn seven_pass_has_seven_overwrites() {
    assert_eq!(
        effective_passes(&ShredOptions {
            method: ShredMethod::SevenPass,
            passes: 1,
        }),
        7
    );
}
