//! Path handling on plain strings: splitting into components the way a
//! Unix `Path` does, file names, stems and extensions, joining, the file
//! type table, and the locations the application derives from them.

use vstd::prelude::*;

use crate::text::{ascii_lower, ascii_lowercase, chars_of, owned, str_equal, string_of};

verus! {

// ---------------------------------------------------------------------------
// Components, file names and extensions
// ---------------------------------------------------------------------------
/// Index of the last occurrence of `c` in `s`, or -1.
pub open spec fn last_index_of(s: Seq<char>, c: char) -> int
    decreases s.len(),
{
    if s.len() == 0 {
        -1
    } else if s.last() == c {
        s.len() - 1
    } else {
        last_index_of(s.drop_last(), c)
    }
}

/// `last_index_of` is -1 or a position of `c`, and nothing after it is `c`.
pub proof fn lemma_last_index_of(s: Seq<char>, c: char)
    ensures
        -1 <= last_index_of(s, c) < s.len(),
        last_index_of(s, c) >= 0 ==> s[last_index_of(s, c)] == c,
        forall|j: int| last_index_of(s, c) < j < s.len() ==> s[j] != c,
    decreases s.len(),
{
    if s.len() > 0 && s.last() != c {
        lemma_last_index_of(s.drop_last(), c);
        assert forall|j: int| last_index_of(s, c) < j < s.len() implies s[j] != c by {
            if j < s.len() - 1 {
                assert(s.drop_last()[j] == s[j]);
            }
        }
    }
}

/// The '/'-separated pieces of a path, empty pieces included.
pub open spec fn segments(s: Seq<char>) -> Seq<Seq<char>>
    decreases s.len(),
{
    let k = last_index_of(s, '/');
    proof {
        lemma_last_index_of(s, '/');
    }
    if k < 0 {
        seq![s]
    } else {
        segments(s.subrange(0, k)).push(s.subrange(k + 1, s.len() as int))
    }
}

/// Pieces that name nothing: empty ones (from repeated or trailing
/// separators) and ".".
pub open spec fn names_nothing(seg: Seq<char>) -> bool {
    seg.len() == 0 || seg == seq!['.']
}

/// The last piece that names something.
pub open spec fn last_named(segs: Seq<Seq<char>>) -> Option<Seq<char>>
    decreases segs.len(),
{
    if segs.len() == 0 {
        None
    } else if names_nothing(segs.last()) {
        last_named(segs.drop_last())
    } else {
        Some(segs.last())
    }
}

/// The final component of a path, unless it is "..".
pub open spec fn file_name_of(path: Seq<char>) -> Option<Seq<char>> {
    match last_named(segments(path)) {
        Some(n) => if n == seq!['.', '.'] {
            None
        } else {
            Some(n)
        },
        None => None,
    }
}

/// The extension: what follows the last '.' of the file name, when that
/// '.' is not its first character.
pub open spec fn extension_of(path: Seq<char>) -> Option<Seq<char>> {
    match file_name_of(path) {
        Some(n) => {
            let d = last_index_of(n, '.');
            if d <= 0 {
                None
            } else {
                Some(n.subrange(d + 1, n.len() as int))
            }
        },
        None => None,
    }
}

/// The stem: the file name without its extension.
pub open spec fn file_stem_of(path: Seq<char>) -> Option<Seq<char>> {
    match file_name_of(path) {
        Some(n) => {
            let d = last_index_of(n, '.');
            if d <= 0 {
                Some(n)
            } else {
                Some(n.subrange(0, d))
            }
        },
        None => None,
    }
}

/// The last position before `end` holding `c`.
fn last_index_before(v: &Vec<char>, c: char, end: usize) -> (r: Option<usize>)
    requires
        end <= v@.len(),
    ensures
        match r {
            Some(k) => k as int == last_index_of(v@.subrange(0, end as int), c),
            None => last_index_of(v@.subrange(0, end as int), c) == -1,
        },
{
    let mut i = end;
    while i > 0
        invariant
            i <= end <= v@.len(),
            last_index_of(v@.subrange(0, end as int), c) == last_index_of(
                v@.subrange(0, i as int),
                c,
            ),
        decreases i,
    {
        proof {
            assert(v@.subrange(0, i as int).drop_last() =~= v@.subrange(0, i - 1));
        }
        if v[i - 1] == c {
            return Some(i - 1);
        }
        i = i - 1;
    }
    None
}

/// A copy of `v[from..to]`.
fn slice_string(v: &Vec<char>, from: usize, to: usize) -> (r: String)
    requires
        from <= to <= v@.len(),
    ensures
        r@ == v@.subrange(from as int, to as int),
{
    let mut out: Vec<char> = Vec::new();
    let mut i = from;
    while i < to
        invariant
            from <= i <= to <= v@.len(),
            out@ == v@.subrange(from as int, i as int),
        decreases to - i,
    {
        out.push(v[i]);
        i = i + 1;
        proof {
            assert(out@ =~= v@.subrange(from as int, i as int));
        }
    }
    string_of(out.as_slice())
}

/// Does `v[from..to]` name nothing?
fn piece_names_nothing(v: &Vec<char>, from: usize, to: usize) -> (r: bool)
    requires
        from <= to <= v@.len(),
    ensures
        r == names_nothing(v@.subrange(from as int, to as int)),
{
    if from == to {
        true
    } else if to - from == 1 && v[from] == '.' {
        proof {
            assert(v@.subrange(from as int, to as int) =~= seq!['.']);
        }
        true
    } else {
        proof {
            if to - from == 1 {
                assert(v@.subrange(from as int, to as int)[0] != '.');
            }
        }
        false
    }
}

/// The final component of a path (as `Path::file_name`).
pub fn file_name(path: &str) -> (r: Option<String>)
    ensures
        match r {
            Some(s) => file_name_of(path@) == Some(s@),
            None => file_name_of(path@) is None,
        },
{
    let v = chars_of(path);
    let mut end = v.len();
    proof {
        assert(v@.subrange(0, end as int) =~= v@);
    }
    loop
        invariant
            v@ == path@,
            end <= v@.len(),
            last_named(segments(path@)) == last_named(segments(v@.subrange(0, end as int))),
        decreases end,
    {
        let ghost prefix = v@.subrange(0, end as int);
        proof {
            lemma_last_index_of(prefix, '/');
        }
        let found = last_index_before(&v, '/', end);
        let start: usize = match found {
            Some(k) => k + 1,
            None => 0,
        };
        let ghost piece = v@.subrange(start as int, end as int);
        proof {
            match found {
                Some(k) => {
                    assert(prefix.subrange(0, k as int) =~= v@.subrange(0, k as int));
                    assert(prefix.subrange(k + 1, prefix.len() as int) =~= piece);
                    assert(segments(prefix) == segments(v@.subrange(0, k as int)).push(piece));
                    assert(segments(v@.subrange(0, k as int)).push(piece).drop_last()
                        =~= segments(v@.subrange(0, k as int)));
                },
                None => {
                    assert(prefix =~= piece);
                    assert(segments(prefix) == seq![piece]);
                    assert(seq![piece].drop_last() =~= Seq::<Seq<char>>::empty());
                },
            }
        }
        if !piece_names_nothing(&v, start, end) {
            proof {
                assert(segments(prefix).last() == piece);
                assert(last_named(segments(prefix)) == Some(piece));
            }
            let name = slice_string(&v, start, end);
            if end - start == 2 && v[start] == '.' && v[start + 1] == '.' {
                proof {
                    assert(name@ =~= seq!['.', '.']);
                }
                return None;
            }
            proof {
                if end - start == 2 {
                    assert(name@[0] != '.' || name@[1] != '.');
                }
            }
            return Some(name);
        }
        match found {
            Some(k) => {
                end = k;
            },
            None => {
                proof {
                    assert(segments(prefix).drop_last() =~= Seq::<Seq<char>>::empty());
                    assert(last_named(segments(prefix)) == last_named(
                        Seq::<Seq<char>>::empty(),
                    ));
                }
                return None;
            },
        }
    }
}

/// Split a file name at its extension dot: the stem, and the extension if
/// there is one.
fn split_extension(name: &String) -> (r: (String, Option<String>))
    ensures
        ({
            let d = last_index_of(name@, '.');
            if d <= 0 {
                r.0@ == name@ && r.1 is None
            } else {
                r.0@ == name@.subrange(0, d) && r.1 is Some && r.1->0@ == name@.subrange(
                    d + 1,
                    name@.len() as int,
                )
            }
        }),
{
    let v = chars_of(name.as_str());
    proof {
        assert(v@.subrange(0, v@.len() as int) =~= v@);
        lemma_last_index_of(v@, '.');
    }
    match last_index_before(&v, '.', v.len()) {
        Some(d) => {
            if d == 0 {
                (name.clone(), None)
            } else {
                (slice_string(&v, 0, d), Some(slice_string(&v, d + 1, v.len())))
            }
        },
        None => (name.clone(), None),
    }
}

/// The extension of a path (as `Path::extension`).
pub fn extension(path: &str) -> (r: Option<String>)
    ensures
        match r {
            Some(s) => extension_of(path@) == Some(s@),
            None => extension_of(path@) is None,
        },
{
    match file_name(path) {
        Some(name) => split_extension(&name).1,
        None => None,
    }
}

/// The stem of a path (as `Path::file_stem`).
pub fn file_stem(path: &str) -> (r: Option<String>)
    ensures
        match r {
            Some(s) => file_stem_of(path@) == Some(s@),
            None => file_stem_of(path@) is None,
        },
{
    match file_name(path) {
        Some(name) => Some(split_extension(&name).0),
        None => None,
    }
}

// ---------------------------------------------------------------------------
// Joining
// ---------------------------------------------------------------------------
/// `base` joined with `part` as `PathBuf::join` does on Unix: an absolute
/// part replaces the base, otherwise a separator is put between them unless
/// the base is empty or already ends with one.
pub open spec fn joined(base: Seq<char>, part: Seq<char>) -> Seq<char> {
    if part.len() > 0 && part[0] == '/' {
        part
    } else if base.len() > 0 && base.last() != '/' {
        base + seq!['/'] + part
    } else {
        base + part
    }
}

/// Join a component onto a path.
pub fn join_path(base: &str, part: &str) -> (r: String)
    ensures
        r@ == joined(base@, part@),
{
    let b = chars_of(base);
    let p = chars_of(part);
    if p.len() > 0 && p[0] == '/' {
        return owned(part);
    }
    let mut out = owned(base);
    if b.len() > 0 && b[b.len() - 1] != '/' {
        out.append("/");
        proof {
            reveal_strlit("/");
        }
    }
    out.append(part);
    out
}

// ---------------------------------------------------------------------------
// File types
// ---------------------------------------------------------------------------
/// The file type name for a lowercase extension, if the type is supported.
pub open spec fn file_type_for(ext: Seq<char>) -> Option<Seq<char>> {
    if ext == "jpg"@ || ext == "jpeg"@ {
        Some("jpeg"@)
    } else if ext == "png"@ {
        Some("png"@)
    } else if ext == "webp"@ {
        Some("webp"@)
    } else if ext == "heic"@ || ext == "heif"@ {
        Some("heic"@)
    } else if ext == "tif"@ || ext == "tiff"@ {
        Some("tiff"@)
    } else if ext == "pdf"@ {
        Some("pdf"@)
    } else if ext == "docx"@ {
        Some("docx"@)
    } else if ext == "xlsx"@ {
        Some("xlsx"@)
    } else if ext == "pptx"@ {
        Some("pptx"@)
    } else if ext == "mp4"@ {
        Some("mp4"@)
    } else if ext == "mov"@ {
        Some("mov"@)
    } else if ext == "mp3"@ {
        Some("mp3"@)
    } else if ext == "flac"@ {
        Some("flac"@)
    } else if ext == "zip"@ {
        Some("zip"@)
    } else if ext == "avi"@ || ext == "mkv"@ || ext == "webm"@ {
        Some("video"@)
    } else {
        None
    }
}

/// The file type of a path: from its extension, without regard to ASCII
/// case.
pub open spec fn file_type_of(path: Seq<char>) -> Option<Seq<char>> {
    match extension_of(path) {
        Some(e) => file_type_for(ascii_lower(e)),
        None => None,
    }
}

/// The view of an optional string slice.
pub open spec fn opt_str_view(o: Option<&str>) -> Option<Seq<char>> {
    match o {
        Some(s) => Some(s@),
        None => None,
    }
}

fn type_for_extension(ext: &str) -> (r: Option<&'static str>)
    ensures
        opt_str_view(r) == file_type_for(ext@),
{
    if str_equal(ext, "jpg") || str_equal(ext, "jpeg") {
        Some("jpeg")
    } else if str_equal(ext, "png") {
        Some("png")
    } else if str_equal(ext, "webp") {
        Some("webp")
    } else if str_equal(ext, "heic") || str_equal(ext, "heif") {
        Some("heic")
    } else if str_equal(ext, "tif") || str_equal(ext, "tiff") {
        Some("tiff")
    } else if str_equal(ext, "pdf") {
        Some("pdf")
    } else if str_equal(ext, "docx") {
        Some("docx")
    } else if str_equal(ext, "xlsx") {
        Some("xlsx")
    } else if str_equal(ext, "pptx") {
        Some("pptx")
    } else if str_equal(ext, "mp4") {
        Some("mp4")
    } else if str_equal(ext, "mov") {
        Some("mov")
    } else if str_equal(ext, "mp3") {
        Some("mp3")
    } else if str_equal(ext, "flac") {
        Some("flac")
    } else if str_equal(ext, "zip") {
        Some("zip")
    } else if str_equal(ext, "avi") || str_equal(ext, "mkv") || str_equal(ext, "webm") {
        Some("video")
    } else {
        None
    }
}

/// The file type of a path, judged by its extension (ASCII case ignored),
/// or `None` when the extension is missing or not supported.
pub fn detect_file_type(path: &str) -> (r: Option<&'static str>)
    ensures
        opt_str_view(r) == file_type_of(path@),
{
    match extension(path) {
        Some(ext) => {
            let lower = ascii_lowercase(ext.as_str());
            type_for_extension(lower.as_str())
        },
        None => None,
    }
}

/// Types the library can clean without ExifTool.
pub open spec fn natively_cleanable(file_type: Seq<char>) -> bool {
    file_type == "jpeg"@ || file_type == "png"@ || file_type == "webp"@
}

/// Can this file type be cleaned by re-encoding the image?
pub fn is_rust_native_image(file_type: &str) -> (r: bool)
    ensures
        r == natively_cleanable(file_type@),
{
    str_equal(file_type, "jpeg") || str_equal(file_type, "png") || str_equal(file_type, "webp")
}

/// Is the path of a supported file type?
pub fn supported_extension(path: &str) -> (r: bool)
    ensures
        r == (file_type_of(path@) is Some),
{
    detect_file_type(path).is_some()
}

/// File types are recognised without regard to the ASCII case of the
/// extension: two paths whose extensions differ only in case have the same
/// type, and a path without extension has none.
pub proof fn law_file_type_ignores_case(a: Seq<char>, b: Seq<char>)
    ensures
        (extension_of(a) matches Some(x) && extension_of(b) matches Some(y) && ascii_lower(x)
            == ascii_lower(y)) ==> file_type_of(a) == file_type_of(b),
        extension_of(a) is None ==> file_type_of(a) is None,
{
}

/// The characters of the extension and type names, spelled out.
proof fn lemma_type_names_spelled()
    ensures
        "jpg"@.len() == 3 && "jpg"@[0] == 'j' && "jpg"@[1] == 'p' && "jpg"@[2] == 'g',
        "jpeg"@.len() == 4 && "jpeg"@[0] == 'j' && "jpeg"@[1] == 'p' && "jpeg"@[2] == 'e' && "jpeg"@[3] == 'g',
        "png"@.len() == 3 && "png"@[0] == 'p' && "png"@[1] == 'n' && "png"@[2] == 'g',
        "webp"@.len() == 4 && "webp"@[0] == 'w' && "webp"@[1] == 'e' && "webp"@[2] == 'b' && "webp"@[3] == 'p',
        "heic"@.len() == 4 && "heic"@[0] == 'h' && "heic"@[1] == 'e' && "heic"@[2] == 'i' && "heic"@[3] == 'c',
        "heif"@.len() == 4 && "heif"@[0] == 'h' && "heif"@[1] == 'e' && "heif"@[2] == 'i' && "heif"@[3] == 'f',
        "tif"@.len() == 3 && "tif"@[0] == 't' && "tif"@[1] == 'i' && "tif"@[2] == 'f',
        "tiff"@.len() == 4 && "tiff"@[0] == 't' && "tiff"@[1] == 'i' && "tiff"@[2] == 'f' && "tiff"@[3] == 'f',
        "pdf"@.len() == 3 && "pdf"@[0] == 'p' && "pdf"@[1] == 'd' && "pdf"@[2] == 'f',
        "docx"@.len() == 4 && "docx"@[0] == 'd' && "docx"@[1] == 'o' && "docx"@[2] == 'c' && "docx"@[3] == 'x',
        "xlsx"@.len() == 4 && "xlsx"@[0] == 'x' && "xlsx"@[1] == 'l' && "xlsx"@[2] == 's' && "xlsx"@[3] == 'x',
        "pptx"@.len() == 4 && "pptx"@[0] == 'p' && "pptx"@[1] == 'p' && "pptx"@[2] == 't' && "pptx"@[3] == 'x',
        "mp4"@.len() == 3 && "mp4"@[0] == 'm' && "mp4"@[1] == 'p' && "mp4"@[2] == '4',
        "mov"@.len() == 3 && "mov"@[0] == 'm' && "mov"@[1] == 'o' && "mov"@[2] == 'v',
        "mp3"@.len() == 3 && "mp3"@[0] == 'm' && "mp3"@[1] == 'p' && "mp3"@[2] == '3',
        "flac"@.len() == 4 && "flac"@[0] == 'f' && "flac"@[1] == 'l' && "flac"@[2] == 'a' && "flac"@[3] == 'c',
        "zip"@.len() == 3 && "zip"@[0] == 'z' && "zip"@[1] == 'i' && "zip"@[2] == 'p',
        "avi"@.len() == 3 && "avi"@[0] == 'a' && "avi"@[1] == 'v' && "avi"@[2] == 'i',
        "mkv"@.len() == 3 && "mkv"@[0] == 'm' && "mkv"@[1] == 'k' && "mkv"@[2] == 'v',
        "webm"@.len() == 4 && "webm"@[0] == 'w' && "webm"@[1] == 'e' && "webm"@[2] == 'b' && "webm"@[3] == 'm',
        "video"@.len() == 5 && "video"@[0] == 'v' && "video"@[1] == 'i' && "video"@[2] == 'd' && "video"@[3] == 'e' && "video"@[4] == 'o',
{
    reveal_strlit("jpg");
    reveal_strlit("jpeg");
    reveal_strlit("png");
    reveal_strlit("webp");
    reveal_strlit("heic");
    reveal_strlit("heif");
    reveal_strlit("tif");
    reveal_strlit("tiff");
    reveal_strlit("pdf");
    reveal_strlit("docx");
    reveal_strlit("xlsx");
    reveal_strlit("pptx");
    reveal_strlit("mp4");
    reveal_strlit("mov");
    reveal_strlit("mp3");
    reveal_strlit("flac");
    reveal_strlit("zip");
    reveal_strlit("avi");
    reveal_strlit("mkv");
    reveal_strlit("webm");
    reveal_strlit("video");
}

/// Which extensions are supported, and as what: whatever the ASCII case of
/// its extension, a path is a JPEG for `jpg`/`jpeg`, a PNG for `png`, a
/// WebP image for `webp`, HEIC for `heic`/`heif`, TIFF for `tif`/`tiff`, a
/// PDF, Word, Excel or PowerPoint file for `pdf`/`docx`/`xlsx`/`pptx`, an
/// MP4 or QuickTime film for `mp4`/`mov`, MP3 or FLAC audio, a ZIP archive,
/// a video for `avi`/`mkv`/`webm`; with any other extension, or none, it is
/// not supported.
pub proof fn law_supported_types(path: Seq<char>)
    ensures
        extension_of(path) is None ==> file_type_of(path) is None,
        extension_of(path) matches Some(x) ==> {
            let e = ascii_lower(x);
            &&& (e == "jpg"@ || e == "jpeg"@) ==> file_type_of(path) == Some("jpeg"@)
            &&& e == "png"@ ==> file_type_of(path) == Some("png"@)
            &&& e == "webp"@ ==> file_type_of(path) == Some("webp"@)
            &&& (e == "heic"@ || e == "heif"@) ==> file_type_of(path) == Some("heic"@)
            &&& (e == "tif"@ || e == "tiff"@) ==> file_type_of(path) == Some("tiff"@)
            &&& e == "pdf"@ ==> file_type_of(path) == Some("pdf"@)
            &&& e == "docx"@ ==> file_type_of(path) == Some("docx"@)
            &&& e == "xlsx"@ ==> file_type_of(path) == Some("xlsx"@)
            &&& e == "pptx"@ ==> file_type_of(path) == Some("pptx"@)
            &&& e == "mp4"@ ==> file_type_of(path) == Some("mp4"@)
            &&& e == "mov"@ ==> file_type_of(path) == Some("mov"@)
            &&& e == "mp3"@ ==> file_type_of(path) == Some("mp3"@)
            &&& e == "flac"@ ==> file_type_of(path) == Some("flac"@)
            &&& e == "zip"@ ==> file_type_of(path) == Some("zip"@)
            &&& (e == "avi"@ || e == "mkv"@ || e == "webm"@) ==> file_type_of(path) == Some(
                "video"@,
            )
            &&& file_type_of(path) is Some ==> (e == "jpg"@ || e == "jpeg"@ || e == "png"@ || e
                == "webp"@ || e == "heic"@ || e == "heif"@ || e == "tif"@ || e == "tiff"@ || e
                == "pdf"@ || e == "docx"@ || e == "xlsx"@ || e == "pptx"@ || e == "mp4"@ || e
                == "mov"@ || e == "mp3"@ || e == "flac"@ || e == "zip"@ || e == "avi"@ || e
                == "mkv"@ || e == "webm"@)
        },
{
    lemma_type_names_spelled();
}

/// Without ExifTool exactly the JPEG, PNG and WebP images are cleaned, by
/// re-encoding: a file type is natively cleanable just when it is one of
/// those three, so a path is cleanable this way just when its extension is
/// `jpg`, `jpeg`, `png` or `webp`, whatever its case.
pub proof fn law_native_cleaning_types(file_type: Seq<char>, path: Seq<char>)
    ensures
        natively_cleanable(file_type) <==> (file_type == "jpeg"@ || file_type == "png"@
            || file_type == "webp"@),
        file_type_of(path) matches Some(t) ==> (natively_cleanable(t) <==> (extension_of(path) matches Some(x) && (ascii_lower(x) == "jpg"@
            || ascii_lower(x) == "jpeg"@ || ascii_lower(x) == "png"@ || ascii_lower(x)
            == "webp"@))),
{
    law_supported_types(path);
    lemma_type_names_spelled();
}

} // verus!
