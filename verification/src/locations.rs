//! Where the application looks for and puts things: names of cleaned
//! copies, the data directory and its files, and the places searched for
//! the ExifTool program.

use vstd::prelude::*;

use crate::paths::{extension, extension_of, file_stem, file_stem_of, join_path, joined};
use crate::text::{decimal, decimal_string, lemma_decimal_injective, owned};
use crate::types::PrivyFileError;

verus! {

// ---------------------------------------------------------------------------
// Cleaned copies
// ---------------------------------------------------------------------------
/// The name of the `counter`-th candidate for a cleaned copy:
/// `STEM-cleaned.EXT`, then `STEM-cleaned-N.EXT` for N = 1, 2, ...
pub open spec fn cleaned_name(stem: Seq<char>, ext: Seq<char>, counter: nat) -> Seq<char> {
    if counter == 0 {
        stem + "-cleaned."@ + ext
    } else {
        stem + "-cleaned-"@ + decimal(counter) + "."@ + ext
    }
}

/// The stem used for a cleaned copy: the file's stem, or "file".
pub open spec fn output_stem(path: Seq<char>) -> Seq<char> {
    match file_stem_of(path) {
        Some(s) => s,
        None => "file"@,
    }
}

/// The extension used for a cleaned copy: the file's extension, or "bin".
pub open spec fn output_extension(path: Seq<char>) -> Seq<char> {
    match extension_of(path) {
        Some(e) => e,
        None => "bin"@,
    }
}

/// Name of the `counter`-th candidate for the cleaned copy of a file.
pub fn cleaned_file_name(stem: &str, ext: &str, counter: u64) -> (r: String)
    ensures
        r@ == cleaned_name(stem@, ext@, counter as nat),
{
    let mut s = owned(stem);
    if counter == 0 {
        s.append("-cleaned.");
    } else {
        s.append("-cleaned-");
        let n = decimal_string(counter);
        s.append(n.as_str());
        s.append(".");
    }
    s.append(ext);
    s
}

/// The stem and extension a cleaned copy of `path` is named with.
pub fn output_name_parts(path: &str) -> (r: (String, String))
    ensures
        r.0@ == output_stem(path@),
        r.1@ == output_extension(path@),
{
    let stem = match file_stem(path) {
        Some(s) => s,
        None => owned("file"),
    };
    let ext = match extension(path) {
        Some(e) => e,
        None => owned("bin"),
    };
    (stem, ext)
}

/// The `counter`-th candidate path for the cleaned copy of `path` in `dir`.
pub fn cleaned_output_candidate(dir: &str, path: &str, counter: u64) -> (r: String)
    ensures
        r@ == joined(dir@, cleaned_name(output_stem(path@), output_extension(path@), counter as nat)),
{
    let (stem, ext) = output_name_parts(path);
    let name = cleaned_file_name(stem.as_str(), ext.as_str(), counter);
    join_path(dir, name.as_str())
}

/// The `counter`-th candidate path for the cleaned copy of `path` in `dir`.
pub open spec fn output_candidate(dir: Seq<char>, path: Seq<char>, counter: nat) -> Seq<char> {
    joined(dir, cleaned_name(output_stem(path), output_extension(path), counter))
}

/// The search for the name of a cleaned copy. Candidates are looked at in
/// order, from the first; the caller says of each whether a file of that
/// name exists, and the first that does not is the name.
pub struct OutputNameSearch {
    dir: String,
    path: String,
    counter: u64,
}

impl OutputNameSearch {
    /// The directory the copy goes to.
    pub closed spec fn dir(&self) -> Seq<char> {
        self.dir@
    }

    /// The file being copied.
    pub closed spec fn source(&self) -> Seq<char> {
        self.path@
    }

    /// How many candidates were found taken so far: the candidates before
    /// this index all exist.
    pub closed spec fn taken_count(&self) -> nat {
        self.counter as nat
    }

    /// A search that has looked at nothing yet.
    pub fn new(dir: &str, path: &str) -> (r: OutputNameSearch)
        ensures
            r.dir() == dir@,
            r.source() == path@,
            r.taken_count() == 0,
    {
        OutputNameSearch { dir: owned(dir), path: owned(path), counter: 0 }
    }

    /// The candidate to look at next.
    pub fn candidate(&self) -> (r: String)
        ensures
            r@ == output_candidate(self.dir(), self.source(), self.taken_count()),
    {
        cleaned_output_candidate(self.dir.as_str(), self.path.as_str(), self.counter)
    }

    /// Can the search move past one more taken candidate?
    pub fn can_skip(&self) -> (r: bool)
        ensures
            r == (self.taken_count() < u64::MAX),
    {
        self.counter < u64::MAX
    }

    /// Whether a file named by the current candidate exists. When it does
    /// not, the candidate is the name; when it does, the search moves on to
    /// the next candidate.
    pub fn answer(&mut self, exists: bool) -> (r: Option<String>)
        requires
            exists ==> old(self).taken_count() < u64::MAX,
        ensures
            final(self).dir() == old(self).dir(),
            final(self).source() == old(self).source(),
            !exists ==> (r matches Some(name) && name@ == output_candidate(
                old(self).dir(),
                old(self).source(),
                old(self).taken_count(),
            ) && final(self).taken_count() == old(self).taken_count()),
            exists ==> (r is None && final(self).taken_count() == old(self).taken_count() + 1),
    {
        if exists {
            self.counter = self.counter + 1;
            None
        } else {
            Some(self.candidate())
        }
    }
}

/// The view of an optional string.
pub open spec fn opt_view(o: Option<String>) -> Option<Seq<char>> {
    match o {
        Some(s) => Some(s@),
        None => None,
    }
}

/// The directory a cleaned copy goes to: the requested one, else the
/// file's own directory; with neither, an error.
pub fn choose_output_dir(requested: Option<String>, parent: Option<String>) -> (r: Result<
    String,
    PrivyFileError,
>)
    ensures
        requested is Some ==> r is Ok && r->Ok_0@ == requested->0@,
        requested is None && parent is Some ==> r is Ok && r->Ok_0@ == parent->0@,
        requested is None && parent is None ==> (r matches Err(PrivyFileError::Metadata(m)) && m@
            == "Unable to resolve output directory"@),
{
    match requested {
        Some(dir) => Ok(dir),
        None => match parent {
            Some(dir) => Ok(dir),
            None => Err(PrivyFileError::Metadata(owned("Unable to resolve output directory"))),
        },
    }
}

/// Different counters give different candidate names, so the search for a
/// free name never proposes the same name twice.
pub proof fn law_cleaned_names_distinct(stem: Seq<char>, ext: Seq<char>, a: nat, b: nat)
    requires
        a != b,
    ensures
        cleaned_name(stem, ext, a) != cleaned_name(stem, ext, b),
{
    reveal_strlit("-cleaned.");
    reveal_strlit("-cleaned-");
    reveal_strlit(".");
    if a == 0 || b == 0 {
        let (z, n) = if a == 0 {
            (a, b)
        } else {
            (b, a)
        };
        let x = cleaned_name(stem, ext, z);
        let y = cleaned_name(stem, ext, n);
        assert(x[stem.len() as int + 8] == '.');
        assert(y[stem.len() as int + 8] == '-');
    } else {
        let x = cleaned_name(stem, ext, a);
        let y = cleaned_name(stem, ext, b);
        if x == y {
            let start: int = stem.len() as int + 9;
            assert(decimal(a).len() == decimal(b).len()) by {
                assert(x.len() == y.len());
            }
            assert(x.subrange(start, start + decimal(a).len() as int) =~= decimal(a));
            assert(y.subrange(start, start + decimal(b).len() as int) =~= decimal(b));
            lemma_decimal_injective(a, b);
        }
    }
}

// ---------------------------------------------------------------------------
// Data directory
// ---------------------------------------------------------------------------
/// The data directory: an explicit override as given, otherwise
/// `PrivyFile` under the first of the roaming-data, XDG-data and
/// temporary directories that is known.
pub open spec fn data_dir_spec(
    custom: Option<Seq<char>>,
    appdata: Option<Seq<char>>,
    xdg: Option<Seq<char>>,
    temp: Seq<char>,
) -> Seq<char> {
    match custom {
        Some(c) => c,
        None => {
            let base = match appdata {
                Some(a) => a,
                None => match xdg {
                    Some(x) => x,
                    None => temp,
                },
            };
            joined(base, "PrivyFile"@)
        },
    }
}

/// The directory holding the history and settings files, from the values
/// of the override, roaming-data and XDG-data variables and the temporary
/// directory.
pub fn data_dir_from(
    custom: Option<String>,
    appdata: Option<String>,
    xdg: Option<String>,
    temp: String,
) -> (r: String)
    ensures
        r@ == data_dir_spec(opt_view(custom), opt_view(appdata), opt_view(xdg), temp@),
{
    match custom {
        Some(c) => c,
        None => {
            let base = match appdata {
                Some(a) => a,
                None => match xdg {
                    Some(x) => x,
                    None => temp,
                },
            };
            join_path(base.as_str(), "PrivyFile")
        },
    }
}

/// The history file inside the data directory.
pub fn history_file_path(data_dir: &str) -> (r: String)
    ensures
        r@ == joined(data_dir@, "history.json"@),
{
    join_path(data_dir, "history.json")
}

/// The settings file inside the data directory.
pub fn settings_file_path(data_dir: &str) -> (r: String)
    ensures
        r@ == joined(data_dir@, "settings.json"@),
{
    join_path(data_dir, "settings.json")
}

// ---------------------------------------------------------------------------
// Finding ExifTool
// ---------------------------------------------------------------------------
/// The operating system family the program runs on.
#[derive(Debug, Clone, Copy, PartialEq, Eq, Structural)]
pub enum HostOs {
    Windows,
    MacOs,
    Linux,
}

/// The folder name of the bundled ExifTool for a platform.
pub open spec fn platform_dir(os: HostOs) -> Seq<char> {
    match os {
        HostOs::Windows => "win"@,
        HostOs::MacOs => "macos"@,
        HostOs::Linux => "linux"@,
    }
}

/// The file name of the ExifTool program on a platform.
pub open spec fn binary_name(os: HostOs) -> Seq<char> {
    match os {
        HostOs::Windows => "exiftool.exe"@,
        _ => "exiftool"@,
    }
}

/// The folder name of the bundled ExifTool for a platform.
pub fn exiftool_platform_dir(os: HostOs) -> (r: &'static str)
    ensures
        r@ == platform_dir(os),
{
    match os {
        HostOs::Windows => "win",
        HostOs::MacOs => "macos",
        HostOs::Linux => "linux",
    }
}

/// The file name of the ExifTool program on a platform.
pub fn exiftool_binary_name(os: HostOs) -> (r: &'static str)
    ensures
        r@ == binary_name(os),
{
    match os {
        HostOs::Windows => "exiftool.exe",
        _ => "exiftool",
    }
}

/// The folders, relative to the program's own folder, where an installed
/// or development build keeps the bundled ExifTool.
pub open spec fn install_dirs(exe_dir: Seq<char>, platform: Seq<char>) -> Seq<Seq<char>> {
    seq![
        joined(joined(exe_dir, "binaries"@), platform),
        joined(joined(joined(exe_dir, "resources"@), "binaries"@), platform),
        joined(exe_dir, "binaries"@),
        joined(
            joined(joined(joined(joined(exe_dir, ".."@), ".."@), "src-tauri"@), "binaries"@),
            platform,
        ),
        joined(joined(joined(joined(exe_dir, ".."@), "src-tauri"@), "binaries"@), platform),
    ]
}

/// The views of a list of strings.
pub open spec fn views(list: Seq<String>) -> Seq<Seq<char>> {
    list.map_values(|s: String| s@)
}

fn join3(a: &str, b: &str, c: &str) -> (r: String)
    ensures
        r@ == joined(joined(a@, b@), c@),
{
    let ab = join_path(a, b);
    join_path(ab.as_str(), c)
}

/// The folders searched for a bundled ExifTool next to the program.
pub fn install_candidate_dirs(exe_dir: &str, platform: &str) -> (r: Vec<String>)
    ensures
        views(r@) == install_dirs(exe_dir@, platform@),
{
    let mut dirs: Vec<String> = Vec::new();
    dirs.push(join3(exe_dir, "binaries", platform));
    let res = join_path(exe_dir, "resources");
    dirs.push(join3(res.as_str(), "binaries", platform));
    dirs.push(join_path(exe_dir, "binaries"));
    let up2 = join3(exe_dir, "..", "..");
    let tauri2 = join3(up2.as_str(), "src-tauri", "binaries");
    dirs.push(join_path(tauri2.as_str(), platform));
    let up1 = join_path(exe_dir, "..");
    let tauri1 = join3(up1.as_str(), "src-tauri", "binaries");
    dirs.push(join_path(tauri1.as_str(), platform));
    proof {
        assert(views(dirs@) =~= install_dirs(exe_dir@, platform@));
    }
    dirs
}

/// The ExifTool program inside each folder of a list.
pub open spec fn binaries_in(dirs: Seq<Seq<char>>, binary: Seq<char>) -> Seq<Seq<char>> {
    dirs.map_values(|d: Seq<char>| joined(d, binary))
}

/// The paths tried for the ExifTool program, in order: inside the
/// configured bundle folder; the path named by the program variable; inside
/// the folder named by the folder variable; inside each install folder next
/// to the running program; and finally the development tree.
pub open spec fn candidate_paths(
    configured: Option<Seq<char>>,
    env_binary: Option<Seq<char>>,
    env_dir: Option<Seq<char>>,
    exe_dir: Option<Seq<char>>,
    os: HostOs,
) -> Seq<Seq<char>> {
    let bin = binary_name(os);
    let a = match configured {
        Some(d) => seq![joined(d, bin)],
        None => seq![],
    };
    let b = match env_binary {
        Some(p) => seq![p],
        None => seq![],
    };
    let c = match env_dir {
        Some(d) => seq![joined(d, bin)],
        None => seq![],
    };
    let d = match exe_dir {
        Some(e) => binaries_in(install_dirs(e, platform_dir(os)), bin),
        None => seq![],
    };
    a + b + c + d + seq![joined(joined(joined("src-tauri"@, "binaries"@), platform_dir(os)), bin)]
}

/// The view of an optional string slice.
pub open spec fn opt_ref_view(o: Option<&str>) -> Option<Seq<char>> {
    match o {
        Some(s) => Some(s@),
        None => None,
    }
}

/// The list of paths where the ExifTool program may be, in the order they
/// are tried.
pub fn exiftool_candidates(
    configured: Option<&str>,
    env_binary: Option<&str>,
    env_dir: Option<&str>,
    exe_dir: Option<&str>,
    os: HostOs,
) -> (r: Vec<String>)
    ensures
        views(r@) == candidate_paths(
            opt_ref_view(configured),
            opt_ref_view(env_binary),
            opt_ref_view(env_dir),
            opt_ref_view(exe_dir),
            os,
        ),
{
    let bin = exiftool_binary_name(os);
    let platform = exiftool_platform_dir(os);
    let mut paths: Vec<String> = Vec::new();
    if let Some(d) = configured {
        paths.push(join_path(d, bin));
    }
    let ghost after_a = views(paths@);
    if let Some(p) = env_binary {
        paths.push(owned(p));
    }
    let ghost after_b = views(paths@);
    if let Some(d) = env_dir {
        paths.push(join_path(d, bin));
    }
    let ghost after_c = views(paths@);
    if let Some(e) = exe_dir {
        let dirs = install_candidate_dirs(e, platform);
        let mut i: usize = 0;
        while i < dirs.len()
            invariant
                i <= dirs@.len(),
                views(dirs@) == install_dirs(e@, platform_dir(os)),
                bin@ == binary_name(os),
                views(paths@) == after_c + binaries_in(
                    views(dirs@).subrange(0, i as int),
                    bin@,
                ),
            decreases dirs@.len() - i,
        {
            let p = join_path(dirs[i].as_str(), bin);
            let ghost prev = views(paths@);
            paths.push(p);
            proof {
                assert(views(paths@) =~= prev.push(p@));
                assert(binaries_in(views(dirs@).subrange(0, i + 1), bin@) =~= binaries_in(
                    views(dirs@).subrange(0, i as int),
                    bin@,
                ).push(joined(dirs@[i as int]@, bin@)));
            }
            i = i + 1;
        }
        proof {
            assert(views(dirs@).subrange(0, dirs@.len() as int) =~= views(dirs@));
        }
    }
    let ghost after_d = views(paths@);
    let dev = join3("src-tauri", "binaries", platform);
    let dev_bin = join_path(dev.as_str(), bin);
    paths.push(dev_bin);
    proof {
        let bn = binary_name(os);
        let a: Seq<Seq<char>> = match configured {
            Some(d) => seq![joined(d@, bn)],
            None => seq![],
        };
        let b: Seq<Seq<char>> = match env_binary {
            Some(p) => seq![p@],
            None => seq![],
        };
        let c: Seq<Seq<char>> = match env_dir {
            Some(d) => seq![joined(d@, bn)],
            None => seq![],
        };
        assert(after_a =~= a);
        assert(after_b =~= a + b);
        assert(after_c =~= a + b + c);
        assert(views(paths@) =~= after_d.push(dev_bin@));
        assert(views(paths@) =~= candidate_paths(
            opt_ref_view(configured),
            opt_ref_view(env_binary),
            opt_ref_view(env_dir),
            opt_ref_view(exe_dir),
            os,
        ));
    }
    paths
}

/// Does a folder hold the files ExifTool needs beside the program: its
/// `exiftool_files` folder, or (off Windows) a `lib` folder?
pub open spec fn support_files_present(os: HostOs, has_exiftool_files: bool, has_lib: bool) -> bool {
    has_exiftool_files || (os != HostOs::Windows && has_lib)
}

/// Is a folder a usable ExifTool bundle: the program is there as a file,
/// and so are its support files?
pub fn bundle_is_valid(os: HostOs, binary_is_file: bool, has_exiftool_files: bool, has_lib: bool) -> (r:
    bool)
    ensures
        r == (binary_is_file && support_files_present(os, has_exiftool_files, has_lib)),
{
    binary_is_file && (has_exiftool_files || (os != HostOs::Windows && has_lib))
}

/// Is an ExifTool program worth starting: it is a file, it has a
/// containing folder, and that folder holds the support files?
pub fn binary_layout_ok(
    os: HostOs,
    binary_is_file: bool,
    has_parent: bool,
    has_exiftool_files: bool,
    has_lib: bool,
) -> (r: bool)
    ensures
        r == (binary_is_file && has_parent && support_files_present(
            os,
            has_exiftool_files,
            has_lib,
        )),
{
    if !binary_is_file || !has_parent {
        return false;
    }
    if os == HostOs::Windows && !has_exiftool_files {
        return false;
    }
    if os != HostOs::Windows && !has_lib && !has_exiftool_files {
        return false;
    }
    true
}

/// What to do with a folder offered as the ExifTool install.
#[derive(Debug, Clone, Copy, PartialEq, Eq, Structural)]
pub enum ConfigureAction {
    /// It is not a usable bundle: refuse it.
    Refuse,
    /// A folder is configured already; it stays, and the offer counts as
    /// accepted.
    KeepCurrent,
    /// Store it as the configured folder.
    Store,
}

/// Configuring the ExifTool folder: an unusable bundle is refused, and the
/// first usable one is kept for good, never replaced by a later one.
pub fn configure_action(already_configured: bool, bundle_valid: bool) -> (r: ConfigureAction)
    ensures
        !bundle_valid ==> r == ConfigureAction::Refuse,
        bundle_valid && already_configured ==> r == ConfigureAction::KeepCurrent,
        bundle_valid && !already_configured ==> r == ConfigureAction::Store,
{
    if !bundle_valid {
        ConfigureAction::Refuse
    } else if already_configured {
        ConfigureAction::KeepCurrent
    } else {
        ConfigureAction::Store
    }
}

/// The first of the candidates that is a file (`is_file` says, for each
/// candidate in turn, whether it is one), or `None` when none is.
pub fn first_file(candidates: &[String], is_file: &[bool]) -> (r: Option<usize>)
    requires
        candidates@.len() == is_file@.len(),
    ensures
        match r {
            Some(i) => i < is_file@.len() && is_file@[i as int] && forall|j: int|
                0 <= j < i ==> !is_file@[j],
            None => forall|j: int| 0 <= j < is_file@.len() ==> !is_file@[j],
        },
{
    let mut i: usize = 0;
    while i < is_file.len()
        invariant
            i <= is_file@.len(),
            forall|j: int| 0 <= j < i ==> !is_file@[j],
        decreases is_file@.len() - i,
    {
        if is_file[i] {
            return Some(i);
        }
        i = i + 1;
    }
    None
}

/// Is ExifTool usable? When a program was found among the candidates, it
/// decides (`found_works`: it starts and answers); otherwise the one on the
/// search path does (`system_works`).
pub fn exiftool_usable(found_works: Option<bool>, system_works: bool) -> (r: bool)
    ensures
        r == match found_works {
            Some(w) => w,
            None => system_works,
        },
{
    match found_works {
        Some(w) => w,
        None => system_works,
    }
}

} // verus!
