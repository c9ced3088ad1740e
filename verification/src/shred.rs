//! Secure deletion: how many overwrite passes a method takes, what each
//! pass writes, and the checks and records around a shred.

use vstd::prelude::*;

use rand::RngCore;

use crate::text::{ascii_lower, ascii_lowercase, contains_seq, owned, str_contains};
use crate::types::{PrivyFileError, ShredMethod, ShredOptions, ShredResult};

verus! {

/// The number of overwrite passes of a method: 1, 3 (DoD 5220.22-M),
/// 7, or for a custom method the requested count but at least 1.
pub open spec fn passes_for(method: ShredMethod, requested: u8) -> u8 {
    match method {
        ShredMethod::Random1Pass => 1,
        ShredMethod::Dod5220 => 3,
        ShredMethod::SevenPass => 7,
        ShredMethod::Custom => if requested < 1 {
            1
        } else {
            requested
        },
    }
}

/// The number of overwrite passes the options ask for.
pub fn effective_passes(options: &ShredOptions) -> (r: u8)
    ensures
        r == passes_for(options.method, options.passes),
        r >= 1,
{
    match options.method {
        ShredMethod::Random1Pass => 1,
        ShredMethod::Dod5220 => 3,
        ShredMethod::SevenPass => 7,
        ShredMethod::Custom => if options.passes < 1 {
            1
        } else {
            options.passes
        },
    }
}

/// The size of one overwrite pattern.
pub open spec fn pattern_size() -> nat {
    4096
}

/// The byte a pass writes throughout, or `None` for a pass of random data:
/// DoD writes zeros, then ones, then random data; the seven-pass method
/// writes 0x00, 0xFF, 0xAA, 0x55, then random data; the other methods only
/// random data.
pub open spec fn fixed_byte(method: ShredMethod, pass_index: u8) -> Option<u8> {
    match method {
        ShredMethod::Dod5220 => if pass_index == 0 {
            Some(0x00u8)
        } else if pass_index == 1 {
            Some(0xFFu8)
        } else {
            None
        },
        ShredMethod::SevenPass => if pass_index == 0 {
            Some(0x00u8)
        } else if pass_index == 1 {
            Some(0xFFu8)
        } else if pass_index == 2 {
            Some(0xAAu8)
        } else if pass_index == 3 {
            Some(0x55u8)
        } else {
            None
        },
        _ => None,
    }
}

/// Trusted wrapper around `rand::rng().fill_bytes` of the `rand` crate:
/// a buffer of `size` bytes from the thread's random generator. Only its
/// length is claimed; the bytes are random.
#[verifier::external_body]
fn random_pattern(size: usize) -> (r: Vec<u8>)
    ensures
        r@.len() == size,
{
    let mut buffer = vec![0u8; size];
    rand::rng().fill_bytes(&mut buffer);
    buffer
}

/// `n` copies of `byte`.
fn filled(byte: u8, n: usize) -> (r: Vec<u8>)
    ensures
        r@.len() == n,
        forall|j: int| 0 <= j < n ==> r@[j] == byte,
{
    let mut v: Vec<u8> = Vec::new();
    let mut i: usize = 0;
    while i < n
        invariant
            i <= n,
            v@.len() == i,
            forall|j: int| 0 <= j < i ==> v@[j] == byte,
        decreases n - i,
    {
        v.push(byte);
        i = i + 1;
    }
    v
}

/// The data one pass writes, given the bytes drawn for it: the pass's
/// fixed byte repeated, or, for a pass without one, the drawn bytes as
/// they are.
pub fn pattern_for_pass(method: ShredMethod, pass_index: u8, drawn: Vec<u8>) -> (r: Vec<u8>)
    requires
        fixed_byte(method, pass_index) is None ==> drawn@.len() == pattern_size(),
    ensures
        r@.len() == pattern_size(),
        fixed_byte(method, pass_index) matches Some(b) ==> forall|j: int|
            0 <= j < r@.len() ==> r@[j] == b,
        fixed_byte(method, pass_index) is None ==> r@ == drawn@,
{
    match fixed_byte_exec(method, pass_index) {
        Some(b) => filled(b, 4096),
        None => drawn,
    }
}

/// The data one pass writes, repeated over the whole file: a fixed byte,
/// or bytes drawn from the random generator for the passes without one.
pub fn pass_pattern(method: ShredMethod, pass_index: u8) -> (r: Vec<u8>)
    ensures
        r@.len() == pattern_size(),
        fixed_byte(method, pass_index) matches Some(b) ==> forall|j: int|
            0 <= j < r@.len() ==> r@[j] == b,
{
    let drawn = match fixed_byte_exec(method, pass_index) {
        Some(_) => Vec::new(),
        None => random_pattern(4096),
    };
    pattern_for_pass(method, pass_index, drawn)
}

fn fixed_byte_exec(method: ShredMethod, pass_index: u8) -> (r: Option<u8>)
    ensures
        r == fixed_byte(method, pass_index),
{
    match method {
        ShredMethod::Dod5220 => match pass_index {
            0 => Some(0x00),
            1 => Some(0xFF),
            _ => None,
        },
        ShredMethod::SevenPass => match pass_index {
            0 => Some(0x00),
            1 => Some(0xFF),
            2 => Some(0xAA),
            3 => Some(0x55),
            _ => None,
        },
        _ => None,
    }
}

/// The length of the next write: the rest of the file, but at most one
/// pattern.
pub fn next_chunk_len(remaining: u64, pattern_len: usize) -> (r: usize)
    ensures
        r == (if remaining < pattern_len {
            remaining as int
        } else {
            pattern_len as int
        }),
{
    if remaining < pattern_len as u64 {
        remaining as usize
    } else {
        pattern_len
    }
}

/// Check that a path can be shredded as a file: it must exist and must
/// not be a directory.
pub fn check_shred_target(path: &str, exists: bool, is_dir: bool) -> (r: Result<(), PrivyFileError>)
    ensures
        !exists ==> (r matches Err(PrivyFileError::NotFound(p)) && p@ == path@),
        exists && is_dir ==> (r matches Err(PrivyFileError::Shred(m)) && m@
            == "Path is a directory; use shred_folder"@),
        exists && !is_dir ==> r is Ok,
{
    if !exists {
        return Err(PrivyFileError::NotFound(owned(path)));
    }
    if is_dir {
        return Err(PrivyFileError::Shred(owned("Path is a directory; use shred_folder")));
    }
    Ok(())
}

/// Check that a folder can be shredded: it must exist.
pub fn check_shred_folder(path: &str, exists: bool) -> (r: Result<(), PrivyFileError>)
    ensures
        !exists ==> (r matches Err(PrivyFileError::NotFound(p)) && p@ == path@),
        exists ==> r is Ok,
{
    if !exists {
        return Err(PrivyFileError::NotFound(owned(path)));
    }
    Ok(())
}

/// The record of a completed shred: every pass overwrote the whole file,
/// and the file was deleted.
pub fn shred_result(path: &str, passes: u8, file_len: u64) -> (r: ShredResult)
    requires
        passes * file_len <= u64::MAX,
    ensures
        r.file_path@ == path@,
        r.passes_completed == passes,
        r.bytes_overwritten == passes * file_len,
        r.deleted,
{
    let mut total: u64 = 0;
    let mut pass: u8 = 0;
    while pass < passes
        invariant
            pass <= passes,
            passes * file_len <= u64::MAX,
            total == pass * file_len,
        decreases passes - pass,
    {
        proof {
            assert((pass + 1) * file_len <= passes * file_len) by (nonlinear_arith)
                requires
                    pass + 1 <= passes,
            ;
            assert((pass + 1) * file_len == pass * file_len + file_len) by (nonlinear_arith);
        }
        total = total + file_len;
        pass = pass + 1;
    }
    ShredResult { file_path: owned(path), passes_completed: passes, bytes_overwritten: total, deleted: true }
}

/// Does the path look like it is on solid-state storage (it names "ssd"
/// or "nvme", in any ASCII case)?
pub fn is_likely_ssd(path: &str) -> (r: bool)
    ensures
        r == (contains_seq(ascii_lower(path@), "ssd"@) || contains_seq(
            ascii_lower(path@),
            "nvme"@,
        )),
{
    let lower = ascii_lowercase(path);
    str_contains(lower.as_str(), "ssd") || str_contains(lower.as_str(), "nvme")
}

/// The caution shown before shredding.
pub open spec fn warning_text() -> Seq<char> {
    "Secure deletion cannot be guaranteed on SSDs or flash storage due to wear leveling and TRIM. Overwriting may not reach all physical blocks. Use full-disk encryption for stronger protection."@
}

/// The caution shown before shredding.
pub fn shred_warning_message() -> (r: &'static str)
    ensures
        r@ == warning_text(),
{
    "Secure deletion cannot be guaranteed on SSDs or flash storage due to wear leveling and TRIM. Overwriting may not reach all physical blocks. Use full-disk encryption for stronger protection."
}

/// The caution shown before shredding, as an owned string.
pub fn shred_warning() -> (r: String)
    ensures
        r@ == warning_text(),
{
    owned(shred_warning_message())
}

/// Every method makes at least one pass and at most 255; the fixed methods
/// make exactly 1, 3 and 7 passes, and each of their passes but the
/// random ones writes a single repeated byte.
pub proof fn law_pass_counts(method: ShredMethod, requested: u8)
    ensures
        1 <= passes_for(method, requested) <= 255,
        passes_for(ShredMethod::Random1Pass, requested) == 1,
        passes_for(ShredMethod::Dod5220, requested) == 3,
        passes_for(ShredMethod::SevenPass, requested) == 7,
        requested >= 1 ==> passes_for(ShredMethod::Custom, requested) == requested,
{
}

/// The patterns of the fixed passes of the seven-pass method are pairwise
/// different, and so are those of DoD.
pub proof fn law_fixed_passes_differ(method: ShredMethod, i: u8, j: u8)
    requires
        i != j,
        fixed_byte(method, i) is Some,
        fixed_byte(method, j) is Some,
    ensures
        fixed_byte(method, i) != fixed_byte(method, j),
{
}

/// Which passes write a fixed byte, and which: the seven-pass method writes
/// 0x00, 0xFF, 0xAA and 0x55 on its first four passes, DoD 5220.22-M 0x00
/// and 0xFF on its first two; every other pass, and every pass of the other
/// methods, writes random data. So DoD's fixed passes are the first two of
/// the seven-pass method's.
pub proof fn law_fixed_pass_bytes(method: ShredMethod, pass_index: u8)
    ensures
        fixed_byte(method, pass_index) is Some <==> ((method == ShredMethod::SevenPass
            && pass_index < 4) || (method == ShredMethod::Dod5220 && pass_index < 2)),
        fixed_byte(method, pass_index) matches Some(b) ==> b == seq![0x00u8, 0xFFu8, 0xAAu8, 0x55u8][pass_index as int],
        pass_index < 2 ==> fixed_byte(ShredMethod::Dod5220, pass_index) == fixed_byte(
            ShredMethod::SevenPass,
            pass_index,
        ),
{
}

} // verus!
