//! What the backup copies, and how its staging directory and archive are
//! named.

use vstd::prelude::*;
use crate::pathname::{colon_free, file_name_of, join_path, normal_component, path_file_name, path_joined};
use crate::decimal::{decimal_digits, digit_char, padded_decimal};
use crate::util::{compact_stamp_text, LocalFields};
use crate::pattern::{
    ends_like_archive_stamp, ends_like_ipch_cache, ends_like_minutes_stamp, ends_like_vc_database,
    is_ascii_digit, tail, try_matches,
};

verus! {

// ----------------------------------------------------------------------------
// Directories
// ----------------------------------------------------------------------------

/// Directory names whose trees are never copied: dependency caches, version
/// control data and build outputs.
pub open spec fn excluded_directory_name(name: Seq<char>) -> bool {
    ||| name == "node_modules"@
    ||| name == ".git"@
    ||| name == "dist"@
    ||| name == ".nuxt"@
    ||| name == "Debug"@
    ||| name == "Release"@
    ||| name == "ReleaseDebug"@
    ||| name == "target"@
    ||| name == "ipch"@
    ||| name == "x64"@
}

/// Whether two strings hold the same characters.
pub(crate) fn same_text(a: &str, b: &str) -> (r: bool)
    ensures
        r == (a@ == b@),
{
    a.to_owned() == b.to_owned()
}

/// Whether a directory called `name` is copied.
pub fn is_valid_directory_name(name: &str) -> (r: bool)
    ensures
        r == !excluded_directory_name(name@),
{
    !(same_text(name, "node_modules") || same_text(name, ".git") || same_text(name, "dist")
        || same_text(name, ".nuxt") || same_text(name, "Debug") || same_text(name, "Release")
        || same_text(name, "ReleaseDebug") || same_text(name, "target") || same_text(name, "ipch")
        || same_text(name, "x64"))
}

/// Whether the directory at `dir` is copied, judged by its final component;
/// a plain name is judged as itself.
pub fn is_valid_directory(dir: &str) -> (r: bool)
    requires
        path_file_name(dir@) is Some,
    ensures
        r == !excluded_directory_name(path_file_name(dir@)->0),
        normal_component(dir@) ==> r == !excluded_directory_name(dir@),
{
    let name = get_name_only(dir);
    is_valid_directory_name(name.as_str())
}

/// The final component of `path`. A plain name is its own final component,
/// and so, when it holds no `:`, is the component returned.
pub fn get_name_only(path: &str) -> (r: String)
    requires
        path_file_name(path@) is Some,
    ensures
        r@ == path_file_name(path@)->0,
        normal_component(path@) ==> r@ == path@,
        colon_free(r@) ==> path_file_name(r@) == Some(r@),
{
    match file_name_of(path) {
        Some(name) => name,
        None => String::new(),
    }
}

// ----------------------------------------------------------------------------
// Files
// ----------------------------------------------------------------------------

/// Archives this tool has written before: `-20YYMMDD-HHMM.zip`.
pub open spec fn archive_stamp_minutes() -> Seq<char> {
    "-20[0-9][0-9][0-9][0-9][0-9][0-9]-[0-9][0-9][0-9][0-9].zip$"@
}

/// Archives this tool has written before: `-20YYMMDD-HHMMSS.zip`.
pub open spec fn archive_stamp_seconds() -> Seq<char> {
    "-20[0-9][0-9][0-9][0-9][0-9][0-9]-[0-9][0-9][0-9][0-9][0-9][0-9].zip$"@
}

/// Visual C++ browsing databases.
pub open spec fn vc_database() -> Seq<char> {
    ".VC.db$"@
}

/// Visual C++ precompiled-header caches.
pub open spec fn ipch_cache() -> Seq<char> {
    ".ipch$"@
}

/// Whether a file called `name` is left out: it ends like an archive this
/// tool has written (`-20YYMMDD-HHMM.zip` or `-20YYMMDD-HHMMSS.zip`), a
/// Visual C++ browsing database (`.VC.db`) or a precompiled-header cache
/// (`.ipch`), each as the four exclusion patterns read.
pub open spec fn excluded_file_name(name: Seq<char>) -> bool {
    ||| ends_like_minutes_stamp(name)
    ||| ends_like_archive_stamp(name)
    ||| ends_like_vc_database(name)
    ||| ends_like_ipch_cache(name)
}

/// Whether a file called `name` is copied: the exclusion patterns are tried
/// in order, and the first that matches rejects the file.
pub fn is_valid_file_name(name: &str) -> (r: bool)
    ensures
        r == !excluded_file_name(name@),
{
    match try_matches("-20[0-9][0-9][0-9][0-9][0-9][0-9]-[0-9][0-9][0-9][0-9].zip$", name) {
        Some(true) => return false,
        _ => {},
    }
    match try_matches("-20[0-9][0-9][0-9][0-9][0-9][0-9]-[0-9][0-9][0-9][0-9][0-9][0-9].zip$", name) {
        Some(true) => return false,
        _ => {},
    }
    match try_matches(".VC.db$", name) {
        Some(true) => return false,
        _ => {},
    }
    match try_matches(".ipch$", name) {
        Some(true) => false,
        _ => true,
    }
}

/// Whether the file at `path` is copied, judged by its final component.
pub fn is_valid_file(path: &str) -> (r: bool)
    requires
        path_file_name(path@) is Some,
    ensures
        r == !excluded_file_name(path_file_name(path@)->0),
{
    let name = get_name_only(path);
    is_valid_file_name(name.as_str())
}

// ----------------------------------------------------------------------------
// Copying a tree
// ----------------------------------------------------------------------------

/// What the file system holds at a source path.
#[derive(Clone, Copy, Debug, PartialEq, Eq, Structural)]
pub enum EntryKind {
    /// Nothing.
    Missing,
    /// A directory.
    Directory,
    /// A regular file.
    File,
    /// Something else.
    Other,
}

/// What the copy does with a source path.
#[derive(Clone, Copy, Debug, PartialEq, Eq, Structural)]
pub enum CopyStep {
    /// Report the path as invalid; nothing is copied.
    ReportMissing,
    /// An excluded directory; nothing is copied.
    SkipDirectory,
    /// Create the directory at the destination and copy each entry into it.
    CopyDirectory,
    /// An excluded file; nothing is copied.
    SkipFile,
    /// Copy the file; it counts as one copied file.
    CopyFile,
    /// Warn of an unknown kind of entry; nothing is copied.
    ReportUnknown,
    /// The path has no final component to judge it by.
    NoFileName,
}

/// The step for a source path holding an entry of the given kind.
pub open spec fn copy_step(source: Seq<char>, kind: EntryKind) -> CopyStep {
    match kind {
        EntryKind::Missing => CopyStep::ReportMissing,
        EntryKind::Directory => match path_file_name(source) {
            None => CopyStep::NoFileName,
            Some(name) => if excluded_directory_name(name) {
                CopyStep::SkipDirectory
            } else {
                CopyStep::CopyDirectory
            },
        },
        EntryKind::File => match path_file_name(source) {
            None => CopyStep::NoFileName,
            Some(name) => if excluded_file_name(name) {
                CopyStep::SkipFile
            } else {
                CopyStep::CopyFile
            },
        },
        EntryKind::Other => CopyStep::ReportUnknown,
    }
}

/// Decides what the copy does with `source`, an entry of kind `kind`.
pub fn plan_copy(source: &str, kind: EntryKind) -> (r: CopyStep)
    ensures
        r == copy_step(source@, kind),
{
    match kind {
        EntryKind::Missing => CopyStep::ReportMissing,
        EntryKind::Other => CopyStep::ReportUnknown,
        EntryKind::Directory => match file_name_of(source) {
            None => CopyStep::NoFileName,
            Some(_) => if is_valid_directory(source) {
                CopyStep::CopyDirectory
            } else {
                CopyStep::SkipDirectory
            },
        },
        EntryKind::File => match file_name_of(source) {
            None => CopyStep::NoFileName,
            Some(_) => if is_valid_file(source) {
                CopyStep::CopyFile
            } else {
                CopyStep::SkipFile
            },
        },
    }
}

// ----------------------------------------------------------------------------
// Laws of what is copied
// ----------------------------------------------------------------------------

/// A directory name is left out exactly when it is one of the ten listed
/// names `node_modules`, `.git`, `dist`, `.nuxt`, `Debug`, `Release`,
/// `ReleaseDebug`, `target`, `ipch` and `x64`; every other name is copied.
pub proof fn lemma_only_listed_directories_are_left_out(n: Seq<char>)
    ensures
        excluded_directory_name(n) <==> (n == "node_modules"@ || n == ".git"@ || n == "dist"@ || n == ".nuxt"@ || n == "Debug"@ || n == "Release"@ || n == "ReleaseDebug"@ || n == "target"@ || n == "ipch"@ || n == "x64"@),
{
}

/// The copy plan enters every directory whose final component is not one of
/// the ten listed names, and skips every directory whose final component is.
pub proof fn lemma_plan_enters_unlisted_directories(source: Seq<char>, n: Seq<char>)
    requires
        path_file_name(source) == Some(n),
    ensures
        !(n == "node_modules"@ || n == ".git"@ || n == "dist"@ || n == ".nuxt"@ || n == "Debug"@ || n == "Release"@ || n == "ReleaseDebug"@ || n == "target"@ || n == "ipch"@ || n == "x64"@) ==> copy_step(source, EntryKind::Directory) == CopyStep::CopyDirectory,
        (n == "node_modules"@ || n == ".git"@ || n == "dist"@ || n == ".nuxt"@ || n == "Debug"@ || n == "Release"@ || n == "ReleaseDebug"@ || n == "target"@ || n == "ipch"@ || n == "x64"@) ==> copy_step(source, EntryKind::Directory) == CopyStep::SkipDirectory,
{
}

/// A file name is left out exactly when it ends in one of four shapes, each
/// `D` an ASCII digit and each `?` a character other than a line feed:
/// `-20DDDDDD-DDDD?zip`, `-20DDDDDD-DDDDDD?zip`, `?VC?db` or `?ipch`. Every
/// other name is copied; in particular a name that ends in something other
/// than `p`, `b` or `h`.
pub proof fn lemma_only_listed_files_are_left_out(n: Seq<char>)
    ensures
        excluded_file_name(n) <==> {
            let l = n.len() as int;
            ||| (l >= 18 && n[l - 18] == '-' && n[l - 17] == '2' && n[l - 16] == '0'
                && (forall|i: int| l - 15 <= i < l - 9 ==> is_ascii_digit(#[trigger] n[i]))
                && n[l - 9] == '-'
                && (forall|i: int| l - 8 <= i < l - 4 ==> is_ascii_digit(#[trigger] n[i]))
                && n[l - 4] != '\n' && n[l - 3] == 'z' && n[l - 2] == 'i' && n[l - 1] == 'p')
            ||| (l >= 20 && n[l - 20] == '-' && n[l - 19] == '2' && n[l - 18] == '0'
                && (forall|i: int| l - 17 <= i < l - 11 ==> is_ascii_digit(#[trigger] n[i]))
                && n[l - 11] == '-'
                && (forall|i: int| l - 10 <= i < l - 4 ==> is_ascii_digit(#[trigger] n[i]))
                && n[l - 4] != '\n' && n[l - 3] == 'z' && n[l - 2] == 'i' && n[l - 1] == 'p')
            ||| (l >= 6 && n[l - 6] != '\n' && n[l - 5] == 'V' && n[l - 4] == 'C' && n[l - 3] != '\n'
                && n[l - 2] == 'd' && n[l - 1] == 'b')
            ||| (l >= 5 && n[l - 5] != '\n' && n[l - 4] == 'i' && n[l - 3] == 'p' && n[l - 2] == 'c'
                && n[l - 1] == 'h')
        },
        n.len() == 0 || (n.last() != 'p' && n.last() != 'b' && n.last() != 'h') ==> !excluded_file_name(n),
{
    lemma_minutes_shape(n);
    lemma_seconds_shape(n);
    let l = n.len() as int;
    if l >= 6 {
        let t = tail(n, 6);
        assert forall|i: int| 0 <= i < 6 implies t[i] == n[l - 6 + i] by {}
    }
    if l >= 5 {
        let t = tail(n, 5);
        assert forall|i: int| 0 <= i < 5 implies t[i] == n[l - 5 + i] by {}
    }
}

proof fn lemma_minutes_shape(n: Seq<char>)
    ensures
        ends_like_minutes_stamp(n) <==> {
            let l = n.len() as int;
            l >= 18 && n[l - 18] == '-' && n[l - 17] == '2' && n[l - 16] == '0'
                && (forall|i: int| l - 15 <= i < l - 9 ==> is_ascii_digit(#[trigger] n[i]))
                && n[l - 9] == '-'
                && (forall|i: int| l - 8 <= i < l - 4 ==> is_ascii_digit(#[trigger] n[i]))
                && n[l - 4] != '\n' && n[l - 3] == 'z' && n[l - 2] == 'i' && n[l - 1] == 'p'
        },
{
    let l = n.len() as int;
    if l >= 18 {
        let t = tail(n, 18);
        assert forall|i: int| 0 <= i < 18 implies t[i] == n[l - 18 + i] by {}
        if forall|i: int| 3 <= i < 9 ==> is_ascii_digit(#[trigger] t[i]) {
            assert forall|i: int| l - 15 <= i < l - 9 implies is_ascii_digit(#[trigger] n[i]) by {
                assert(t[i - (l - 18)] == n[i]);
            }
        }
        if forall|i: int| l - 15 <= i < l - 9 ==> is_ascii_digit(#[trigger] n[i]) {
            assert forall|i: int| 3 <= i < 9 implies is_ascii_digit(#[trigger] t[i]) by {
                assert(t[i] == n[l - 18 + i]);
            }
        }
        if forall|i: int| 10 <= i < 14 ==> is_ascii_digit(#[trigger] t[i]) {
            assert forall|i: int| l - 8 <= i < l - 4 implies is_ascii_digit(#[trigger] n[i]) by {
                assert(t[i - (l - 18)] == n[i]);
            }
        }
        if forall|i: int| l - 8 <= i < l - 4 ==> is_ascii_digit(#[trigger] n[i]) {
            assert forall|i: int| 10 <= i < 14 implies is_ascii_digit(#[trigger] t[i]) by {
                assert(t[i] == n[l - 18 + i]);
            }
        }
    }
}

proof fn lemma_seconds_shape(n: Seq<char>)
    ensures
        ends_like_archive_stamp(n) <==> {
            let l = n.len() as int;
            l >= 20 && n[l - 20] == '-' && n[l - 19] == '2' && n[l - 18] == '0'
                && (forall|i: int| l - 17 <= i < l - 11 ==> is_ascii_digit(#[trigger] n[i]))
                && n[l - 11] == '-'
                && (forall|i: int| l - 10 <= i < l - 4 ==> is_ascii_digit(#[trigger] n[i]))
                && n[l - 4] != '\n' && n[l - 3] == 'z' && n[l - 2] == 'i' && n[l - 1] == 'p'
        },
{
    let l = n.len() as int;
    if l >= 20 {
        let t = tail(n, 20);
        assert forall|i: int| 0 <= i < 20 implies t[i] == n[l - 20 + i] by {}
        if forall|i: int| 3 <= i < 9 ==> is_ascii_digit(#[trigger] t[i]) {
            assert forall|i: int| l - 17 <= i < l - 11 implies is_ascii_digit(#[trigger] n[i]) by {
                assert(t[i - (l - 20)] == n[i]);
            }
        }
        if forall|i: int| l - 17 <= i < l - 11 ==> is_ascii_digit(#[trigger] n[i]) {
            assert forall|i: int| 3 <= i < 9 implies is_ascii_digit(#[trigger] t[i]) by {
                assert(t[i] == n[l - 20 + i]);
            }
        }
        if forall|i: int| 10 <= i < 16 ==> is_ascii_digit(#[trigger] t[i]) {
            assert forall|i: int| l - 10 <= i < l - 4 implies is_ascii_digit(#[trigger] n[i]) by {
                assert(t[i - (l - 20)] == n[i]);
            }
        }
        if forall|i: int| l - 10 <= i < l - 4 ==> is_ascii_digit(#[trigger] n[i]) {
            assert forall|i: int| 10 <= i < 16 implies is_ascii_digit(#[trigger] t[i]) by {
                assert(t[i] == n[l - 20 + i]);
            }
        }
    }
}

/// The copy plan copies every file whose final component is not left out by
/// the four exclusion patterns; in particular every name that ends in
/// something other than `p`, `b` or `h` is copied.
pub proof fn lemma_plan_copies_unlisted_files(source: Seq<char>, n: Seq<char>)
    requires
        path_file_name(source) == Some(n),
    ensures
        (n.len() == 0 || (n.last() != 'p' && n.last() != 'b' && n.last() != 'h'))
            ==> copy_step(source, EntryKind::File) == CopyStep::CopyFile,
        copy_step(source, EntryKind::File) == CopyStep::SkipFile ==> excluded_file_name(n),
{
    lemma_only_listed_files_are_left_out(n);
}

// ----------------------------------------------------------------------------
// Names of the staging directory and of the archive
// ----------------------------------------------------------------------------

/// The staging root for a time stamp: `C:\tmp\.<timestamp>.tmp`.
pub open spec fn staging_root(timestamp: Seq<char>) -> Seq<char> {
    "C:\\tmp\\."@ + timestamp + ".tmp"@
}

/// The staging directory for the tree at `path`: a directory of the same name
/// under the staging root of `timestamp`; `None` when `path` has no final
/// component.
pub fn temp_dir_path(path: &str, timestamp: &str) -> (r: Option<String>)
    ensures
        match path_file_name(path@) {
            None => r is None,
            Some(name) => r matches Some(dir) && dir@ == path_joined(staging_root(timestamp@), name)
                && (normal_component(name) ==> path_file_name(dir@) == Some(name)),
        },
{
    match file_name_of(path) {
        None => None,
        Some(_) => {
            let name = get_name_only(path);
            let mut root = String::new();
            root.append("C:\\tmp\\.");
            root.append(timestamp);
            root.append(".tmp");
            Some(join_path(root.as_str(), name.as_str()))
        },
    }
}

/// The archive's file name: `<path>-<timestamp>.zip`.
pub open spec fn archive_name_text(path: Seq<char>, timestamp: Seq<char>) -> Seq<char> {
    path + "-"@ + timestamp + ".zip"@
}

/// The name of the archive for the tree at `absolute_path`.
pub fn archive_name(absolute_path: &str, timestamp: &str) -> (r: String)
    ensures
        r@ == archive_name_text(absolute_path@, timestamp@),
{
    let mut name = absolute_path.to_owned();
    name.append("-");
    name.append(timestamp);
    name.append(".zip");
    name
}

/// The 7-Zip program that packs the staging directory.
pub open spec fn seven_zip_program() -> Seq<char> {
    "C:\\Program Files\\7-Zip\\7z.exe"@
}

/// The command that packs `path_to_directory` into `zip_archive_name`: the
/// 7-Zip program with the arguments `a <archive> <directory>`.
pub fn compress_command(path_to_directory: &str, zip_archive_name: &str) -> (r: (String, Vec<String>))
    ensures
        r.0@ == seven_zip_program(),
        r.1@.len() == 3,
        r.1@[0]@ == "a"@,
        r.1@[1]@ == zip_archive_name@,
        r.1@[2]@ == path_to_directory@,
{
    let program = "C:\\Program Files\\7-Zip\\7z.exe".to_owned();
    let mut args: Vec<String> = Vec::new();
    args.push("a".to_owned());
    args.push(zip_archive_name.to_owned());
    args.push(path_to_directory.to_owned());
    (program, args)
}

proof fn lemma_two_digits(n: nat)
    requires
        n < 100,
    ensures
        padded_decimal(n, 2) == seq![digit_char(n / 10), digit_char(n % 10)],
        is_ascii_digit(digit_char(n / 10)),
        is_ascii_digit(digit_char(n % 10)),
{
    reveal_with_fuel(decimal_digits, 3);
    if n < 10 {
        assert(padded_decimal(n, 2) =~= seq!['0', digit_char(n)]);
    } else {
        assert(decimal_digits(n / 10) == seq![digit_char(n / 10)]);
        assert(padded_decimal(n, 2) =~= seq![digit_char(n / 10), digit_char(n % 10)]);
    }
}

proof fn lemma_year_of_this_century(y: nat)
    requires
        2000 <= y <= 2099,
    ensures
        padded_decimal(y, 4) == seq!['2', '0'] + padded_decimal(y % 100, 2),
{
    reveal_with_fuel(decimal_digits, 5);
    lemma_two_digits(y % 100);
    assert(y / 10 / 10 / 10 == 2);
    assert((y / 10 / 10) % 10 == 0);
    assert((y / 10) % 10 == (y % 100) / 10);
    assert(y % 10 == (y % 100) % 10);
    assert(decimal_digits(y / 1000) == seq!['2']);
    assert(padded_decimal(y, 4) =~= seq!['2', '0'] + padded_decimal(y % 100, 2));
}

/// The archive that this tool writes for a tree, named with a time stamp of
/// this century, ends like a time-stamped archive name; by
/// `is_valid_file_name` such a file is never copied into a later backup.
#[verifier::spinoff_prover]
#[verifier::rlimit(60)]
pub proof fn lemma_own_archive_names_are_excluded(base: Seq<char>, f: LocalFields)
    requires
        f.in_range(),
        2000 <= f.year <= 2099,
    ensures
        ends_like_archive_stamp(archive_name_text(base, compact_stamp_text(f))),
        excluded_file_name(archive_name_text(base, compact_stamp_text(f))),
{
    reveal_strlit("-");
    reveal_strlit(".zip");
    lemma_year_of_this_century(f.year as nat);
    lemma_two_digits((f.year % 100) as nat);
    lemma_two_digits(f.month as nat);
    lemma_two_digits(f.day as nat);
    lemma_two_digits(f.hour as nat);
    lemma_two_digits(f.minute as nat);
    let sec = (f.second + f.nanosecond / 1_000_000_000) as nat;
    lemma_two_digits(sec);
    let c = compact_stamp_text(f);
    let t = archive_name_text(base, c);
    let s = t.subrange(t.len() - 20, t.len() as int);
    let y = (f.year % 100) as nat;
    let expected = seq!['-', '2', '0', digit_char(y / 10), digit_char(y % 10),
        digit_char(f.month as nat / 10), digit_char(f.month as nat % 10),
        digit_char(f.day as nat / 10), digit_char(f.day as nat % 10), '-',
        digit_char(f.hour as nat / 10), digit_char(f.hour as nat % 10),
        digit_char(f.minute as nat / 10), digit_char(f.minute as nat % 10),
        digit_char(sec / 10), digit_char(sec % 10), '.', 'z', 'i', 'p'];
    assert(c =~= expected.subrange(1, 16));
    assert(s =~= expected);
}

} // verus!
