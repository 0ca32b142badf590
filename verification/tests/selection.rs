use backup_zip::application::{
    archive_name, compress_command, get_name_only, is_valid_directory, is_valid_directory_name,
    is_valid_file, is_valid_file_name, plan_copy, temp_dir_path, CopyStep, EntryKind,
};
use backup_zip::pathname::join_path;
use backup_zip::util::{LocalFields, Util};
use backup_zip::pattern::try_matches;

#[test]
fn excluded_directory_names() {
    for name in [
        "node_modules", ".git", "dist", ".nuxt", "Debug", "Release", "ReleaseDebug", "target",
        "ipch", "x64",
    ] {
        assert!(!is_valid_directory_name(name), "{}", name);
    }
    for name in ["src", "Target", "debug", "x86", ".github", "node_module", ""] {
        assert!(is_valid_directory_name(name), "{}", name);
    }
}

#[test]
fn directories_are_judged_by_their_last_component() {
    assert!(!is_valid_directory("/home/user/project/target"));
    assert!(!is_valid_directory("project/.git/"));
    assert!(is_valid_directory("/home/user/target/src"));
    assert!(is_valid_directory("docs"));
}

#[test]
fn name_only_is_the_last_component() {
    assert_eq!(get_name_only("/a/b/c.txt"), "c.txt");
    assert_eq!(get_name_only("dir/sub/"), "sub");
    assert_eq!(get_name_only("plain"), "plain");
}

#[test]
fn regex_search() {
    assert!(backup_zip::pattern::matches(".VC.db$", "proj.VC.db"));
    assert!(backup_zip::pattern::matches(".VC.db$", "projxVCxdb"));
    assert!(!backup_zip::pattern::matches(".VC.db$", "proj.VC.db.bak"));
    assert_eq!(try_matches(".ipch$", "a.ipch"), Some(true));
    assert_eq!(try_matches(".ipch$", "a.pch"), Some(false));
    assert_eq!(try_matches("(", "a"), None);
}

#[test]
fn excluded_file_names() {
    assert!(!is_valid_file_name("proj-20240131-1230.zip"));
    assert!(!is_valid_file_name("proj-20240131-123045.zip"));
    assert!(!is_valid_file_name("Solution.VC.db"));
    assert!(!is_valid_file_name("cache.ipch"));
    assert!(is_valid_file_name("main.rs"));
    assert!(is_valid_file_name("proj-19990131-1230.zip"));
    assert!(is_valid_file_name("proj-20240131-1230.zip.bak"));
    assert!(is_valid_file_name("Solution.VC.db-wal"));
    assert!(!is_valid_file_name("x.VC.db"));
    assert!(!is_valid_file_name("xVCydb"));
    assert!(is_valid_file_name("\nVC.db"));
    assert!(!is_valid_file_name("-20991231-2359.zip"));
    assert!(is_valid_file_name("-2099123-2359.zip"));
    assert!(is_valid_file_name("-20991231-2359\nzip"));
    assert!(is_valid_file_name("notes.txt"));
}

#[test]
fn files_are_judged_by_their_last_component() {
    assert!(!is_valid_file("/home/user/backup-20230101-0000.zip"));
    assert!(is_valid_file("/home/user/20230101/readme.md"));
}

#[test]
fn archives_of_this_tool_are_not_copied_again() {
    let archive = archive_name("/home/user/proj", "20240131-123045");
    assert_eq!(archive, "/home/user/proj-20240131-123045.zip");
    let name = get_name_only(&archive);
    assert!(!is_valid_file_name(&name));
}

#[test]
fn copy_plans() {
    assert_eq!(plan_copy("/a/missing", EntryKind::Missing), CopyStep::ReportMissing);
    assert_eq!(plan_copy("/a/fifo", EntryKind::Other), CopyStep::ReportUnknown);
    assert_eq!(plan_copy("/a/target", EntryKind::Directory), CopyStep::SkipDirectory);
    assert_eq!(plan_copy("/a/src", EntryKind::Directory), CopyStep::CopyDirectory);
    assert_eq!(plan_copy("/", EntryKind::Directory), CopyStep::NoFileName);
    assert_eq!(plan_copy("a/..", EntryKind::File), CopyStep::NoFileName);
    assert_eq!(plan_copy("/a/b-20240131-1230.zip", EntryKind::File), CopyStep::SkipFile);
    assert_eq!(plan_copy("/a/x.ipch", EntryKind::File), CopyStep::SkipFile);
    assert_eq!(plan_copy("/a/x.rs", EntryKind::File), CopyStep::CopyFile);
}

#[test]
fn staging_directory() {
    assert_eq!(
        temp_dir_path("/home/user/proj", "20240131-123045"),
        Some(join_path("C:\\tmp\\.20240131-123045.tmp", "proj"))
    );
    assert_eq!(temp_dir_path("/", "20240131-123045"), None);
}

#[test]
fn joining_paths() {
    assert_eq!(join_path("/a", "b"), "/a/b");
    assert_eq!(join_path("/a/", "b"), "/a/b");
    assert_eq!(join_path("/a", "/b"), "/b");
}

#[test]
fn archive_named_now_is_not_copied_again() {
    let now = LocalFields {
        year: 2024, month: 1, day: 31, hour: 12, minute: 30, second: 45, nanosecond: 0,
    };
    let stamp = Util::timestamp1(&now).expect("a valid date");
    let archive = archive_name("/home/user/proj", &stamp);
    assert!(!is_valid_file_name(&get_name_only(&archive)));
    assert_eq!(plan_copy(&archive, EntryKind::File), CopyStep::SkipFile);
}

#[test]
fn directories_depend_on_the_last_component_only() {
    for name in ["target", "src", ".git", "docs"] {
        for base in ["/a", "b/c", "", "/"] {
            let joined = join_path(base, name);
            assert_eq!(get_name_only(&joined), name);
            assert_eq!(is_valid_directory(&joined), is_valid_directory_name(name));
        }
    }
}

#[test]
fn seven_zip_command_line() {
    let (program, args) = compress_command("C:\\tmp\\.x.tmp\\proj", "D:\\proj-20240131-123045.zip");
    assert_eq!(program, "C:\\Program Files\\7-Zip\\7z.exe");
    assert_eq!(args, vec!["a", "D:\\proj-20240131-123045.zip", "C:\\tmp\\.x.tmp\\proj"]);
}

#[test]
fn name_only_of_a_name_is_itself() {
    for path in ["/a/b/c.txt", "dir/sub/", "plain", "x/y.tar.gz"] {
        let name = get_name_only(path);
        assert_eq!(get_name_only(&name), name);
    }
}

#[test]
fn plain_names_are_judged_as_themselves() {
    assert!(!is_valid_directory("target"));
    assert!(is_valid_directory("src"));
    assert!(!is_valid_file("build.ipch"));
    assert!(is_valid_file("notes.txt"));
}
