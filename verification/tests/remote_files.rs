//! The remote file system: what is served from memory, what is asked for, and
//! what becomes of the answers.
use fresh_editor::error::{ChannelError, FaultKind, FsError};
use fresh_editor::json::Json;
use fresh_editor::model::{
    EntryType, FileMetadata, FilePermissions, FileSearchCursor, FileSearchOptions, UserIdentity,
    WriteOp,
};
use fresh_editor::protocol::{Params, PatchOp, RemoteDirEntry, RemoteMetadata, Request, Step};
use fresh_editor::remote::handles::{
    AppendingRemoteFileWriter, RemoteFileReader, RemoteFileWriter, SeekTo,
};
use fresh_editor::remote::prewarm::PrewarmAnswer;
use fresh_editor::remote::walk::{WalkAction, WalkEvent};
use fresh_editor::remote::{AgentChannel, RemoteFileSystem, RemoteSysInfo};

/// A file system over a link that nothing answers on.
fn fs_over_dead_transport() -> RemoteFileSystem {
    RemoteFileSystem::new(AgentChannel { id: 7, connected: false }, "test".to_string())
}

fn json(text: &str) -> Json {
    Json::from_value(serde_json::from_str(text).unwrap())
}

fn user() -> UserIdentity {
    UserIdentity { euid: 1000, groups: vec![1000, 27] }
}

fn ready<T>(step: Step<T>) -> T {
    match step {
        Step::Ready(value) => value,
        Step::Ask(question) => panic!("asked for {}", question.method),
    }
}

fn asked<T>(step: Step<T>) -> Request {
    match step {
        Step::Ready(_) => panic!("nothing was asked"),
        Step::Ask(question) => question,
    }
}

fn fault_of(error: FsError) -> (FaultKind, String) {
    match error {
        FsError::Fault { kind, message } => (kind, message),
        FsError::Link(e) => panic!("link error {}", e),
    }
}

fn remote(message: &str) -> ChannelError {
    ChannelError::Remote(message.to_string())
}

/// The fields of a request as texts, in order.
fn fields(question: &Request) -> Vec<(String, String)> {
    match &question.params {
        Params::Fields(all) => all
            .iter()
            .map(|(key, value)| (key.clone(), format!("{:?}", value)))
            .collect(),
        _ => panic!("no plain fields"),
    }
}

fn field(key: &str, value: Json) -> (String, String) {
    (key.to_string(), format!("{:?}", value))
}

fn text(value: &str) -> Json {
    Json::Str(value.to_string())
}

fn stat_record() -> RemoteMetadata {
    RemoteMetadata {
        size: 1234,
        mtime: 1700000000,
        mode: 0o644,
        uid: 1000,
        gid: 1000,
        dir: false,
        file: true,
        link: false,
    }
}

#[test]
fn prewarmed_reads_are_served_from_cache() {
    let mut fs = fs_over_dead_transport();
    let path = "/proj/notes.txt";
    fs.seed_prewarm_content(path, b"REMOTE NOTES\n".to_vec());

    assert_eq!(ready(fs.read_file(path)), b"REMOTE NOTES\n");
    assert_eq!(ready(fs.read_range(path, 0, 6)).unwrap(), b"REMOTE");
    assert!(matches!(fs.open_file(path), Step::Ready(_)));

    assert_eq!(
        ready(fs.read_range(path, 7, 100)).unwrap_err().kind(),
        Some(FaultKind::UnexpectedEof)
    );

    fs.clear_prewarm();
    assert!(fs.prewarm_is_empty());
    assert!(matches!(fs.read_file(path), Step::Ask(_)));
}

#[test]
fn test_convert_metadata() {
    let user = user();
    let (uid, gid) = (user.euid, *user.groups.first().unwrap_or(&0u32));
    let rm = RemoteMetadata {
        size: 1234,
        mtime: 1700000000,
        mode: 0o644,
        uid,
        gid,
        dir: false,
        file: true,
        link: false,
    };

    let meta = RemoteFileSystem::convert_metadata(&rm, "test.txt", Some(&user));
    assert_eq!(meta.size, 1234);
    assert!(!meta.is_hidden);
    assert!(!meta.is_readonly);

    let meta = RemoteFileSystem::convert_metadata(&rm, ".hidden", Some(&user));
    assert!(meta.is_hidden);
}

#[test]
fn test_convert_dir_entry() {
    let re = RemoteDirEntry {
        name: "file.rs".to_string(),
        path: "/home/user/file.rs".to_string(),
        dir: false,
        file: true,
        link: false,
        link_dir: false,
        size: 100,
        mtime: 1700000000,
        mode: 0o644,
    };

    let entry = RemoteFileSystem::convert_dir_entry(&re);
    assert_eq!(entry.name, "file.rs");
    assert_eq!(entry.entry_type, EntryType::File);
    assert!(!entry.is_symlink());
}

#[test]
fn metadata_keeps_every_field_of_the_record() {
    let meta = RemoteFileSystem::convert_metadata(&stat_record(), "a", Some(&user()));
    assert_eq!(
        meta,
        FileMetadata {
            size: 1234,
            modified: Some(1700000000),
            permissions: Some(FilePermissions::from_mode(0o644)),
            is_hidden: false,
            is_readonly: false,
            uid: Some(1000),
            gid: Some(1000),
        }
    );
    let undated = RemoteMetadata { mtime: 0, ..stat_record() };
    assert_eq!(RemoteFileSystem::convert_metadata(&undated, "a", Some(&user())).modified, None);
    let ancient = RemoteMetadata { mtime: -5, ..stat_record() };
    assert_eq!(RemoteFileSystem::convert_metadata(&ancient, "a", Some(&user())).modified, None);
    let foreign = RemoteMetadata { uid: 5, gid: 6, ..stat_record() };
    assert!(RemoteFileSystem::convert_metadata(&foreign, "a", Some(&user())).is_readonly);
    let shared = RemoteMetadata { uid: 5, gid: 27, mode: 0o664, ..stat_record() };
    assert!(!RemoteFileSystem::convert_metadata(&shared, "a", Some(&user())).is_readonly);
    let unowned = RemoteFileSystem::convert_metadata(&foreign, "a", None);
    assert!(!unowned.is_readonly);
    assert_eq!((unowned.uid, unowned.gid), (None, None));
}

#[test]
fn permissions_depend_on_the_class_of_the_user() {
    let group_only = FilePermissions::from_mode(0o060);
    assert_eq!(group_only.mode(), 0o060);
    assert!(!group_only.is_readonly());
    assert!(FilePermissions::from_mode(0o555).is_readonly());
    assert!(group_only.is_readonly_for_user(&user(), 1000, 27));
    assert!(!group_only.is_readonly_for_user(&user(), 5, 27));
    assert!(group_only.is_readonly_for_user(&user(), 5, 6));
    let root = UserIdentity { euid: 0, groups: vec![] };
    assert!(!FilePermissions::from_mode(0o000).is_readonly_for_user(&root, 5, 6));
}

#[test]
fn directory_entries_are_links_first() {
    let link = RemoteDirEntry {
        name: ".cfg".to_string(),
        path: "/h/.cfg".to_string(),
        dir: true,
        file: false,
        link: true,
        link_dir: true,
        size: 3,
        mtime: 0,
        mode: 0o444,
    };
    let entry = RemoteFileSystem::convert_dir_entry(&link);
    assert_eq!(entry.entry_type, EntryType::Symlink);
    assert!(entry.is_symlink());
    assert!(entry.symlink_target_is_dir);
    assert_eq!(entry.path, "/h/.cfg");
    let meta = entry.metadata.unwrap();
    assert!(meta.is_hidden);
    assert!(meta.is_readonly);
    assert_eq!(meta.size, 3);
    assert_eq!(meta.modified, None);
    assert_eq!(meta.uid, None);

    let dir = RemoteDirEntry { link: false, link_dir: false, ..link };
    assert_eq!(RemoteFileSystem::convert_dir_entry(&dir).entry_type, EntryType::Directory);
}

#[test]
fn remote_messages_decide_the_kind_of_a_fault() {
    for (message, kind) in [
        ("file not found", FaultKind::NotFound),
        ("No such file or directory", FaultKind::NotFound),
        ("permission denied: x", FaultKind::PermissionDenied),
        ("x is a directory", FaultKind::IsADirectory),
        ("x not a directory", FaultKind::NotADirectory),
        ("is a directory but not found", FaultKind::NotFound),
        ("Permission denied", FaultKind::Other),
        ("", FaultKind::Other),
    ] {
        let (found, said) = fault_of(RemoteFileSystem::to_io_error(remote(message)));
        assert_eq!(found, kind);
        assert_eq!(said, message);
    }
    let other = RemoteFileSystem::to_io_error(ChannelError::Other("closed".to_string()));
    assert_eq!(fault_of(other), (FaultKind::Other, "closed".to_string()));
    let link = std::io::Error::new(std::io::ErrorKind::TimedOut, "late");
    let passed = RemoteFileSystem::to_io_error(ChannelError::Io(link));
    assert_eq!(passed.kind(), None);
    assert!(matches!(passed, FsError::Link(e) if e.kind() == std::io::ErrorKind::TimedOut));
}

#[test]
fn a_live_read_joins_the_chunks() {
    let fs = fs_over_dead_transport();
    let question = asked(fs.read_file("/a b"));
    assert_eq!(question.method, "read");
    assert!(matches!(
        &question.params,
        Params::Read { path, offset: None, len: None } if path == "/a b"
    ));
    let chunks = vec![json(r#"{"data":"aGVs"}"#), json(r#"{"other":1}"#), json(r#"{"data":"bG8="}"#)];
    let bytes = RemoteFileSystem::read_file_reply(Ok((chunks, Json::Null))).unwrap();
    assert_eq!(bytes, b"hello");
    let broken = vec![json(r#"{"data":"a"}"#)];
    let e = RemoteFileSystem::read_file_reply(Ok((broken, Json::Null))).unwrap_err();
    assert_eq!(e.kind(), Some(FaultKind::InvalidData));
    let e = RemoteFileSystem::read_file_reply(Err(remote("not found"))).unwrap_err();
    assert_eq!(e.kind(), Some(FaultKind::NotFound));
}

#[test]
fn a_live_range_must_be_complete() {
    let fs = fs_over_dead_transport();
    let question = asked(fs.read_range("/a", 4, 5));
    assert!(matches!(
        &question.params,
        Params::Read { path, offset: Some(4), len: Some(5) } if path == "/a"
    ));
    let reply = || Ok((vec![json(r#"{"data":"aGVsbG8="}"#)], json(r#"{"size":5}"#)));
    assert_eq!(RemoteFileSystem::read_range_reply("/a", 4, 5, reply()).unwrap(), b"hello");
    let short = RemoteFileSystem::read_range_reply("/a", 4, 9, reply()).unwrap_err();
    assert_eq!(
        fault_of(short),
        (
            FaultKind::UnexpectedEof,
            "read_range: expected 9 bytes at offset 4, got 5 (agent reported: Some(5), path: /a)"
                .to_string()
        )
    );
    let unsized_reply = Ok((vec![], Json::Null));
    let short = RemoteFileSystem::read_range_reply("/a", 0, 1, unsized_reply).unwrap_err();
    assert_eq!(
        fault_of(short).1,
        "read_range: expected 1 bytes at offset 0, got 0 (agent reported: None, path: /a)"
    );
    let bad = Ok((vec![json(r#"{"data":"?"}"#)], Json::Null));
    let e = RemoteFileSystem::read_range_reply("/a", 0, 0, bad).unwrap_err();
    assert_eq!(e.kind(), Some(FaultKind::InvalidData));
    let e = RemoteFileSystem::read_range_reply("/a", 0, 0, Err(remote("gone"))).unwrap_err();
    assert_eq!(fault_of(e), (FaultKind::Other, "gone".to_string()));
}

#[test]
fn a_cached_range_says_how_long_the_file_is() {
    let mut fs = fs_over_dead_transport();
    fs.seed_prewarm_content("/p", b"0123456789".to_vec());
    assert_eq!(ready(fs.read_range("/p", 3, 4)).unwrap(), b"3456");
    assert_eq!(ready(fs.read_range("/p", 10, 0)).unwrap(), b"");
    let e = ready(fs.read_range("/p", 11, 0)).unwrap_err();
    assert_eq!(
        fault_of(e).1,
        "read_range: expected 0 bytes at offset 11, cached file is 10 bytes (path: /p)"
    );
    let e = ready(fs.read_range("/p", u64::MAX, 4)).unwrap_err();
    assert_eq!(e.kind(), Some(FaultKind::UnexpectedEof));
    let e = ready(fs.read_range("/p", 3, usize::MAX)).unwrap_err();
    assert_eq!(e.kind(), Some(FaultKind::UnexpectedEof));
}

#[test]
fn cached_ranges_join() {
    let mut fs = fs_over_dead_transport();
    fs.seed_prewarm_content("/p", b"0123456789".to_vec());
    let mut whole = ready(fs.read_range("/p", 2, 3)).unwrap();
    whole.extend(ready(fs.read_range("/p", 5, 4)).unwrap());
    assert_eq!(whole, ready(fs.read_range("/p", 2, 7)).unwrap());
    assert_eq!(ready(fs.read_range("/p", 0, 10)).unwrap(), ready(fs.read_file("/p")));
}

#[test]
fn prewarming_serves_a_path_under_both_its_names() {
    let mut fs = fs_over_dead_transport();
    let (realpath, stat, read) = RemoteFileSystem::prewarm_requests("/link/notes");
    assert_eq!((realpath.method, stat.method, read.method), ("realpath", "stat", "read"));
    fs.prewarm_paths(
        vec![PrewarmAnswer {
            path: "/link/notes".to_string(),
            realpath: Ok(json(r#"{"path":"/real/notes"}"#)),
            stat: Some(stat_record()),
            data: Ok((vec![json(r#"{"data":"aGk="}"#), json(r#"{"size":2}"#)], Json::Null)),
        }],
        Some(&user()),
    );
    for path in ["/link/notes", "/real/notes", "/real//notes/"] {
        assert_eq!(ready(fs.canonicalize(path)), "/real/notes");
        assert_eq!(ready(fs.read_file(path)), b"hi");
        assert_eq!(ready(fs.metadata(path)).size, 1234);
    }
    assert!(matches!(fs.canonicalize("/real/notes2"), Step::Ask(_)));
    assert!(matches!(fs.read_file("/real/notes2"), Step::Ask(_)));
    assert_eq!(fs.prewarm_canon("/real/notes"), Some("/real/notes".to_string()));
    assert_eq!(fs.prewarm_content("/link/notes"), Some(b"hi".to_vec()));
    assert_eq!(fs.prewarm_canon("/link/notes"), Some("/real/notes".to_string()));
    assert_eq!(fs.prewarm_meta("/x"), None);
}

#[test]
fn a_failed_prewarm_leaves_nothing_behind() {
    let mut fs = fs_over_dead_transport();
    fs.prewarm_path(
        PrewarmAnswer {
            path: "/p".to_string(),
            realpath: Err(remote("not found")),
            stat: None,
            data: Err(remote("not found")),
        },
        Some(&user()),
    );
    assert!(fs.prewarm_is_empty());
    fs.prewarm_path(
        PrewarmAnswer {
            path: "/p".to_string(),
            realpath: Ok(json(r#"{"path":"/p"}"#)),
            stat: None,
            data: Err(remote("not found")),
        },
        Some(&user()),
    );
    assert!(!fs.prewarm_is_empty());
    assert_eq!(fs.prewarm_content("/p"), None);
}

#[test]
fn contents_that_cannot_be_decoded_are_not_prewarmed() {
    let mut fs = fs_over_dead_transport();
    let reply = || Ok((vec![json(r#"{"data":"aGk="}"#), json(r#"{"data":"!"}"#)], Json::Null));
    fs.prewarm_path(
        PrewarmAnswer {
            path: "/p".to_string(),
            realpath: Ok(json(r#"{"path":"/q"}"#)),
            stat: Some(stat_record()),
            data: reply(),
        },
        Some(&user()),
    );
    assert_eq!(fs.prewarm_content("/p"), None);
    assert_eq!(fs.prewarm_content("/q"), None);
    assert!(matches!(fs.read_file("/p"), Step::Ask(_)));
    let e = RemoteFileSystem::read_file_reply(reply()).unwrap_err();
    assert_eq!(e.kind(), Some(FaultKind::InvalidData));
    assert_eq!(ready(fs.metadata("/q")).size, 1234);
}

#[test]
fn later_prewarms_replace_earlier_ones() {
    let mut fs = fs_over_dead_transport();
    let answer = |data: &str| PrewarmAnswer {
        path: "/p".to_string(),
        realpath: Err(remote("x")),
        stat: None,
        data: Ok((vec![Json::Object(vec![("data".to_string(), text(data))])], Json::Null)),
    };
    fs.prewarm_paths(vec![answer("aGk="), answer("aG8=")], None);
    assert_eq!(ready(fs.read_file("/p")), b"ho");
}

#[test]
fn appended_bytes_are_sent_once() {
    let mut writer = AppendingRemoteFileWriter::new("/log".to_string());
    assert_eq!(writer.write(b"ab"), 2);
    let failed = writer.sync_all_reply(Err(remote("permission denied"))).unwrap_err();
    assert_eq!(failed.kind(), Some(FaultKind::PermissionDenied));
    let question = writer.sync_all().unwrap();
    assert!(matches!(&question.params, Params::Append { data, .. } if data == b"ab"));
    assert!(writer.sync_all_reply(Ok(Json::Null)).is_ok());
    assert!(writer.sync_all().is_none());
    assert_eq!(writer.write(b"c"), 1);
    let question = writer.sync_all().unwrap();
    assert!(matches!(&question.params, Params::Append { path, data } if path == "/log" && data == b"c"));
}

#[test]
fn metadata_is_asked_for_and_named_after_the_file() {
    let fs = fs_over_dead_transport();
    let question = asked(fs.metadata("/h/.profile"));
    assert_eq!(question.method, "stat");
    assert!(matches!(&question.params, Params::Stat { path, follow: true } if path == "/h/.profile"));
    assert!(matches!(fs.symlink_metadata("/h").params, Params::Stat { follow: false, .. }));
    let meta =
        RemoteFileSystem::metadata_reply("/h/.profile", Ok(Ok(stat_record())), Some(&user())).unwrap();
    assert!(meta.is_hidden);
    let meta = RemoteFileSystem::metadata_reply("/h/.x/..", Ok(Ok(stat_record())), Some(&user())).unwrap();
    assert!(!meta.is_hidden);
    let bad = Ok(Err("missing field `size`".to_string()));
    assert_eq!(
        fault_of(RemoteFileSystem::metadata_reply("/h", bad, Some(&user())).unwrap_err()),
        (FaultKind::InvalidData, "missing field `size`".to_string())
    );
    let e = RemoteFileSystem::metadata_reply("/h", Err(remote("No such file")), Some(&user()));
    assert_eq!(e.unwrap_err().kind(), Some(FaultKind::NotFound));
}

#[test]
fn directories_without_entries_are_empty() {
    let fs = fs_over_dead_transport();
    let question = fs.read_dir("/h");
    assert_eq!(question.method, "ls");
    assert!(matches!(&question.params, Params::List { path } if path == "/h"));
    assert_eq!(RemoteFileSystem::read_dir_reply(Ok(None)).unwrap(), vec![]);
    let e = RemoteFileSystem::read_dir_reply(Err(remote("not a directory"))).unwrap_err();
    assert_eq!(e.kind(), Some(FaultKind::NotADirectory));
}

#[test]
fn flags_default_to_false() {
    let yes = || Ok(json(r#"{"dir":true,"file":true}"#));
    let odd = || Ok(json(r#"{"dir":1,"file":"true"}"#));
    assert!(RemoteFileSystem::is_dir_reply(yes()).unwrap());
    assert!(RemoteFileSystem::is_file_reply(yes()).unwrap());
    assert!(!RemoteFileSystem::is_dir_reply(odd()).unwrap());
    assert!(!RemoteFileSystem::is_file_reply(odd()).unwrap());
    assert!(!RemoteFileSystem::is_dir_reply(Ok(Json::Null)).unwrap());
    assert!(RemoteFileSystem::is_file_reply(Err(remote("x"))).is_err());
    let fs = fs_over_dead_transport();
    assert!(matches!(fs.is_dir("/d").params, Params::Stat { follow: true, .. }));
    assert!(matches!(fs.is_file("/d").params, Params::Stat { follow: true, .. }));
}

#[test]
fn line_feed_counts_must_be_there() {
    let fs = fs_over_dead_transport();
    let question = fs.count_line_feeds_in_range("/p", 3, 9);
    assert_eq!(question.method, "count_lf");
    assert!(matches!(&question.params, Params::CountLf { offset: 3, len: 9, .. }));
    let counted = RemoteFileSystem::count_line_feeds_reply(Ok(json(r#"{"count":12}"#)));
    assert_eq!(counted.unwrap(), 12);
    for reply in [r#"{"count":-1}"#, r#"{"count":1.5}"#, r#"{}"#, r#"[]"#] {
        let e = RemoteFileSystem::count_line_feeds_reply(Ok(json(reply))).unwrap_err();
        assert_eq!(
            fault_of(e),
            (FaultKind::InvalidData, "missing count in count_lf response".to_string())
        );
    }
}

#[test]
fn canonical_paths_must_be_there() {
    let fs = fs_over_dead_transport();
    let question = asked(fs.canonicalize("/p"));
    assert_eq!(question.method, "realpath");
    assert_eq!(fields(&question), vec![field("path", text("/p"))]);
    let canon = RemoteFileSystem::canonicalize_reply(Ok(json(r#"{"path":"/q"}"#)));
    assert_eq!(canon.unwrap(), "/q");
    let e = RemoteFileSystem::canonicalize_reply(Ok(json(r#"{"path":7}"#))).unwrap_err();
    assert_eq!(
        fault_of(e),
        (FaultKind::InvalidData, "missing path in response".to_string())
    );
}

#[test]
fn requests_name_their_operation() {
    let fs = fs_over_dead_transport();
    let question = fs.rename("/a", "/b");
    assert_eq!(question.method, "mv");
    assert_eq!(fields(&question), vec![field("from", text("/a")), field("to", text("/b"))]);
    assert_eq!(fs.copy("/a", "/b").method, "cp");
    assert_eq!(fs.remove_file("/a").method, "rm");
    assert_eq!(fs.remove_dir("/a").method, "rmdir");
    let question = fs.create_dir("/a");
    assert_eq!(question.method, "mkdir");
    assert_eq!(fields(&question), vec![field("path", text("/a"))]);
    let question = fs.create_dir_all("/a");
    assert_eq!(
        fields(&question),
        vec![field("path", text("/a")), field("parents", Json::Bool(true))]
    );
    let question = fs.set_permissions("/a", &FilePermissions::from_mode(0o600));
    assert_eq!(question.method, "chmod");
    assert_eq!(
        fields(&question),
        vec![field("path", text("/a")), field("mode", Json::UInt(0o600))]
    );
    let question = fs.write_file("/a", b"xy");
    assert_eq!(question.method, "write");
    assert!(matches!(&question.params, Params::Write { path, data } if path == "/a" && data == b"xy"));
    let question = fs.set_file_length("/a", 9);
    assert_eq!(question.method, "truncate");
    assert!(matches!(&question.params, Params::Truncate { len: 9, .. }));
    let question = fs.sudo_write("/a", b"z", 0o640, 1, 2);
    assert_eq!(question.method, "sudo_write");
    assert!(matches!(
        &question.params,
        Params::SudoWrite { mode: 0o640, uid: 1, gid: 2, .. }
    ));
}

#[test]
fn acknowledgements_carry_nothing() {
    assert!(RemoteFileSystem::acknowledge(Ok(Json::Null)).is_ok());
    let e = RemoteFileSystem::acknowledge(Err(remote("permission denied"))).unwrap_err();
    assert_eq!(e.kind(), Some(FaultKind::PermissionDenied));
    assert_eq!(RemoteFileSystem::copy_reply(Ok(json(r#"{"size":88}"#))).unwrap(), 88);
    assert_eq!(RemoteFileSystem::copy_reply(Ok(json(r#"{"size":null}"#))).unwrap(), 0);
}

#[test]
fn patching_in_place_names_one_path() {
    let fs = fs_over_dead_transport();
    let ops = vec![
        WriteOp::Copy { offset: 5, len: 6 },
        WriteOp::Insert { data: b"new".to_vec() },
    ];
    let expected = vec![
        PatchOp::Copy { offset: 5, len: 6 },
        PatchOp::Insert { data: b"new".to_vec() },
    ];
    let question = fs.write_patched("/a/b", "/a//./b", &ops);
    assert_eq!(question.method, "patch");
    match question.params {
        Params::Patch { src, dst, ops } => {
            assert_eq!(src, "/a/b");
            assert_eq!(dst, None);
            assert_eq!(ops, expected);
        }
        _ => panic!("no patch"),
    }
    match fs.write_patched("/a/b", "/a/c", &ops).params {
        Params::Patch { dst, .. } => assert_eq!(dst, Some("/a/c".to_string())),
        _ => panic!("no patch"),
    }
}

#[test]
fn connections_tell_their_name_and_state() {
    let mut fs = fs_over_dead_transport();
    assert_eq!(fs.connection_string(), "test");
    assert_eq!(fs.remote_connection_info(), Some("test"));
    assert_eq!(fs.remote_channel_id(), Some(7));
    assert_eq!(fs.current_uid(), 0);
    assert!(!fs.is_connected());
    fs.set_connected(true);
    assert!(fs.is_connected());
    assert!(fs.is_remote_connected());
}

#[test]
fn system_facts_are_asked_for_once() {
    let mut fs = fs_over_dead_transport();
    let question = fs.prime_sys_info().unwrap();
    assert_eq!(question.method, "info");
    assert_eq!(fields(&question), vec![]);
    let e = fs.prime_sys_info_reply(Err(remote("timed out"))).unwrap_err();
    assert_eq!(e.kind(), Some(FaultKind::Other));
    assert!(fs.prime_sys_info().is_some());
    assert!(fs.prime_sys_info_reply(Ok(json(r#"{"home":"/home/u"}"#))).is_ok());
    assert!(fs.prime_sys_info().is_none());
    assert_eq!(
        ready(fs.sys_info()),
        RemoteSysInfo { home: Some("/home/u".to_string()), temp_dir: "/tmp".to_string() }
    );
    assert!(fs.prime_sys_info_reply(Ok(json(r#"{"home":"/other"}"#))).is_ok());
    assert_eq!(ready(fs.home_dir()).unwrap(), "/home/u");
}

#[test]
fn home_may_be_unknown() {
    let mut fs = fs_over_dead_transport();
    assert_eq!(asked(fs.home_dir()).method, "info");
    let unknown = (FaultKind::NotFound, "remote home directory unknown".to_string());
    assert_eq!(fault_of(fs.home_dir_reply(Err(remote("x"))).unwrap_err()), unknown);
    assert!(matches!(fs.sys_info(), Step::Ask(_)));
    assert_eq!(fault_of(fs.home_dir_reply(Ok(json(r#"{"home":3}"#))).unwrap_err()), unknown);
    assert!(matches!(fs.sys_info(), Step::Ready(_)));
    assert_eq!(fault_of(ready(fs.home_dir()).unwrap_err()), unknown);
}

#[test]
fn temporary_paths_stand_in_the_remote_temp_dir() {
    let mut fs = fs_over_dead_transport();
    assert!(matches!(fs.unique_temp_path("/a/b.txt", 12, 34), Step::Ask(_)));
    let fallback = fs.unique_temp_path_reply(Err(remote("x")), "/a/b.txt", 12, 34);
    assert_eq!(fallback, "/tmp/b.txt-12-34.tmp");
    let told = fs.unique_temp_path_reply(Ok(json(r#"{"temp_dir":"/var/t/"}"#)), "/", 12, 34);
    assert_eq!(told, "/var/t/fresh-save-12-34.tmp");
    assert_eq!(ready(fs.unique_temp_path("x", 0, 1)), "/var/t/x-0-1.tmp");
    assert_eq!(RemoteFileSystem::parse_temp_dir_from_info(None), "/tmp");
    assert_eq!(RemoteFileSystem::parse_temp_dir_from_info(Some(&json(r#"{"temp_dir":1}"#))), "/tmp");
    let facts = RemoteFileSystem::parse_sys_info(&json(r#"{"temp_dir":"/t"}"#));
    assert_eq!(facts, RemoteSysInfo { home: None, temp_dir: "/t".to_string() });
}

#[test]
fn readers_read_and_seek() {
    let mut reader = RemoteFileReader::new(b"0123456789".to_vec());
    let mut buf = vec![0u8; 4];
    assert_eq!(reader.read(&mut buf), 4);
    assert_eq!(buf, b"0123");
    assert_eq!(reader.seek(SeekTo::End(-3)).unwrap(), 7);
    assert_eq!(reader.read(&mut buf), 3);
    assert_eq!(buf, b"7893");
    assert_eq!(reader.read(&mut buf), 0);
    assert_eq!(reader.seek(SeekTo::Start(100)).unwrap(), 100);
    assert_eq!(reader.read(&mut buf), 0);
    assert_eq!(reader.seek(SeekTo::Current(-98)).unwrap(), 2);
    assert_eq!(reader.read(&mut buf), 4);
    assert_eq!(buf, b"2345");
    let e = reader.seek(SeekTo::Current(-7)).unwrap_err();
    assert_eq!(
        fault_of(e),
        (
            FaultKind::InvalidInput,
            "invalid seek to a negative or overflowing position".to_string()
        )
    );
    assert_eq!(reader.seek(SeekTo::Current(0)).unwrap(), 6);
    let opened = RemoteFileSystem::open_file_reply(Ok((
        vec![json(r#"{"data":"aGk="}"#)],
        Json::Null,
    )));
    let mut two = vec![0u8; 2];
    assert_eq!(opened.unwrap().read(&mut two), 2);
    assert_eq!(two, b"hi");
}

#[test]
fn writers_send_what_they_hold() {
    let fs = fs_over_dead_transport();
    assert_eq!(fs.create_file("/f").method, "write");
    let mut writer = RemoteFileSystem::create_file_reply("/f", Ok(Json::Null)).unwrap();
    assert_eq!(writer.write(b"ab"), 2);
    writer.flush();
    assert_eq!(writer.write(b"c"), 1);
    let question = writer.sync_all();
    assert_eq!(question.method, "write");
    assert!(matches!(&question.params, Params::Write { path, data } if path == "/f" && data == b"abc"));
    assert!(RemoteFileSystem::create_file_reply("/f", Err(remote("x"))).is_err());
    let empty = fs.open_file_for_write("/g");
    assert!(matches!(empty.sync_all().params, Params::Write { data, .. } if data.is_empty()));
    assert_eq!(RemoteFileWriter::new("/h".to_string()).sync_all().method, "write");

    let mut appender = fs.open_file_for_append("/log");
    assert!(appender.sync_all().is_none());
    assert_eq!(appender.write(b"line"), 4);
    appender.flush();
    let question = appender.sync_all().unwrap();
    assert_eq!(question.method, "append");
    assert!(matches!(&question.params, Params::Append { path, data } if path == "/log" && data == b"line"));
    assert!(AppendingRemoteFileWriter::new("/log".to_string()).sync_all().is_none());
}

#[test]
fn searching_moves_the_cursor() {
    let fs = fs_over_dead_transport();
    let opts = FileSearchOptions {
        fixed_string: true,
        case_sensitive: false,
        whole_word: true,
        max_matches: 50,
    };
    let mut cursor = FileSearchCursor { offset: 3, running_line: 2, end_offset: Some(90), done: false };
    let question = fs.search_file("/p", "needle", &opts, &cursor).unwrap();
    assert_eq!(question.method, "search_file");
    assert_eq!(
        fields(&question),
        vec![
            field("path", text("/p")),
            field("pattern", text("needle")),
            field("fixed_string", Json::Bool(true)),
            field("case_sensitive", Json::Bool(false)),
            field("whole_word", Json::Bool(true)),
            field("max_matches", Json::UInt(50)),
            field("offset", Json::UInt(3)),
            field("running_line", Json::UInt(2)),
            field("end_offset", Json::UInt(90)),
        ]
    );
    let reply = json(
        r#"{"next_offset":40,"running_line":5,"done":false,"matches":[
            {"byte_offset":7,"length":6,"line":2,"column":1,"context":"a needle"},
            {"byte_offset":9,"length":6,"line":2,"column":1},
            {"byte_offset":30,"length":6,"line":4,"column":3,"context":"needle"}]}"#,
    );
    let found = RemoteFileSystem::search_file_reply(&mut cursor, Ok(reply)).unwrap();
    assert_eq!(found.len(), 2);
    assert_eq!(found[0].context, "a needle");
    assert_eq!((found[1].byte_offset, found[1].line, found[1].column), (30, 4, 3));
    assert_eq!(
        cursor,
        FileSearchCursor { offset: 40, running_line: 5, end_offset: Some(90), done: false }
    );
    let before = cursor;
    assert!(RemoteFileSystem::search_file_reply(&mut cursor, Err(remote("x"))).is_err());
    assert_eq!(cursor, before);
    let found = RemoteFileSystem::search_file_reply(&mut cursor, Ok(Json::Null)).unwrap();
    assert_eq!(found, vec![]);
    assert_eq!(
        cursor,
        FileSearchCursor { offset: 0, running_line: 1, end_offset: Some(90), done: true }
    );
    assert!(fs.search_file("/p", "needle", &opts, &cursor).is_none());
}

#[test]
fn walking_visits_what_is_streamed() {
    let fs = fs_over_dead_transport();
    let (question, walk) = fs.walk_files("/root", &vec!["target".to_string()]);
    assert_eq!(question.method, "walk_files");
    assert_eq!(
        fields(&question),
        vec![field("path", text("/root")), field("skip_dirs", Json::Array(vec![text("target")]))]
    );
    let batch = json(r#"{"files":["a.rs",3,"d/b.rs"]}"#);
    let (walk, action) = walk.advance(WalkEvent::Batch(batch));
    assert_eq!(action, WalkAction::Poll);
    let (walk, action) = walk.advance(WalkEvent::Polled(false));
    assert_eq!(action, WalkAction::Poll);
    let (walk, action) = walk.advance(WalkEvent::Polled(false));
    assert_eq!(
        action,
        WalkAction::Visit { path: "/root/a.rs".to_string(), relative: "a.rs".to_string() }
    );
    let (walk, action) = walk.advance(WalkEvent::Visited(true));
    assert_eq!(action, WalkAction::Poll);
    let (walk, action) = walk.advance(WalkEvent::Polled(false));
    assert_eq!(action, WalkAction::Poll);
    let (walk, action) = walk.advance(WalkEvent::Polled(false));
    assert_eq!(
        action,
        WalkAction::Visit { path: "/root/d/b.rs".to_string(), relative: "d/b.rs".to_string() }
    );
    let (walk, action) = walk.advance(WalkEvent::Visited(true));
    assert_eq!(action, WalkAction::Receive);
    let (walk, action) = walk.advance(WalkEvent::Batch(json(r#"{"count":2}"#)));
    assert_eq!(action, WalkAction::Poll);
    let (walk, action) = walk.advance(WalkEvent::Polled(false));
    assert_eq!(action, WalkAction::Receive);
    let (_, action) = walk.advance(WalkEvent::Closed);
    assert_eq!(action, WalkAction::Finish);
}

#[test]
fn walking_stops_when_cancelled_or_told() {
    let fs = fs_over_dead_transport();
    let batch = || WalkEvent::Batch(json(r#"{"files":["a"]}"#));
    let (_, walk) = fs.walk_files("/", &vec![]);
    let (walk, _) = walk.advance(batch());
    let (_, action) = walk.advance(WalkEvent::Polled(true));
    assert_eq!(action, WalkAction::Stop);
    let (_, walk) = fs.walk_files("/", &vec![]);
    let (walk, _) = walk.advance(batch());
    let (walk, _) = walk.advance(WalkEvent::Polled(false));
    let (walk, _) = walk.advance(WalkEvent::Polled(false));
    let (_, action) = walk.advance(WalkEvent::Visited(false));
    assert_eq!(action, WalkAction::Stop);
}
