use simplefs::attr::{Attributes, FileKind, HostMetadata};
use simplefs::error::FsError;
use simplefs::simple::{read_reply, SimpleFS};

fn md_file(ino: u64, size: u64) -> HostMetadata {
    HostMetadata {
        ino,
        size,
        blocks: (size + 511) / 512,
        mode: 0o100644,
        uid: 1000,
        gid: 1000,
        is_dir: false,
    }
}

#[test]
fn lookup_non_root_parent_fails_not_supported() {
    let mut fs: SimpleFS<Vec<u8>> = SimpleFS::new(String::from("srcdir"));
    for parent in [0u64, 2, 3, 42, u64::MAX] {
        assert!(matches!(fs.lookup_path(parent, "hello.txt"), Err(FsError::NotSupported)));
        let r = fs.resolve_or_register(parent, "hello.txt", Some(md_file(5, 13)));
        assert!(matches!(r, Err(FsError::NotSupported)));
    }
}

#[test]
fn lookup_translates_attributes_exactly() {
    let mut fs: SimpleFS<Vec<u8>> = SimpleFS::new(String::from("srcdir"));
    let md = HostMetadata {
        ino: 77,
        size: 1024,
        blocks: 2,
        mode: 0o100755,
        uid: 12,
        gid: 34,
        is_dir: false,
    };
    let attr: Attributes = fs.resolve_or_register(1, "hello.txt", Some(md)).unwrap();
    assert_eq!(attr.ino, 77);
    assert_eq!(attr.size, 1024);
    assert_eq!(attr.blocks, 2);
    assert!(attr.kind == FileKind::RegularFile);
    assert_eq!(attr.perm, 0o100755 & 0xFFFF);
    assert_eq!(attr.nlink, 1);
    assert_eq!(attr.uid, 12);
    assert_eq!(attr.gid, 34);
    assert_eq!(attr.blksize, 512);
}

#[test]
fn lookup_of_directory_reports_directory_kind() {
    let mut fs: SimpleFS<Vec<u8>> = SimpleFS::new(String::from("srcdir"));
    let md = HostMetadata {
        ino: 9,
        size: 4096,
        blocks: 8,
        mode: 0o040755,
        uid: 0,
        gid: 0,
        is_dir: true,
    };
    let attr = fs.resolve_or_register(1, "sub", Some(md)).unwrap();
    assert!(attr.kind == FileKind::Directory);
}

#[test]
fn permission_bits_keep_low_sixteen_mode_bits() {
    let md = HostMetadata {
        ino: 3,
        size: 0,
        blocks: 0,
        mode: 0xFFFF_FFFF,
        uid: 0,
        gid: 0,
        is_dir: false,
    };
    let attr = md.file_attributes();
    assert_eq!(attr.perm, 0xFFFF);
}

#[test]
fn lookup_idempotent_inode_assignment() {
    let mut fs: SimpleFS<Vec<u8>> = SimpleFS::new(String::from("srcdir"));
    let md = md_file(41, 6);
    let a1 = fs.resolve_or_register(1, "hello.txt", Some(md)).unwrap();
    let a2 = fs.resolve_or_register(1, "hello.txt", Some(md)).unwrap();
    let a3 = fs.resolve_or_register(1, "hello.txt", Some(md)).unwrap();
    assert_eq!(a1.ino, 41);
    assert_eq!(a1.ino, a2.ino);
    assert_eq!(a2.ino, a3.ino);
}

#[test]
fn lookup_host_error_fails_not_found() {
    let mut fs: SimpleFS<Vec<u8>> = SimpleFS::new(String::from("srcdir"));
    let r = fs.resolve_or_register(1, "missing.txt", None);
    assert!(matches!(r, Err(FsError::NotFound)));
}

#[test]
fn path_resolution_joins_source_dir_and_name() {
    let mut fs: SimpleFS<Vec<u8>> = SimpleFS::new(String::from("srcdir"));
    assert_eq!(fs.local_path("hello.txt"), "srcdir/hello.txt");
    assert_eq!(fs.lookup_path(1, "hello.txt").unwrap(), "srcdir/hello.txt");
    fs.resolve_or_register(1, "hello.txt", Some(md_file(5, 13))).unwrap();
    assert_eq!(fs.path_for(5).unwrap(), "srcdir/hello.txt");
    assert_eq!(fs.path_for(1).unwrap(), "srcdir/.");
    assert!(matches!(fs.path_for(999), Err(FsError::NotFound)));
}

#[test]
fn open_read_release_round_trip() {
    let mut fs: SimpleFS<Vec<u8>> = SimpleFS::new(String::from("srcdir"));
    fs.resolve_or_register(1, "hello.txt", Some(md_file(5, 13))).unwrap();
    let content: Vec<u8> = b"Hello, World!".to_vec();
    let fh = fs.open_commit(content.clone());

    // The resource fetched through the handle is exactly the one stored.
    let res = fs.read_resource(5, fh).unwrap();
    assert_eq!(res, &content);

    // A positioned read that delivered all 13 bytes returns exactly them.
    let reply = read_reply(res.clone(), Some(13)).unwrap();
    assert_eq!(reply, content);

    // A read at end-of-file delivered zero bytes: empty reply, not an error.
    let eof = read_reply(vec![0u8; 1], Some(0)).unwrap();
    assert!(eof.is_empty());

    let released = fs.release(fh);
    assert_eq!(released, Some(content));
    assert!(matches!(fs.read_resource(5, fh), Err(FsError::InvalidHandle)));
}

#[test]
fn read_with_unknown_handle_fails_invalid_handle() {
    let mut fs: SimpleFS<Vec<u8>> = SimpleFS::new(String::from("srcdir"));
    fs.resolve_or_register(1, "hello.txt", Some(md_file(5, 13))).unwrap();
    // Never returned by an open.
    assert!(matches!(fs.read_resource(5, 99), Err(FsError::InvalidHandle)));
    assert!(matches!(fs.read_resource(5, 0), Err(FsError::InvalidHandle)));
    // Already passed to release.
    let fh = fs.open_commit(vec![1, 2, 3]);
    fs.release(fh);
    assert!(matches!(fs.read_resource(5, fh), Err(FsError::InvalidHandle)));
}

#[test]
fn read_with_unknown_inode_fails_not_found() {
    let mut fs: SimpleFS<Vec<u8>> = SimpleFS::new(String::from("srcdir"));
    let fh = fs.open_commit(vec![1, 2, 3]);
    assert!(matches!(fs.read_resource(404, fh), Err(FsError::NotFound)));
}

#[test]
fn failed_host_read_surfaces_io_error() {
    let r = read_reply(vec![0u8; 8], None);
    assert!(matches!(r, Err(FsError::IoError)));
}

#[test]
fn read_reply_returns_exactly_the_delivered_prefix() {
    let buf = vec![10u8, 20, 30, 40, 50];
    assert_eq!(read_reply(buf.clone(), Some(3)).unwrap(), vec![10, 20, 30]);
    assert_eq!(read_reply(buf.clone(), Some(5)).unwrap(), buf);
    assert_eq!(read_reply(buf, Some(0)).unwrap(), Vec::<u8>::new());
}

#[test]
fn release_is_idempotent() {
    let mut fs: SimpleFS<Vec<u8>> = SimpleFS::new(String::from("srcdir"));
    let fh = fs.open_commit(vec![7]);
    assert_eq!(fs.release(fh), Some(vec![7]));
    assert_eq!(fs.release(fh), None);
    assert_eq!(fs.release(fh), None);
}

#[test]
fn handle_ids_start_above_root_and_never_repeat() {
    let mut fs: SimpleFS<Vec<u8>> = SimpleFS::new(String::from("srcdir"));
    assert_eq!(fs.fh_counter(), 2);
    let id1 = fs.next_fh_id();
    let id2 = fs.next_fh_id();
    assert_eq!(id1, 2);
    assert_eq!(id2, 3);
    let fh = fs.open_commit(vec![1]);
    assert_eq!(fh, 4);
    fs.release(fh);
    // A released identifier is not handed out again.
    let fh2 = fs.open_commit(vec![2]);
    assert_eq!(fh2, 5);
}

#[test]
fn two_open_read_sequences_are_independent() {
    let mut fs: SimpleFS<Vec<u8>> = SimpleFS::new(String::from("srcdir"));
    fs.resolve_or_register(1, "a.txt", Some(md_file(10, 3))).unwrap();
    fs.resolve_or_register(1, "b.txt", Some(md_file(11, 3))).unwrap();
    let fh_a = fs.open_commit(b"aaa".to_vec());
    let fh_b = fs.open_commit(b"bbb".to_vec());
    assert_ne!(fh_a, fh_b);
    assert_eq!(fs.read_resource(10, fh_a).unwrap(), &b"aaa".to_vec());
    assert_eq!(fs.read_resource(11, fh_b).unwrap(), &b"bbb".to_vec());
    // Releasing one session does not disturb the other.
    fs.release(fh_a);
    assert_eq!(fs.read_resource(11, fh_b).unwrap(), &b"bbb".to_vec());
}

#[test]
fn source_dir_is_kept_verbatim() {
    let fs: SimpleFS<Vec<u8>> = SimpleFS::new(String::from("/mnt/data"));
    assert_eq!(fs.source_dir(), "/mnt/data");
}
