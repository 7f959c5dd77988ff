use ziptree::config::Compression;
use ziptree::config::EntryConfig;
use ziptree::error::ArchiveError;
use ziptree::extract::plan_extraction;
use ziptree::extract::ArchiveReader;
use ziptree::extract::ExtractStep;
use ziptree::pack::classify_node;
use ziptree::pack::entry_for;
use ziptree::pack::pack_tree;
use ziptree::pack::PackEntry;
use ziptree::pack::Packer;
use ziptree::pack::SourceNode;


fn steps_after_root(bytes: Vec<u8>, dest: &str) -> Vec<ExtractStep> {
    let mut steps = plan_extraction(bytes, dest).unwrap();
    assert_eq!(steps.remove(0), ExtractStep::MakeDir { path: dest.to_string() });
    steps
}

fn dir(path: &str) -> SourceNode {
    SourceNode { path: Some(path.to_string()), is_file: false, content: Vec::new() }
}

fn file(path: &str, content: &[u8]) -> SourceNode {
    SourceNode { path: Some(path.to_string()), is_file: true, content: content.to_vec() }
}

#[test]
fn fixed_configuration_is_stored_with_mode_0755() {
    let config = EntryConfig::fixed();
    assert_eq!(config.compression, Compression::Stored);
    assert_eq!(config.permissions, 0o755);
    assert_eq!(config.permissions, 493);
}

#[test]
fn entry_for_relative_paths() {
    assert_eq!(
        entry_for("a/b.txt".to_string(), true),
        Some(PackEntry::File { name: "a/b.txt".to_string() })
    );
    assert_eq!(
        entry_for("a/c".to_string(), false),
        Some(PackEntry::Directory { name: "a/c".to_string() })
    );
    assert_eq!(entry_for(String::new(), false), None);
    assert_eq!(entry_for(String::new(), true), Some(PackEntry::File { name: String::new() }));
}

#[test]
fn classify_strips_the_source_root() {
    assert_eq!(
        classify_node("src", Some("src/a/b/file.txt"), true),
        Ok(Some(PackEntry::File { name: "a/b/file.txt".to_string() }))
    );
    assert_eq!(
        classify_node("/tmp/tree/", Some("/tmp/tree/a"), false),
        Ok(Some(PackEntry::Directory { name: "a".to_string() }))
    );
    assert_eq!(classify_node("src", Some("src"), false), Ok(None));
}

#[test]
fn classify_reports_path_errors() {
    assert_eq!(classify_node("src", Some("other/file"), true), Err(ArchiveError::PathPrefix));
    assert_eq!(classify_node("src", Some("srcx/file"), true), Err(ArchiveError::PathPrefix));
    assert_eq!(classify_node("src", None, true), Err(ArchiveError::PathNotText));
    assert_eq!(classify_node("src", None, false), Err(ArchiveError::PathNotText));
}

#[test]
fn pack_tree_fails_on_a_node_outside_the_root() {
    let nodes = vec![dir("src"), file("src/a.txt", b"a"), file("elsewhere/b.txt", b"b")];
    assert_eq!(pack_tree("src", &nodes), Err(ArchiveError::PathPrefix));
    let nodes = vec![
        dir("src"),
        SourceNode { path: None, is_file: true, content: Vec::new() },
    ];
    assert_eq!(pack_tree("src", &nodes), Err(ArchiveError::PathNotText));
}

#[test]
fn concrete_tree_round_trip() {
    let nodes = vec![
        dir("tree"),
        dir("tree/a"),
        dir("tree/a/b"),
        file("tree/a/b/file.txt", b"hi"),
        dir("tree/a/c"),
    ];
    let bytes = pack_tree("tree", &nodes).unwrap();
    let steps = steps_after_root(bytes, "dest");
    assert_eq!(
        steps,
        vec![
            ExtractStep::MakeDir { path: "dest/a/".to_string() },
            ExtractStep::MakeDir { path: "dest/a/b/".to_string() },
            ExtractStep::WriteFile {
                path: "dest/a/b/file.txt".to_string(),
                parent: Some("dest/a/b".to_string()),
                content: b"hi".to_vec(),
            },
            ExtractStep::MakeDir { path: "dest/a/c/".to_string() },
        ]
    );
}

#[test]
fn empty_source_directory_packs_to_an_empty_archive() {
    let bytes = pack_tree("empty", &vec![dir("empty")]).unwrap();
    let reader = ArchiveReader::open(bytes.clone()).unwrap();
    assert_eq!(reader.len(), 0);
    assert_eq!(steps_after_root(bytes, "dest"), Vec::new());
    let bytes = pack_tree("empty", &Vec::new()).unwrap();
    assert_eq!(steps_after_root(bytes, "dest"), Vec::new());
}

#[test]
fn nested_empty_directories_survive() {
    let nodes = vec![dir("root"), dir("root/x"), dir("root/x/y"), dir("root/x/y/z")];
    let bytes = pack_tree("root", &nodes).unwrap();
    let steps = steps_after_root(bytes, "out");
    assert_eq!(
        steps,
        vec![
            ExtractStep::MakeDir { path: "out/x/".to_string() },
            ExtractStep::MakeDir { path: "out/x/y/".to_string() },
            ExtractStep::MakeDir { path: "out/x/y/z/".to_string() },
        ]
    );
}

#[test]
fn packer_steps_build_the_same_archive_entries() {
    let mut packer = Packer::new(EntryConfig::fixed());
    assert_eq!(packer.add_directory("docs"), Ok(()));
    assert_eq!(packer.start_file("docs/readme.txt"), Ok(()));
    assert_eq!(packer.write(b"hello "), Ok(()));
    assert_eq!(packer.write(b"world"), Ok(()));
    assert_eq!(packer.start_file("zero"), Ok(()));
    assert_eq!(packer.write(b""), Ok(()));
    let bytes = packer.finish().unwrap();
    let steps = steps_after_root(bytes, "dest");
    assert_eq!(
        steps,
        vec![
            ExtractStep::MakeDir { path: "dest/docs/".to_string() },
            ExtractStep::WriteFile {
                path: "dest/docs/readme.txt".to_string(),
                parent: Some("dest/docs".to_string()),
                content: b"hello world".to_vec(),
            },
            ExtractStep::WriteFile {
                path: "dest/zero".to_string(),
                parent: Some("dest".to_string()),
                content: Vec::new(),
            },
        ]
    );
}

#[test]
fn packer_rejects_a_name_used_twice() {
    let mut packer = Packer::new(EntryConfig::fixed());
    assert_eq!(packer.start_file("same.txt"), Ok(()));
    assert!(matches!(packer.start_file("same.txt"), Err(ArchiveError::Io(_))));
}

#[test]
fn writing_without_an_open_file_fails() {
    let mut packer = Packer::new(EntryConfig::fixed());
    assert!(matches!(packer.write(b"data"), Err(ArchiveError::Io(_))));
    assert_eq!(packer.add_directory("d"), Ok(()));
    assert!(matches!(packer.write(b"data"), Err(ArchiveError::Io(_))));
}

#[test]
fn add_entry_and_add_node_write_one_entry_each() {
    let mut packer = Packer::new(EntryConfig::fixed());
    let entry = PackEntry::File { name: "one.txt".to_string() };
    assert_eq!(packer.add_entry(&entry, b"1"), Ok(()));
    assert_eq!(packer.add_node("r", &dir("r")), Ok(()));
    assert_eq!(packer.add_node("r", &dir("r/two")), Ok(()));
    assert_eq!(packer.add_node("r", &file("q/three", b"3")), Err(ArchiveError::PathPrefix));
    assert_eq!(packer.add_tree("r", &vec![file("r/four", b"4")]), Ok(()));
    let bytes = packer.finish().unwrap();
    let mut reader = ArchiveReader::open(bytes).unwrap();
    assert_eq!(reader.len(), 3);
    assert_eq!(
        reader.step(0, "d"),
        Ok(Some(ExtractStep::WriteFile {
            path: "d/one.txt".to_string(),
            parent: Some("d".to_string()),
            content: b"1".to_vec(),
        }))
    );
    assert_eq!(reader.step(1, "d"), Ok(Some(ExtractStep::MakeDir { path: "d/two/".to_string() })));
    assert_eq!(
        reader.step(2, "d"),
        Ok(Some(ExtractStep::WriteFile {
            path: "d/four".to_string(),
            parent: Some("d".to_string()),
            content: b"4".to_vec(),
        }))
    );
}

#[test]
fn deflated_configuration_round_trips() {
    let config = EntryConfig { compression: Compression::Deflated, permissions: 0o644 };
    let mut packer = Packer::new(config);
    assert_eq!(packer.start_file("big.txt"), Ok(()));
    assert_eq!(packer.write(&[7u8; 4096]), Ok(()));
    let bytes = packer.finish().unwrap();
    assert!(bytes.len() < 4096);
    let steps = steps_after_root(bytes, "d");
    assert_eq!(
        steps,
        vec![ExtractStep::WriteFile {
            path: "d/big.txt".to_string(),
            parent: Some("d".to_string()),
            content: vec![7u8; 4096],
        }]
    );
}

#[test]
fn stored_entries_keep_their_bytes_uncompressed() {
    let bytes = pack_tree("r", &vec![file("r/f", &[7u8; 4096])]).unwrap();
    assert!(bytes.len() > 4096);
}

#[test]
fn directory_marker_always_gets_a_closing_slash() {
    let mut packer = Packer::new(EntryConfig::fixed());
    assert_eq!(packer.add_directory("plain"), Ok(()));
    assert_eq!(packer.add_directory("closed/"), Ok(()));
    assert_eq!(packer.add_directory("back\\"), Ok(()));
    let bytes = packer.finish().unwrap();
    let mut reader = ArchiveReader::open(bytes).unwrap();
    assert_eq!(reader.len(), 3);
    assert_eq!(
        reader.step(0, "d"),
        Ok(Some(ExtractStep::MakeDir { path: "d/plain/".to_string() }))
    );
    assert_eq!(
        reader.step(1, "d"),
        Ok(Some(ExtractStep::MakeDir { path: "d/closed/".to_string() }))
    );
    assert_eq!(
        reader.step(2, "d"),
        Ok(Some(ExtractStep::MakeDir { path: "d/back\\/".to_string() }))
    );
}

#[test]
fn finishing_equal_archives_gives_equal_bytes() {
    let build = |content: &[u8]| {
        let mut packer = Packer::new(EntryConfig::fixed());
        assert_eq!(packer.add_directory("d"), Ok(()));
        assert_eq!(packer.start_file("d/f"), Ok(()));
        assert_eq!(packer.write(content), Ok(()));
        packer.finish().unwrap()
    };
    let first = build(b"same");
    let second = build(b"same");
    let other = build(b"else");
    assert_eq!(first, second);
    assert_ne!(first, other);
    assert!(!first.is_empty());
    assert_eq!(&first[0..4], &[0x50u8, 0x4b, 0x03, 0x04][..]);
    let empty = Packer::new(EntryConfig::fixed()).finish().unwrap();
    assert_eq!(empty.len(), 22);
    assert_eq!(&empty[0..4], &[0x50u8, 0x4b, 0x05, 0x06][..]);
}

#[test]
fn empty_source_round_trip_creates_the_destination_root() {
    let bytes = pack_tree("s", &vec![dir("s")]).unwrap();
    assert_eq!(
        plan_extraction(bytes, "d").unwrap(),
        vec![ExtractStep::MakeDir { path: "d".to_string() }]
    );
}

#[test]
fn directory_with_trailing_backslash_round_trips_as_a_directory() {
    let bytes = pack_tree("r", &vec![dir("r"), dir("r/back\\")]).unwrap();
    assert_eq!(
        plan_extraction(bytes, "d").unwrap(),
        vec![
            ExtractStep::MakeDir { path: "d".to_string() },
            ExtractStep::MakeDir { path: "d/back\\/".to_string() },
        ]
    );
}

#[test]
fn only_the_lower_nine_permission_bits_are_kept() {
    let build = |permissions: u32| {
        let mut packer = Packer::new(EntryConfig { compression: Compression::Stored, permissions });
        assert_eq!(packer.start_file("f"), Ok(()));
        assert_eq!(packer.write(b"x"), Ok(()));
        packer.finish().unwrap()
    };
    assert_eq!(build(0o1755), build(0o755));
    assert_ne!(build(0o644), build(0o755));
}
