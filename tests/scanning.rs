use image_info::report::{
    found_message, not_found_message, not_image_message, outcome_message, scan_error_message,
};
use image_info::scan::{
    get_images_size_with_extension, scan, FileEntry, ScanError, ScanOutcome, ScanRoot, ScanState,
};

fn file(ext: &str, len: u64) -> FileEntry {
    FileEntry { is_file: true, extension: Some(ext.to_string()), len: Some(len) }
}

fn root(name: &str, path: Option<&str>, entries: Vec<FileEntry>) -> ScanRoot {
    ScanRoot { name: name.to_string(), path: path.map(|p| p.to_string()), entries }
}

fn synthetic() -> Vec<ScanRoot> {
    vec![
        root("downloads", Some("/home/u/Downloads"), vec![file("jpg", 10), file("txt", 3)]),
        root(
            "pictures",
            Some("/home/u/Pictures"),
            vec![file("png", 500), file("png", 1500), file("png", 2_097_152)],
        ),
    ]
}

#[test]
fn pictures_and_downloads_scenario() {
    let (res, events) = scan("png", &synthetic()).unwrap();
    assert_eq!(res.per_root[1].name, "pictures");
    assert_eq!(res.per_root[1].file_count, 3);
    assert_eq!(res.per_root[1].total_bytes, 2_099_152);
    assert_eq!(res.per_root[0].name, "downloads");
    assert_eq!(res.per_root[0].file_count, 0);
    assert_eq!(res.per_root[0].total_bytes, 0);
    assert_eq!(res.total_files, 3);
    assert_eq!(res.total_bytes, 2_099_152);
    assert_eq!(events.len(), 2);
}

#[test]
fn totals_are_sums_of_tallies() {
    let roots = vec![
        root("a", Some("/a"), vec![file("gif", 7), file("gif", 8)]),
        root("b", Some("/b"), vec![file("gif", 100)]),
        root("c", None, vec![]),
    ];
    let (res, _) = scan("gif", &roots).unwrap();
    let files: u64 = res.per_root.iter().map(|t| t.file_count).sum();
    let bytes: u64 = res.per_root.iter().map(|t| t.total_bytes).sum();
    assert_eq!(res.total_files, files);
    assert_eq!(res.total_bytes, bytes);
    assert_eq!((res.total_files, res.total_bytes), (3, 115));
}

#[test]
fn unsupported_extension_is_not_scanned() {
    let (outcome, events) = get_images_size_with_extension("txt", &synthetic()).unwrap();
    assert!(matches!(outcome, ScanOutcome::UnsupportedExtension));
    assert!(events.is_empty());
    let (outcome, _) = get_images_size_with_extension("PNG", &synthetic()).unwrap();
    assert!(matches!(outcome, ScanOutcome::UnsupportedExtension));
}

#[test]
fn empty_trees_find_nothing() {
    let roots = vec![root("a", Some("/a"), vec![]), root("b", Some("/b"), vec![])];
    let (outcome, events) = get_images_size_with_extension("png", &roots).unwrap();
    match outcome {
        ScanOutcome::NoMatchesFound(res) => {
            assert_eq!(res.total_files, 0);
            assert_eq!(res.total_bytes, 0);
            assert_eq!(res.per_root.len(), 2);
        },
        _ => panic!("expected no matches"),
    }
    assert_eq!(events.len(), 2);
}

#[test]
fn unresolved_root_counts_as_scanned() {
    let r = root("desktop", None, vec![file("png", 99)]);
    let mut state = ScanState::new("png", 2);
    let ev = state.progress(&r);
    assert_eq!(ev.current_root_path, "Unknown directory");
    assert_eq!(state.roots_scanned(), 0);
    state.add_root(&r).unwrap();
    assert_eq!(state.roots_scanned(), 1);
    let res = state.finish();
    assert_eq!(res.per_root[0].file_count, 0);
    assert_eq!(res.per_root[0].total_bytes, 0);
}

#[test]
fn one_event_per_root_in_order() {
    let roots = vec![
        root("a", Some("/a"), vec![file("png", 1)]),
        root("b", None, vec![]),
        root("c", Some("/c"), vec![file("jpg", 1)]),
        root("d", Some("/d"), vec![file("png", 1), file("png", 2)]),
    ];
    let (_, events) = scan("png", &roots).unwrap();
    let seen: Vec<(u32, u32, u64, String)> = events
        .iter()
        .map(|e| (e.roots_scanned, e.roots_total, e.matches_so_far, e.current_root_path.clone()))
        .collect();
    assert_eq!(
        seen,
        vec![
            (0, 4, 0, "/a".to_string()),
            (1, 4, 1, "Unknown directory".to_string()),
            (2, 4, 1, "/c".to_string()),
            (3, 4, 1, "/d".to_string()),
        ]
    );
}

#[test]
fn rescanning_gives_the_same_result() {
    let roots = synthetic();
    let (a, ea) = scan("png", &roots).unwrap();
    let (b, eb) = scan("png", &roots).unwrap();
    assert_eq!(a.total_files, b.total_files);
    assert_eq!(a.total_bytes, b.total_bytes);
    assert_eq!(a.per_root.len(), b.per_root.len());
    for (x, y) in a.per_root.iter().zip(b.per_root.iter()) {
        assert_eq!((&x.name, x.file_count, x.total_bytes), (&y.name, y.file_count, y.total_bytes));
    }
    assert_eq!(ea.len(), eb.len());
}

#[test]
fn only_readable_regular_files_match() {
    let entries = vec![
        FileEntry { is_file: false, extension: Some("png".to_string()), len: Some(4096) },
        FileEntry { is_file: true, extension: None, len: Some(1) },
        FileEntry { is_file: true, extension: Some("png".to_string()), len: None },
        file("png", 5),
    ];
    let (res, _) = scan("png", &vec![root("r", Some("/r"), entries)]).unwrap();
    assert_eq!(res.total_files, 1);
    assert_eq!(res.total_bytes, 5);
    assert_eq!(res.unreadable_files, 1);
}

#[test]
fn overflowing_total_is_an_error() {
    let roots = vec![
        root("a", Some("/a"), vec![file("png", u64::MAX)]),
        root("b", Some("/b"), vec![file("png", 1)]),
    ];
    assert!(matches!(scan("png", &roots), Err(ScanError::TotalOverflow)));
    assert_eq!(
        scan_error_message(&ScanError::TotalOverflow),
        "|-The total size of the files found does not fit in 64 bits.\n|"
    );
    let fits = vec![root("a", Some("/a"), vec![file("png", u64::MAX)])];
    assert_eq!(scan("png", &fits).unwrap().0.total_bytes, u64::MAX);
}

#[test]
fn outcome_texts() {
    assert_eq!(
        not_image_message("txt"),
        "|[\x1b[1;37;41mError!\x1b[0m]->(\x1b[4mtxt\x1b[0m)->This is not image!"
    );
    assert!(not_found_message("png").contains("Images with this extension |\x1b[4;32mpng\x1b[0m| not found"));
    let (res, _) = scan("png", &synthetic()).unwrap();
    let text = found_message(&res);
    assert!(text.starts_with("|Found (3) image files with extension-> |\x1b[4;32mpng\x1b[0m| in directories:\n|\n|All size (\x1b[1;33m2.00 mb\x1b[0m)\n|\n"));
    assert!(text.contains("|-[\x1b[3;36mpictures\x1b[0m]->[\x1b[1m3\x1b[0m files]->[\x1b[1;33m2.00 mb\x1b[0m]\n"));
    assert!(text.ends_with("]\n|"));
    let (outcome, _) = get_images_size_with_extension("txt", &synthetic()).unwrap();
    assert_eq!(outcome_message(&outcome, "txt"), not_image_message("txt"));
}
