use simpath::{
    classify, is_reachable, split_entries, Child, DirectoryStatus, Entry, EntryKind, FileType, FoundType, Host,
    Listing, Location, LookupError, PathError, Simpath, Step, Variable,
};

fn status(path: &str, exists: bool, is_dir: bool, readable: bool, canonical: Option<&str>) -> DirectoryStatus {
    DirectoryStatus {
        path: path.to_string(),
        exists,
        is_dir,
        readable,
        canonical: canonical.map(|c| c.to_string()),
    }
}

fn good(path: &str, canonical: &str) -> DirectoryStatus {
    status(path, true, true, true, Some(canonical))
}

fn host_with(vars: &[(&str, &str)], directories: Vec<DirectoryStatus>) -> Host {
    Host {
        separator: ':',
        variables: vars
            .iter()
            .map(|(n, v)| Variable { name: n.to_string(), value: v.to_string() })
            .collect(),
        directories,
    }
}

fn child(name: &str, path: &str, kind: EntryKind) -> Child {
    Child { name: Some(name.to_string()), path: path.to_string(), kind: Ok(kind) }
}

fn clean(children: Vec<Child>) -> Listing {
    Listing { children, failure: None }
}

fn done(step: Step) -> Result<FoundType, LookupError> {
    match step {
        Step::Done(r) => r,
        other => panic!("expected the end of the lookup, got {:?}", other),
    }
}

fn listed_dir(step: &Step) -> String {
    match step {
        Step::List(d) => d.clone(),
        other => panic!("expected a listing request, got {:?}", other),
    }
}

fn strings(v: &[String]) -> Vec<&str> {
    v.iter().map(|s| s.as_str()).collect()
}

#[test]
fn admitted_directory_is_contained_in_canonical_form() {
    let h = host_with(&[], vec![good("./sub/../data", "/srv/data")]);
    let mut p = Simpath::new("P", &h);
    p.add_directory("./sub/../data", &h);
    assert_eq!(strings(p.directories()), vec!["/srv/data"]);
    assert!(p.contains("/srv/data"));
    assert!(p.contains("/srv/data/"));
    assert!(p.contains("/srv//data"));
    assert!(!p.contains("/srv/dat"));
}

#[test]
fn nonexistent_directory_is_ignored() {
    let h = host_with(&[], vec![status("/nope", false, false, false, None)]);
    let mut p = Simpath::new("P", &h);
    p.add_directory("/nope", &h);
    p.add_directory("/never-asked", &h);
    assert_eq!(p.directories().len(), 0);
    assert!(!p.contains("/nope"));
    assert!(!p.contains("/never-asked"));
}

#[test]
fn unreadable_file_or_uncanonical_directories_are_ignored() {
    let h = host_with(
        &[],
        vec![
            status("/locked", true, true, false, Some("/locked")),
            status("/etc/passwd", true, false, true, Some("/etc/passwd")),
            status("/odd", true, true, true, None),
        ],
    );
    let mut p = Simpath::new("P", &h);
    p.add_directory("/locked", &h);
    p.add_directory("/etc/passwd", &h);
    p.add_directory("/odd", &h);
    assert_eq!(p.directories().len(), 0);
}

#[test]
fn first_directory_wins() {
    let h = host_with(&[], vec![good("a", "/a"), good("b", "/b")]);
    let mut p = Simpath::new("P", &h);
    p.add_directory("a", &h);
    p.add_directory("b", &h);
    let (mut lookup, step) = p.find_type("tool", FileType::File);
    assert_eq!(listed_dir(&step), "/a");
    let step = lookup.listed(&clean(vec![child("tool", "/a/tool", EntryKind::File)]));
    assert_eq!(done(step), Ok(FoundType::File("/a/tool".to_string())));
}

#[test]
fn miss_in_first_directory_goes_on_to_second() {
    let h = host_with(&[], vec![good("a", "/a"), good("b", "/b")]);
    let mut p = Simpath::new("P", &h);
    p.add_directory("a", &h);
    p.add_directory("b", &h);
    let (mut lookup, _) = p.find_type("tool", FileType::File);
    let step = lookup.listed(&clean(vec![child("tool", "/a/tool", EntryKind::Directory)]));
    assert_eq!(listed_dir(&step), "/b");
    assert!(lookup.awaits_listing());
    let step = lookup.listed(&clean(vec![child("tool", "/b/tool", EntryKind::File)]));
    assert_eq!(done(step), Ok(FoundType::File("/b/tool".to_string())));
    assert!(!lookup.awaits_listing());
}

#[test]
fn separator_splits_into_three_attempts_in_order() {
    assert_eq!(strings(&split_entries("a;b;c", ';')), vec!["a", "b", "c"]);
    let h = host_with(&[("V", "c;a;b")], vec![good("a", "/a"), good("b", "/b"), good("c", "/c")]);
    let p = Simpath::new_with_separator("V", ';', &h);
    assert_eq!(strings(p.directories()), vec!["/c", "/a", "/b"]);
    assert_eq!(p.separator(), ';');
}

#[test]
fn split_keeps_empty_pieces() {
    assert_eq!(strings(&split_entries("", ':')), vec![""]);
    assert_eq!(strings(&split_entries(":", ':')), vec!["", ""]);
    assert_eq!(strings(&split_entries("a::b:", ':')), vec!["a", "", "b", ""]);
    assert_eq!(strings(&split_entries("é:ü", ':')), vec!["é", "ü"]);
}

#[test]
fn separator_override_leaves_own_separator() {
    let h = host_with(&[("V", "a,b")], vec![good("a", "/a"), good("b", "/b")]);
    let mut p = Simpath::new("P", &h);
    p.add_from_env_var_with_separator("V", ',', &h);
    assert_eq!(strings(p.directories()), vec!["/a", "/b"]);
    assert_eq!(p.separator(), ':');
}

#[test]
fn absent_variable_gives_empty_path() {
    let p = Simpath::new("UNSET", &host_with(&[("OTHER", "/")], vec![good("/", "/")]));
    assert_eq!(p.name(), "UNSET");
    assert!(p.directories().is_empty());
    assert!(p.urls().is_empty());
}

#[test]
fn not_found_names_kind_name_and_path() {
    let h = host_with(&[], vec![good("a", "/a")]);
    let empty = Simpath::new("LABEL", &h);
    let (_, step) = empty.find("nonexistent-name");
    assert_eq!(
        done(step),
        Err(LookupError::NotFound {
            file_type: FileType::Any,
            name: "nonexistent-name".to_string(),
            search_path: "LABEL".to_string(),
        })
    );
    let mut p = Simpath::new("LABEL", &h);
    p.add_directory("a", &h);
    let (mut lookup, _) = p.find("nonexistent-name");
    let step = lookup.listed(&clean(vec![child("other", "/a/other", EntryKind::File)]));
    assert_eq!(
        done(step),
        Err(LookupError::NotFound {
            file_type: FileType::Any,
            name: "nonexistent-name".to_string(),
            search_path: "LABEL".to_string(),
        })
    );
}

#[test]
fn variable_with_current_and_missing_directory() {
    let h = host_with(
        &[("TESTVAR", ".:/tmp/does-not-exist")],
        vec![good(".", "/home/me"), status("/tmp/does-not-exist", false, false, false, None), good("/home/me", "/home/me")],
    );
    let p = Simpath::new_with_separator("TESTVAR", ':', &h);
    assert_eq!(strings(p.directories()), vec!["/home/me"]);
    assert!(p.validate(&h).is_empty());
}

#[test]
fn validate_reports_gone_and_unreadable() {
    let before = host_with(&[("V", "a:b:c")], vec![good("a", "/a"), good("b", "/b"), good("c", "/c")]);
    let p = Simpath::new("V", &before);
    let after = host_with(
        &[],
        vec![status("/a", false, false, false, None), status("/b", true, true, false, Some("/b")), good("/c", "/c")],
    );
    assert_eq!(
        p.validate(&after),
        vec![PathError::DoesNotExist("/a".to_string()), PathError::CannotRead("/b".to_string())]
    );
    assert_eq!(p.directories().len(), 3);
}

#[test]
fn file_found_as_file_not_as_directory() {
    let h = host_with(&[], vec![good("/data", "/data")]);
    let mut p = Simpath::new("P", &h);
    p.add_directory("/data", &h);
    let children = || clean(vec![child("probe.txt", "/data/probe.txt", EntryKind::File)]);
    let (mut lookup, _) = p.find_type("probe.txt", FileType::File);
    assert_eq!(done(lookup.listed(&children())), Ok(FoundType::File("/data/probe.txt".to_string())));
    let (mut lookup, _) = p.find_type("probe.txt", FileType::Directory);
    match done(lookup.listed(&children())) {
        Err(LookupError::NotFound { file_type, name, search_path }) => {
            assert_eq!(file_type, FileType::Directory);
            assert_eq!(name, "probe.txt");
            assert_eq!(search_path, "P");
        },
        other => panic!("expected not found, got {:?}", other),
    }
}

#[test]
fn directory_found_as_directory_and_any_reports_file() {
    let h = host_with(&[], vec![good("/data", "/data")]);
    let mut p = Simpath::new("P", &h);
    p.add_directory("/data", &h);
    let children = || clean(vec![child("sub", "/data/sub", EntryKind::Directory)]);
    let (mut lookup, _) = p.find_type("sub", FileType::Directory);
    assert_eq!(done(lookup.listed(&children())), Ok(FoundType::Directory("/data/sub".to_string())));
    let (mut lookup, _) = p.find("sub");
    assert_eq!(done(lookup.listed(&children())), Ok(FoundType::File("/data/sub".to_string())));
}

#[test]
fn remote_resource_found_on_success_and_redirect_skipped() {
    let mut p = Simpath::new("P", &host_with(&[], vec![]));
    p.add("https://example.org", &host_with(&[], vec![]));
    assert_eq!(p.urls().len(), 1);
    let (mut lookup, step) = p.find_type("known-good-path", FileType::Resource);
    match &step {
        Step::Probe(u) => assert_eq!(u.as_str(), "https://example.org/known-good-path"),
        other => panic!("expected a probe, got {:?}", other),
    }
    match done(lookup.probed(Some(200))) {
        Ok(FoundType::Resource(u)) => assert_eq!(u.as_str(), "https://example.org/known-good-path"),
        other => panic!("expected the resource, got {:?}", other),
    }
    let (mut lookup, _) = p.find_type("moved", FileType::Resource);
    assert!(lookup.awaits_response());
    assert!(matches!(done(lookup.probed(Some(301))), Err(LookupError::NotFound { .. })));
}

#[test]
fn remote_bases_tried_in_order_after_local_miss() {
    let h = host_with(&[("V", "/d,https://one.example/a/,http://two.example")], vec![good("/d", "/d")]);
    let p = Simpath::new_with_separator("V", ',', &h);
    assert_eq!(p.urls().len(), 2);
    let (mut lookup, step) = p.find("x");
    assert_eq!(listed_dir(&step), "/d");
    let step = lookup.listed(&clean(vec![]));
    match &step {
        Step::Probe(u) => assert_eq!(u.as_str(), "https://one.example/a/x"),
        other => panic!("expected a probe, got {:?}", other),
    }
    let step = lookup.probed(None);
    match &step {
        Step::Probe(u) => assert_eq!(u.as_str(), "http://two.example/x"),
        other => panic!("expected a probe, got {:?}", other),
    }
    assert!(matches!(done(lookup.probed(Some(299))), Ok(FoundType::Resource(_))));
}

#[test]
fn local_kinds_never_probe() {
    let mut p = Simpath::new("P", &host_with(&[], vec![]));
    p.add_url(&Location::parse("https://example.org").unwrap());
    let (_, step) = p.find_type("x", FileType::File);
    assert!(matches!(done(step), Err(LookupError::NotFound { .. })));
}

#[test]
fn resource_kind_never_lists() {
    let h = host_with(&[], vec![good("/d", "/d")]);
    let mut p = Simpath::new("P", &h);
    p.add_directory("/d", &h);
    let (_, step) = p.find_type("x", FileType::Resource);
    assert!(matches!(done(step), Err(LookupError::NotFound { .. })));
}

#[test]
fn listing_failure_is_an_io_error() {
    let h = host_with(&[], vec![good("/d", "/d"), good("/e", "/e")]);
    let mut p = Simpath::new("P", &h);
    p.add_directory("/d", &h);
    p.add_directory("/e", &h);
    let (mut lookup, _) = p.find("x");
    let broken = Listing { children: vec![], failure: Some("permission denied".to_string()) };
    assert_eq!(done(lookup.listed(&broken)), Err(LookupError::Io("permission denied".to_string())));
}

#[test]
fn match_before_listing_failure_still_wins() {
    let h = host_with(&[], vec![good("/d", "/d")]);
    let mut p = Simpath::new("P", &h);
    p.add_directory("/d", &h);
    let (mut lookup, _) = p.find("x");
    let partial = Listing {
        children: vec![child("x", "/d/x", EntryKind::File)],
        failure: Some("read error".to_string()),
    };
    assert_eq!(done(lookup.listed(&partial)), Ok(FoundType::File("/d/x".to_string())));
}

#[test]
fn unreadable_metadata_of_match_is_an_io_error() {
    let h = host_with(&[], vec![good("/d", "/d")]);
    let mut p = Simpath::new("P", &h);
    p.add_directory("/d", &h);
    let (mut lookup, _) = p.find_type("x", FileType::File);
    let l = clean(vec![
        Child { name: None, path: "/d/\u{fffd}".to_string(), kind: Err("ignored".to_string()) },
        Child { name: Some("y".to_string()), path: "/d/y".to_string(), kind: Err("ignored too".to_string()) },
        Child { name: Some("x".to_string()), path: "/d/x".to_string(), kind: Err("stale handle".to_string()) },
    ]);
    assert_eq!(done(lookup.listed(&l)), Err(LookupError::Io("stale handle".to_string())));
}

#[test]
fn name_matching_is_exact() {
    let h = host_with(&[], vec![good("/d", "/d")]);
    let mut p = Simpath::new("P", &h);
    p.add_directory("/d", &h);
    let (mut lookup, _) = p.find("Tool");
    let l = clean(vec![
        child("tool", "/d/tool", EntryKind::File),
        child("Tool.exe", "/d/Tool.exe", EntryKind::File),
        child("Too", "/d/Too", EntryKind::File),
    ]);
    assert!(matches!(done(lookup.listed(&l)), Err(LookupError::NotFound { .. })));
}

#[test]
fn unjoinable_name_is_reported() {
    let mut p = Simpath::new("P", &host_with(&[], vec![]));
    p.add_url(&Location::parse("https://example.org").unwrap());
    let (_, step) = p.find_type("http://", FileType::Resource);
    assert_eq!(
        done(step),
        Err(LookupError::InvalidName { base: "https://example.org/".to_string(), name: "http://".to_string() })
    );
}

#[test]
fn classification_of_entries() {
    match classify("https://example.org/base") {
        Entry::Remote(u) => {
            assert_eq!(u.as_str(), "https://example.org/base");
            assert_eq!(u.scheme(), "https");
            assert_eq!(u.path(), "/base");
        },
        Entry::Directory(d) => panic!("expected a web location, got directory {}", d),
    }
    assert!(matches!(classify("HTTP://Example.org"), Entry::Remote(_)));
    assert!(matches!(classify("file:///usr/lib"), Entry::Directory(d) if d == "/usr/lib"));
    assert!(matches!(classify("ftp://example.org/pub"), Entry::Directory(d) if d == "ftp://example.org/pub"));
    assert!(matches!(classify("/usr/bin"), Entry::Directory(d) if d == "/usr/bin"));
    assert!(matches!(classify(""), Entry::Directory(d) if d.is_empty()));
}

#[test]
fn file_url_entry_admits_its_path() {
    let h = host_with(&[("V", "file:///opt/tools")], vec![good("/opt/tools", "/opt/tools")]);
    let p = Simpath::new_with_separator("V", ',', &h);
    assert_eq!(strings(p.directories()), vec!["/opt/tools"]);
    assert!(p.urls().is_empty());
}

#[test]
fn location_parse_and_join() {
    assert!(Location::parse("not a url").is_none());
    let base = Location::parse("https://example.net/a/b.html").unwrap();
    assert_eq!(base.join("c.png").unwrap().as_str(), "https://example.net/a/c.png");
    assert_eq!(Location::parse("HTTPS://Example.NET").unwrap().as_str(), "https://example.net/");
    let copy = base.clone();
    assert_eq!(copy, base);
    assert_ne!(copy, Location::parse("https://example.net/").unwrap());
}

#[test]
fn contains_urls_by_serialization() {
    let mut p = Simpath::new("P", &host_with(&[], vec![]));
    p.add("https://example.org", &host_with(&[], vec![]));
    assert!(p.contains("https://example.org"));
    assert!(p.contains("https://EXAMPLE.org/"));
    assert!(!p.contains("https://example.org/other"));
    assert!(!p.contains("example.org"));
}

#[test]
fn reachable_status_codes() {
    assert!(!is_reachable(None));
    assert!(!is_reachable(Some(199)));
    assert!(is_reachable(Some(200)));
    assert!(is_reachable(Some(299)));
    assert!(!is_reachable(Some(301)));
    assert!(!is_reachable(Some(404)));
}

#[test]
fn rendering_is_exact() {
    let h = host_with(&[("V", "/a,/b,https://example.org")], vec![good("/a", "/a"), good("/b", "/b")]);
    let p = Simpath::new_with_separator("V", ',', &h);
    assert_eq!(
        p.to_string(),
        "Search Path 'V': Directories: [\"/a\", \"/b\"], URLs: [\"https://example.org/\"]"
    );
    let e = Simpath::new("", &h);
    assert_eq!(e.to_string(), "Search Path '': Directories: [], URLs: []");
}

#[test]
fn first_variable_of_a_name_is_used() {
    let h = host_with(&[("V", "/a"), ("V", "/b")], vec![good("/a", "/a"), good("/b", "/b")]);
    let p = Simpath::new("V", &h);
    assert_eq!(strings(p.directories()), vec!["/a"]);
}

#[test]
fn duplicates_are_kept() {
    let h = host_with(&[("V", ".:/w")], vec![good(".", "/w"), good("/w", "/w")]);
    let p = Simpath::new("V", &h);
    assert_eq!(strings(p.directories()), vec!["/w", "/w"]);
}
