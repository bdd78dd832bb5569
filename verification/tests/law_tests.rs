use std::collections::hash_map::DefaultHasher;
use std::hash::{Hash, Hasher};
use std::io::Write;

use ozy::dispatch::{dispatch_mode, DispatchMode};
use ozy::installers::tarball::{get_compressed_file_type, CompressedFileType};
use ozy::net::{is_request_retryable_based_on_error, RequestErrorFacts};

use ozy::app::App;
use ozy::cache::{InstallAction, InstallEvent, InstallPhase};
use ozy::conf::{ConfMap, ConfValue};
use ozy::config::apply_overrides;
use ozy::installers::installer::Installer;
use ozy::update::UpdateAction;

fn s(v: &str) -> ConfValue {
    ConfValue::Str(v.to_string())
}

fn map_of(entries: Vec<(&str, ConfValue)>) -> ConfMap {
    let mut m = ConfMap::new();
    for (k, v) in entries {
        m.insert(k.to_string(), v);
    }
    m
}

// Merge: overlays apply per key with the last writer winning on scalar
// leaves, and grouping of overlays does not change the outcome.
#[test]
fn merge_is_associative_on_scalars() {
    let base = map_of(vec![("a", s("1")), ("b", s("2"))]);
    let o = map_of(vec![("b", s("3")), ("c", s("4"))]);
    let p = map_of(vec![("c", s("5")), ("d", s("6"))]);

    // ((base <- o) <- p)
    let mut left = base.clone();
    apply_overrides(&o, &mut left);
    apply_overrides(&p, &mut left);

    // base <- (o <- p)
    let mut op = o.clone();
    apply_overrides(&p, &mut op);
    let mut right = base.clone();
    apply_overrides(&op, &mut right);

    for key in ["a", "b", "c", "d"] {
        let l = match left.get(key) {
            Some(ConfValue::Str(v)) => v.clone(),
            _ => panic!("missing key"),
        };
        let r = match right.get(key) {
            Some(ConfValue::Str(v)) => v.clone(),
            _ => panic!("missing key"),
        };
        assert_eq!(l, r);
    }
    assert!(matches!(left.get("b"), Some(ConfValue::Str(v)) if v == "3"));
    assert!(matches!(left.get("c"), Some(ConfValue::Str(v)) if v == "5"));
}

#[test]
fn merge_recurses_into_nested_mappings() {
    let base = map_of(vec![("nest", ConfValue::Dict(map_of(vec![("x", s("1")), ("y", s("2"))])))]);
    let over = map_of(vec![("nest", ConfValue::Dict(map_of(vec![("y", s("9")), ("z", s("3"))])))]);
    let mut merged = base.clone();
    apply_overrides(&over, &mut merged);
    match merged.get("nest") {
        Some(ConfValue::Dict(n)) => {
            assert!(matches!(n.get("x"), Some(ConfValue::Str(v)) if v == "1"));
            assert!(matches!(n.get("y"), Some(ConfValue::Str(v)) if v == "9"));
            assert!(matches!(n.get("z"), Some(ConfValue::Str(v)) if v == "3"));
        }
        _ => panic!("nest missing"),
    }
}

// Template expansion: a key on the app entry wins over the template's.
#[test]
fn app_entry_key_wins_over_template() {
    let mut templates = ConfMap::new();
    templates.insert(
        "base".to_string(),
        ConfValue::Dict(map_of(vec![
            ("type", s("tarball")),
            ("url", s("http://template.test/t.tar.gz")),
            ("version", s("0.0")),
        ])),
    );
    let mut apps = ConfMap::new();
    apps.insert(
        "bar".to_string(),
        ConfValue::Dict(map_of(vec![("template", s("base")), ("version", s("2.0"))])),
    );
    let mut config = ConfMap::new();
    config.insert("apps".to_string(), ConfValue::Dict(apps));
    config.insert("templates".to_string(), ConfValue::Dict(templates));

    let app = App::new("bar", &config, "linux", "x86_64").expect("resolve");
    assert_eq!(app.version, "2.0");
    assert_eq!(app.installer.describe(), "tarball installer for bar v.2.0");
}

// Substitution: placeholders with no matching key stay verbatim.
#[test]
fn unmatched_placeholders_stay_verbatim() {
    let mut m = map_of(vec![
        ("known", s("yes")),
        ("value", s("{known}-{unknown}-{ozy_os}")),
    ]);
    ozy::config::resolve(&mut m, "macos", "x86_64");
    match m.get("value") {
        Some(ConfValue::Str(v)) => assert_eq!(v, "yes-{unknown}-darwin"),
        _ => panic!("value missing"),
    }
}

#[test]
fn substitution_is_single_pass() {
    let mut m = map_of(vec![("a", s("{b}")), ("b", s("{a}")), ("value", s("{a}"))]);
    ozy::config::resolve(&mut m, "linux", "x86_64");
    match m.get("value") {
        Some(ConfValue::Str(v)) => assert_eq!(v, "{b}"),
        _ => panic!("value missing"),
    }
}

// Scenario: template plus host facts resolve the url exactly.
#[test]
fn template_url_resolves_against_host_facts() {
    let mut templates = ConfMap::new();
    templates.insert(
        "base".to_string(),
        ConfValue::Dict(map_of(vec![
            ("type", s("tarball")),
            ("url", s("http://{ozy_os}-{ozy_arch}.tar.gz")),
        ])),
    );
    let mut apps = ConfMap::new();
    apps.insert(
        "bar".to_string(),
        ConfValue::Dict(map_of(vec![("template", s("base")), ("version", s("2.0"))])),
    );
    let mut config = ConfMap::new();
    config.insert("apps".to_string(), ConfValue::Dict(apps));
    config.insert("templates".to_string(), ConfValue::Dict(templates));

    let app = App::new("bar", &config, "linux", "x86_64").expect("resolve");
    match app.installer {
        ozy::app::InstallerKind::Tarball(t) => {
            assert_eq!(t.url, "http://linux-amd64.tar.gz");
        }
        _ => panic!("wrong installer kind"),
    }
}

// Descriptor equality and hashing agree on the five-field basis.
fn hash_basis(app: &App) -> u64 {
    let mut h = DefaultHasher::new();
    app.name.hash(&mut h);
    app.version.hash(&mut h);
    app.relocatable.hash(&mut h);
    app.executable_path.hash(&mut h);
    app.installer.describe().hash(&mut h);
    h.finish()
}

fn single_file_app(name: &str, version: &str, url: &str, relocatable: bool, exec_path: &str) -> App {
    let mut apps = ConfMap::new();
    apps.insert(
        name.to_string(),
        ConfValue::Dict(map_of(vec![
            ("type", s("single_file")),
            ("version", s(version)),
            ("url", s(url)),
            ("relocatable", ConfValue::Bool(relocatable)),
            ("executable_path", s(exec_path)),
        ])),
    );
    let mut config = ConfMap::new();
    config.insert("apps".to_string(), ConfValue::Dict(apps));
    App::new(name, &config, "linux", "x86_64").expect("resolve")
}

#[test]
fn equal_descriptors_hash_equal() {
    // A tiny deterministic generator drives the property across many
    // random-looking field choices.
    let mut state: u64 = 0x2545F4914F6CDD1D;
    let names = ["alpha", "beta", "gamma"];
    let versions = ["1.0.0", "2.3.4"];
    let paths = ["bin/tool", "tool"];
    for _ in 0..50 {
        state = state.wrapping_mul(6364136223846793005).wrapping_add(1442695040888963407);
        let n1 = names[(state >> 3) as usize % 3];
        let v1 = versions[(state >> 9) as usize % 2];
        let p1 = paths[(state >> 13) as usize % 2];
        let r1 = (state >> 17) % 2 == 0;
        state = state.wrapping_mul(6364136223846793005).wrapping_add(1442695040888963407);
        let n2 = names[(state >> 3) as usize % 3];
        let v2 = versions[(state >> 9) as usize % 2];
        let p2 = paths[(state >> 13) as usize % 2];
        let r2 = (state >> 17) % 2 == 0;
        // The url is not part of the identity basis: vary it freely.
        let a = single_file_app(n1, v1, "http://one.test/a", r1, p1);
        let b = single_file_app(n2, v2, "http://two.test/b", r2, p2);
        if a == b {
            assert_eq!(hash_basis(&a), hash_basis(&b));
        }
        let a2 = single_file_app(n1, v1, "http://three.test/c", r1, p1);
        assert!(a == a2);
        assert_eq!(hash_basis(&a), hash_basis(&a2));
    }
}

// A tiny world the engine's actions are interpreted against.
struct FakeWorld {
    dirs: Vec<String>,
    lock_holder: Option<usize>,
    installs_run: usize,
    install_succeeds: bool,
}

impl FakeWorld {
    fn new(install_succeeds: bool) -> FakeWorld {
        FakeWorld { dirs: Vec::new(), lock_holder: None, installs_run: 0, install_succeeds }
    }

    fn has(&self, p: &str) -> bool {
        self.dirs.iter().any(|d| d == p)
    }

    fn add(&mut self, p: &str) {
        if !self.has(p) {
            self.dirs.push(p.to_string());
        }
    }

    fn remove_subtree(&mut self, p: &str) {
        self.dirs.retain(|d| !(d == p || d.starts_with(&format!("{}/", p))));
    }
}

// Perform one action for one simulated process; the result is the event
// to answer the engine with, or nothing while the lock is contended.
fn perform(world: &mut FakeWorld, me: usize, action: &InstallAction) -> Option<InstallEvent> {
    match action {
        InstallAction::CheckPublished(p) => Some(InstallEvent::Published(world.has(p))),
        InstallAction::AcquireLock(_) => {
            if world.lock_holder.is_none() {
                world.lock_holder = Some(me);
                Some(InstallEvent::LockAcquired)
            } else if world.lock_holder == Some(me) {
                Some(InstallEvent::LockAcquired)
            } else {
                None
            }
        }
        InstallAction::ClearStaging(p) => {
            world.remove_subtree(p);
            Some(InstallEvent::StagingCleared)
        }
        InstallAction::RunInstaller(p) => {
            world.installs_run += 1;
            if world.install_succeeds {
                world.add(p);
                Some(InstallEvent::InstallFinished(true))
            } else {
                Some(InstallEvent::InstallFinished(false))
            }
        }
        InstallAction::PublishRename(from, to) => {
            world.remove_subtree(from);
            world.add(to);
            Some(InstallEvent::PublishFinished(true))
        }
        InstallAction::PublishSymlink(_from, to) => {
            world.add(to);
            Some(InstallEvent::PublishFinished(true))
        }
        InstallAction::Rollback(p) => {
            world.remove_subtree(p);
            if world.lock_holder == Some(me) {
                world.lock_holder = None;
            }
            Some(InstallEvent::RolledBack)
        }
        InstallAction::Finish => {
            if world.lock_holder == Some(me) {
                world.lock_holder = None;
            }
            None
        }
        InstallAction::Abort => {
            if world.lock_holder == Some(me) {
                world.lock_holder = None;
            }
            None
        }
    }
}

fn foo_app() -> App {
    let mut apps = ConfMap::new();
    apps.insert(
        "foo".to_string(),
        ConfValue::Dict(map_of(vec![
            ("type", s("single_file")),
            ("version", s("1.2.3")),
            ("url", s("http://x/foo-1.2.3")),
        ])),
    );
    let mut config = ConfMap::new();
    config.insert("apps".to_string(), ConfValue::Dict(apps));
    App::new("foo", &config, "linux", "x86_64").expect("resolve")
}

// Three racing processes: exactly one installer run, everyone succeeds.
#[test]
fn concurrent_ensure_installed_runs_installer_once() {
    let app = foo_app();
    let home = "/home/u";
    let mut world = FakeWorld::new(true);
    let mut machines: Vec<(InstallPhase, InstallAction)> =
        vec![app.start_install(home), app.start_install(home), app.start_install(home)];
    let mut done = [false, false, false];
    let mut guard = 0;
    while !done.iter().all(|d| *d) {
        guard += 1;
        assert!(guard < 1000, "simulation did not settle");
        for me in 0..machines.len() {
            if done[me] {
                continue;
            }
            let (phase, action) = &machines[me];
            if matches!(phase, InstallPhase::Complete | InstallPhase::Failed) {
                done[me] = true;
                continue;
            }
            if let Some(event) = perform(&mut world, me, action) {
                machines[me] = app.ensure_installed(home, *phase, event);
            }
            let (phase, action) = &machines[me];
            if matches!(
                action,
                InstallAction::Finish | InstallAction::Abort
            ) {
                perform(&mut world, me, action);
                assert!(matches!(phase, InstallPhase::Complete | InstallPhase::Failed));
                done[me] = true;
            }
        }
    }
    assert_eq!(world.installs_run, 1);
    assert!(world.has("/home/u/.cache/ozy/foo/1.2.3"));
}

// Scenario: a successful single-file install publishes by rename and the
// staging path is gone afterwards.
#[test]
fn successful_install_renames_staging_away() {
    let app = foo_app();
    let home = "/home/u";
    let mut world = FakeWorld::new(true);
    let (mut phase, mut action) = app.start_install(home);
    loop {
        match perform(&mut world, 0, &action) {
            Some(event) => {
                let next = app.ensure_installed(home, phase, event);
                phase = next.0;
                action = next.1;
            }
            None => break,
        }
    }
    assert!(matches!(phase, InstallPhase::Complete));
    assert!(world.has("/home/u/.cache/ozy/foo/1.2.3"));
    assert!(!world.has("/home/u/.cache/ozy/internal_install/foo/1.2.3"));
    assert_eq!(world.installs_run, 1);
}

// A failed install never leaves a directory at the published path.
#[test]
fn failed_install_leaves_no_published_path() {
    let app = foo_app();
    let home = "/home/u";
    let mut world = FakeWorld::new(false);
    let (mut phase, mut action) = app.start_install(home);
    loop {
        match perform(&mut world, 0, &action) {
            Some(event) => {
                let next = app.ensure_installed(home, phase, event);
                phase = next.0;
                action = next.1;
            }
            None => break,
        }
    }
    assert!(matches!(phase, InstallPhase::Failed));
    assert!(!world.has("/home/u/.cache/ozy/foo/1.2.3"));
    assert_eq!(world.installs_run, 1);
}

// Publication mode follows the relocatable flag.
#[test]
fn nonrelocatable_app_publishes_by_symlink() {
    let mut apps = ConfMap::new();
    apps.insert(
        "pinned".to_string(),
        ConfValue::Dict(map_of(vec![
            ("type", s("single_file")),
            ("version", s("1.0")),
            ("url", s("http://x/pinned")),
            ("relocatable", ConfValue::Bool(false)),
        ])),
    );
    let mut config = ConfMap::new();
    config.insert("apps".to_string(), ConfValue::Dict(apps));
    let app = App::new("pinned", &config, "linux", "x86_64").expect("resolve");

    let next = app.ensure_installed(
        "/home/u",
        InstallPhase::Installing,
        InstallEvent::InstallFinished(true),
    );
    assert!(matches!(next.1, InstallAction::PublishSymlink(_, _)));

    let relocatable = foo_app();
    let next = relocatable.ensure_installed(
        "/home/u",
        InstallPhase::Installing,
        InstallEvent::InstallFinished(true),
    );
    assert!(matches!(next.1, InstallAction::PublishRename(_, _)));
}

// A remote configuration declaring a newer version mandates re-exec.
#[test]
fn newer_remote_version_mandates_reexec() {
    let remote = map_of(vec![
        ("ozy_version", s("1.2.0")),
        ("ozy_download", s("http://x/ozy-{version}-{ozy_os}-{ozy_arch}")),
    ]);
    match ozy::update::update_decision(&remote, "1.1.9", "linux", "x86_64").expect("decide") {
        UpdateAction::ReExec(url) => assert_eq!(url, "http://x/ozy-1.2.0-linux-amd64"),
        UpdateAction::Commit => panic!("must never fall through to commit"),
    }

    match ozy::update::update_decision(&remote, "1.2.0", "linux", "x86_64").expect("decide") {
        UpdateAction::Commit => {}
        UpdateAction::ReExec(_) => panic!("not newer: must commit"),
    }
}

// The verified precedence agrees with the semver crate.
#[test]
fn version_precedence_matches_semver_crate() {
    let cases = [
        ("1.0.0", "1.0.1"),
        ("1.0.0", "1.0.0"),
        ("2.0.0", "1.9.9"),
        ("1.0.0-alpha", "1.0.0"),
        ("1.0.0-alpha", "1.0.0-alpha.1"),
        ("1.0.0-alpha.1", "1.0.0-alpha.beta"),
        ("1.0.0-beta.2", "1.0.0-beta.11"),
        ("1.0.0-rc.1", "1.0.0"),
        ("1.0.0+build.5", "1.0.0"),
    ];
    for (a, b) in cases {
        let va = ozy::version::Version::parse(a).expect("parse");
        let vb = ozy::version::Version::parse(b).expect("parse");
        let sa = semver::Version::parse(a).unwrap();
        let sb = semver::Version::parse(b).unwrap();
        assert_eq!(
            va.lt(&vb),
            sa.cmp_precedence(&sb) == std::cmp::Ordering::Less,
            "{} < {}",
            a,
            b
        );
        assert_eq!(
            vb.lt(&va),
            sb.cmp_precedence(&sa) == std::cmp::Ordering::Less,
            "{} < {}",
            b,
            a
        );
    }
    assert!(ozy::version::Version::parse("not-a-version").is_err());
}

// Content sniffing recognises the three compressions and nothing else.
#[test]
fn compression_sniffing_goes_by_magic_bytes() {
    let gz = vec![0x1f, 0x8b, 0x08, 0x00];
    let bz = vec![0x42, 0x5a, 0x68, 0x39];
    let xz = vec![0xfd, 0x37, 0x7a, 0x58, 0x5a, 0x00];
    assert!(matches!(get_compressed_file_type(&gz), Ok(CompressedFileType::GZIP2)));
    assert!(matches!(get_compressed_file_type(&bz), Ok(CompressedFileType::BZIP2)));
    assert!(matches!(get_compressed_file_type(&xz), Ok(CompressedFileType::XZ)));
    let junk = vec![0x00, 0x01, 0x02];
    assert!(matches!(
        get_compressed_file_type(&junk),
        Err(ozy::errors::OzyError::InstallError(_))
    ));
}

// Round trip through a real gzip stream: the verified dispatcher hands
// the decompressed tar bytes back.
#[test]
fn decompress_archive_round_trips_gzip() {
    let payload = b"payload bytes for the archive".to_vec();
    let mut encoder = flate2::write::GzEncoder::new(Vec::new(), flate2::Compression::default());
    encoder.write_all(&payload).unwrap();
    let compressed = encoder.finish().unwrap();
    let out = ozy::installers::tarball::decompress_archive(&compressed).expect("decompress");
    assert_eq!(out, payload);
}

// A zip archive with one entry yields that entry; more entries fail.
#[test]
fn single_binary_zip_requires_exactly_one_entry() {
    let installer = ozy::installers::single_binary_zip::SingleBinaryZip {
        name: "tool".to_string(),
        version: "1.0".to_string(),
        url: "http://x/tool.zip".to_string(),
    };

    let mut one = zip::ZipWriter::new(std::io::Cursor::new(Vec::new()));
    one.start_file("tool", zip::write::SimpleFileOptions::default()).unwrap();
    one.write_all(b"binary contents").unwrap();
    let one_bytes = one.finish().unwrap().into_inner();
    let out = installer.extract_single_entry(&one_bytes).expect("extract");
    assert_eq!(out, b"binary contents");

    let mut two = zip::ZipWriter::new(std::io::Cursor::new(Vec::new()));
    two.start_file("a", zip::write::SimpleFileOptions::default()).unwrap();
    two.write_all(b"first").unwrap();
    two.start_file("b", zip::write::SimpleFileOptions::default()).unwrap();
    two.write_all(b"second").unwrap();
    let two_bytes = two.finish().unwrap().into_inner();
    assert!(matches!(
        installer.extract_single_entry(&two_bytes),
        Err(ozy::errors::OzyError::InstallError(_))
    ));
}

#[test]
fn retry_classification_follows_status_codes() {
    let base = RequestErrorFacts {
        is_timeout: false,
        is_connect: false,
        is_decode: false,
        is_body: false,
        is_builder: false,
        is_request: false,
        is_redirect: false,
        status: None,
    };
    assert!(is_request_retryable_based_on_error(&RequestErrorFacts { is_timeout: true, ..base }));
    assert!(is_request_retryable_based_on_error(&RequestErrorFacts { is_connect: true, ..base }));
    assert!(!is_request_retryable_based_on_error(&RequestErrorFacts { is_decode: true, ..base }));
    assert!(is_request_retryable_based_on_error(&RequestErrorFacts { status: Some(503), ..base }));
    assert!(!is_request_retryable_based_on_error(&RequestErrorFacts { status: Some(404), ..base }));
    assert!(is_request_retryable_based_on_error(&base));
    assert_eq!(ozy::net::retry_wait_ms(1), 200);
    assert_eq!(ozy::net::retry_wait_ms(4), 1600);
    assert_eq!(ozy::net::retry_wait_ms(7), 12800);
}

#[test]
fn managed_paths_derive_from_home() {
    assert_eq!(ozy::files::get_ozy_dir("/home/u"), "/home/u/.ozy");
    assert_eq!(ozy::files::get_ozy_bin_dir("/home/u"), "/home/u/.ozy/bin");
    assert_eq!(ozy::files::get_ozy_cache_dir("/home/u"), "/home/u/.cache/ozy");
    let order = ozy::files::delete_ozy_dirs("/home/u");
    assert_eq!(order, vec!["/home/u/.ozy", "/home/u/.ozy/bin", "/home/u/.cache/ozy"]);

    let app = foo_app();
    assert_eq!(app.get_install_path("/home/u"), "/home/u/.cache/ozy/foo/1.2.3");
    assert_eq!(
        app.get_internal_install_path("/home/u"),
        "/home/u/.cache/ozy/internal_install/foo/1.2.3"
    );
    assert_eq!(app.get_absolute_executable_path("/home/u"), "/home/u/.cache/ozy/foo/1.2.3/foo");
}

#[test]
fn dispatch_goes_by_invocation_name() {
    assert!(matches!(dispatch_mode("ozy"), DispatchMode::Subcommands));
    assert!(matches!(dispatch_mode("ozy.tmp.1234"), DispatchMode::Subcommands));
    assert!(matches!(dispatch_mode("terraform"), DispatchMode::RunApp));
}

#[test]
fn should_update_needs_nonzero_interval() {
    let with_interval = map_of(vec![("ozy_update_every", ConfValue::Num(60))]);
    assert!(ozy::update::should_update(&with_interval, 60));
    assert!(ozy::update::should_update(&with_interval, 61));
    assert!(!ozy::update::should_update(&with_interval, 59));
    let zero = map_of(vec![("ozy_update_every", ConfValue::Num(0))]);
    assert!(!ozy::update::should_update(&zero, 1000));
    let absent = map_of(vec![]);
    assert!(!ozy::update::should_update(&absent, 1000));
}

// Bulk resolution processes apps in configuration order, skipping the
// names that fail to resolve.
#[test]
fn bulk_resolution_keeps_config_order() {
    let mut apps = ConfMap::new();
    apps.insert(
        "zeta".to_string(),
        ConfValue::Dict(map_of(vec![
            ("type", s("single_file")),
            ("version", s("1")),
            ("url", s("http://x/z")),
        ])),
    );
    apps.insert(
        "broken".to_string(),
        ConfValue::Dict(map_of(vec![("type", s("single_file")), ("version", s("1"))])),
    );
    apps.insert(
        "alpha".to_string(),
        ConfValue::Dict(map_of(vec![
            ("type", s("single_file")),
            ("version", s("2")),
            ("url", s("http://x/a")),
        ])),
    );
    let mut config = ConfMap::new();
    config.insert("apps".to_string(), ConfValue::Dict(apps));
    let (resolved, skipped) = ozy::app::get_apps(&config, "linux", "x86_64").expect("apps");
    let names: Vec<&str> = resolved.iter().map(|a| a.name.as_str()).collect();
    assert_eq!(names, vec!["zeta", "alpha"]);
    assert_eq!(skipped.len(), 1);
    assert_eq!(skipped[0].0, "broken");
}

// The resolver's error messages name the offending field or tag.
#[test]
fn resolver_error_messages_name_the_cause() {
    let mut apps = ConfMap::new();
    apps.insert(
        "a".to_string(),
        ConfValue::Dict(map_of(vec![("type", s("single_file")), ("url", s("http://u"))])),
    );
    let mut config = ConfMap::new();
    config.insert("apps".to_string(), ConfValue::Dict(apps));
    let err = App::new("a", &config, "linux", "x86_64").unwrap_err();
    assert_eq!(err.message(), "Expected a string version in config for a");

    let mut apps = ConfMap::new();
    apps.insert(
        "b".to_string(),
        ConfValue::Dict(map_of(vec![("type", s("msi")), ("version", s("1"))])),
    );
    let mut config = ConfMap::new();
    config.insert("apps".to_string(), ConfValue::Dict(apps));
    let err = App::new("b", &config, "linux", "x86_64").unwrap_err();
    assert_eq!(err.message(), "App type msi not yet supported");
}

