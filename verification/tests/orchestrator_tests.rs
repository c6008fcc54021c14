use std::io::{Cursor, Write};

use auto_updater::command::Command;
use auto_updater::config::{ArchiveLayout, Artifact, Component, Config, SignalFile};
use auto_updater::delegate::{DelegationOutcome, InvokeReply, RunMode};
use auto_updater::extract::{DirEntry, ExtractError, RenameRule};
use auto_updater::install::{DownloadReply, InstallError};
use auto_updater::model::{Outcome, UpdateError};
use auto_updater::orchestrator::{
    extract_fault_of, fetch_fault_of, install_fault_of, Orchestrator, Phase,
};
use auto_updater::platform::PlatformKey;
use auto_updater::protocol::{Action, Event};
use auto_updater::release::{AssetInfo, FeedReply, FetchError, HttpRequest, ReleaseInfo};
use auto_updater::version_cache::VersionCache;
use zip::write::FileOptions;
use zip::{CompressionMethod, ZipWriter};

const BIN: &str = "garrysmod/lua/bin";
const CACHE: &str = "garrysmod/lua/bin/versions.json";
const TARGET: &str = "./garrysmod/addons/_latest";
const ARCHIVE: &str = "addon.zip";

fn binary(name: &str) -> Component {
    Component {
        name: name.to_string(),
        feed_url: format!("https://feed.test/{}", name),
        artifact: Artifact::Binary { module: name.to_string() },
    }
}

fn archive(name: &str) -> Component {
    Component {
        name: name.to_string(),
        feed_url: format!("https://feed.test/{}", name),
        artifact: Artifact::Archive(ArchiveLayout {
            url_base: "https://code.test/archive/refs/tags/".to_string(),
            url_ext: ".zip".to_string(),
            archive_path: ARCHIVE.to_string(),
            target_dir: TARGET.to_string(),
            renames: vec![RenameRule { from: "lua/old.lua".to_string(), to: "lua/new.lua".to_string() }],
        }),
    }
}

fn config(dependencies: Vec<Component>, primary: Component, signal: bool) -> Config {
    Config {
        platform: PlatformKey::Linux64,
        user_agent: "Test-Updater".to_string(),
        bin_dir: BIN.to_string(),
        asset_prefix: "gmsv".to_string(),
        asset_ext: "dll".to_string(),
        cache_path: CACHE.to_string(),
        signal: if signal {
            Some(SignalFile {
                path: "garrysmod/data/tmp.json".to_string(),
                content: "{\"updated\": true}".to_string(),
            })
        } else {
            None
        },
        dependencies,
        primary,
        delegate_to: Some("x".to_string()),
        start_symbol: "gmod13_open".to_string(),
        stop_symbol: "gmod13_close".to_string(),
    }
}

fn cache_with(entries: &[(&str, &str)]) -> Option<String> {
    let mut cache = VersionCache::new();
    for (name, tag) in entries {
        cache.set(name, tag);
    }
    Some(cache.to_text())
}

fn feed(tag: &str, assets: &[(&str, &str)]) -> Event {
    Event::FeedAnswered(FeedReply::Answered {
        status: 200,
        release: Some(ReleaseInfo {
            tag: tag.to_string(),
            assets: assets
                .iter()
                .map(|(name, url)| AssetInfo { name: name.to_string(), download_url: url.to_string() })
                .collect(),
        }),
    })
}

fn stored(len: u64, head: &[u8]) -> Event {
    Event::Downloaded(DownloadReply::Stored { len, head: head.to_vec() })
}

fn ok() -> Event {
    Event::Done(true)
}

fn build_zip(directories: &[&str], files: &[(&str, &str)]) -> Vec<u8> {
    let mut writer = ZipWriter::new(Cursor::new(Vec::new()));
    let options = FileOptions::default().compression_method(CompressionMethod::Stored);
    for name in directories {
        writer.add_directory(name.to_string(), options).unwrap();
    }
    for (name, content) in files {
        writer.start_file(name.to_string(), options).unwrap();
        writer.write_all(content.as_bytes()).unwrap();
    }
    writer.finish().unwrap().into_inner()
}

fn probe_path(action: &Action) -> String {
    match action {
        Action::Probe { path } => path.clone(),
        other => panic!("expected Probe, got {:?}", other),
    }
}

fn command(action: Action) -> Command {
    match action {
        Action::Run(command) => command,
        other => panic!("expected Run, got {:?}", other),
    }
}

fn finish_code(action: &Action) -> i32 {
    match action {
        Action::Finish { code } => *code,
        other => panic!("expected Finish, got {:?}", other),
    }
}

fn describe(action: &Action) -> String {
    match action {
        Action::LoadCache { path } => format!("load {}", path),
        Action::Probe { path } => format!("probe {}", path),
        Action::FetchRelease { request } => format!("fetch {}", request.url),
        Action::Download { request, dir, staging } => {
            format!("download {} dir={} staging={}", request.url, dir, staging)
        }
        Action::Run(Command::RemoveFile { path }) => format!("rm {}", path),
        Action::Run(Command::RemoveTree { path }) => format!("rmtree {}", path),
        Action::Run(Command::CreateDir { path }) => format!("mkdir {}", path),
        Action::Run(Command::Rename { from, to }) => format!("mv {} {}", from, to),
        Action::Run(Command::WriteEntry { archive, index, dir, path }) => {
            format!("unzip {}#{} dir={} to={}", archive, index, dir, path)
        }
        Action::Run(Command::WriteFile { path, content }) => format!("write {} {}", path, content),
        Action::ReadArchive { path } => format!("read {}", path),
        Action::ListDir { path } => format!("ls {}", path),
        Action::Invoke { module, symbol } => format!("invoke {} {}", module, symbol),
        Action::Finish { code } => format!("finish {}", code),
    }
}

/// Feeds the events one after the other and returns what the run asked for.
fn drive(start: (Orchestrator, Action), events: Vec<Event>) -> (Orchestrator, Vec<String>) {
    let (mut run, first) = start;
    let mut asked = vec![describe(&first)];
    for event in events {
        let (next, action) = run.step(event);
        asked.push(describe(&action));
        run = next;
    }
    (run, asked)
}

#[test]
fn end_to_end_update_then_delegate() {
    let (run, action) = Orchestrator::start(config(vec![], binary("x"), false));
    assert_eq!(describe(&action), "load garrysmod/lua/bin/versions.json");

    let (run, action) = run.step(Event::CacheLoaded(cache_with(&[("x", "v1.0.0")])));
    assert_eq!(probe_path(&action), "garrysmod/lua/bin/gmsv_x_linux64.dll");

    let (run, action) = run.step(Event::Probed(true));
    match &action {
        Action::FetchRelease { request } => assert_eq!(
            request,
            &HttpRequest {
                url: "https://feed.test/x".to_string(),
                user_agent: "Test-Updater".to_string(),
                timeout_secs: 30,
            }
        ),
        other => panic!("expected FetchRelease, got {:?}", other),
    }

    let (run, action) = run.step(feed("v2.0.0", &[("gmsv_x_linux64.dll", "https://dl.test/x.dll")]));
    match &action {
        Action::Download { request, dir, staging } => {
            assert_eq!(request.url, "https://dl.test/x.dll");
            assert_eq!(request.user_agent, "Test-Updater");
            assert_eq!(request.timeout_secs, 30);
            assert_eq!(dir, "garrysmod/lua/bin");
            assert_eq!(staging, "garrysmod/lua/bin/gmsv_x_linux64.tmp");
        }
        other => panic!("expected Download, got {:?}", other),
    }
    assert_eq!(run.context.cache.get("x"), Some("v1.0.0".to_string()));

    let (run, action) = run.step(stored(4096, b"\x7fELF"));
    match command(action) {
        Command::Rename { from, to } => {
            assert_eq!(from, "garrysmod/lua/bin/gmsv_x_linux64.tmp");
            assert_eq!(to, "garrysmod/lua/bin/gmsv_x_linux64.dll");
        }
        other => panic!("expected Rename, got {:?}", other),
    }
    assert_eq!(run.context.cache.get("x"), Some("v1.0.0".to_string()));

    let (run, action) = run.step(ok());
    assert_eq!(run.context.cache.get("x"), Some("v2.0.0".to_string()));
    match command(action) {
        Command::WriteFile { path, content } => {
            assert_eq!(path, CACHE);
            assert_eq!(content, "{\n  \"x\": \"v2.0.0\"\n}");
            let saved = VersionCache::from_text(Some(content));
            assert_eq!(saved.get("x"), Some("v2.0.0".to_string()));
            assert_eq!(saved.component_names(), vec!["x".to_string()]);
        }
        other => panic!("expected WriteFile, got {:?}", other),
    }

    let (run, action) = run.step(ok());
    assert_eq!(probe_path(&action), "garrysmod/lua/bin/gmsv_x_linux64.dll");

    let (run, action) = run.step(Event::Probed(true));
    assert_eq!(describe(&action), "invoke garrysmod/lua/bin/gmsv_x_linux64.dll gmod13_open");

    let (run, action) = run.step(Event::Invoked(InvokeReply::Returned(42)));
    assert_eq!(finish_code(&action), 42);
    assert!(run.is_finished());
    assert_eq!(run.context.log, vec![Outcome::Updated]);
}

#[test]
fn end_to_end_asks_for_one_download_only() {
    let (_, asked) = drive(
        Orchestrator::start(config(vec![], binary("x"), false)),
        vec![
            Event::CacheLoaded(cache_with(&[("x", "v1.0.0")])),
            Event::Probed(true),
            feed("v2.0.0", &[("gmsv_x_linux64.dll", "https://dl.test/x.dll")]),
            stored(4096, b"\x7fELF"),
            ok(),
            ok(),
            Event::Probed(true),
            Event::Invoked(InvokeReply::Returned(0)),
        ],
    );
    let downloads: usize = asked.iter().filter(|a| a.starts_with("download ")).count();
    assert_eq!(downloads, 1);
    assert_eq!(asked.last().unwrap(), "finish 0");
}

#[test]
fn first_run_with_empty_cache_installs_and_remembers() {
    let (run, asked) = drive(
        Orchestrator::start(config(vec![], binary("x"), false)),
        vec![
            Event::CacheLoaded(None),
            Event::Probed(false),
            feed("v0.1.0", &[("other.dll", "u0"), ("gmsv_x_linux64.dll", "u1")]),
            stored(1, b"M"),
            ok(),
        ],
    );
    assert_eq!(
        asked[3],
        "download u1 dir=garrysmod/lua/bin staging=garrysmod/lua/bin/gmsv_x_linux64.tmp"
    );
    assert_eq!(
        asked[4],
        "mv garrysmod/lua/bin/gmsv_x_linux64.tmp garrysmod/lua/bin/gmsv_x_linux64.dll"
    );
    assert_eq!(asked[5], "write garrysmod/lua/bin/versions.json {\n  \"x\": \"v0.1.0\"\n}");
    assert_eq!(run.context.cache.get("x"), Some("v0.1.0".to_string()));
    assert!(run.context.dirty);
}

#[test]
fn up_to_date_component_is_not_downloaded() {
    let (run, asked) = drive(
        Orchestrator::start(config(vec![], binary("x"), true)),
        vec![
            Event::CacheLoaded(cache_with(&[("x", "v2.0.0")])),
            Event::Probed(true),
            feed("v2.0.0", &[("gmsv_x_linux64.dll", "u1")]),
        ],
    );
    assert_eq!(
        asked,
        vec![
            "load garrysmod/lua/bin/versions.json",
            "probe garrysmod/lua/bin/gmsv_x_linux64.dll",
            "fetch https://feed.test/x",
            "probe garrysmod/lua/bin/gmsv_x_linux64.dll",
        ]
    );
    assert_eq!(run.context.log, vec![Outcome::UpToDate]);
    assert_eq!(run.context.cache.get("x"), Some("v2.0.0".to_string()));
    assert!(!run.context.dirty);
    assert!(matches!(run.phase, Phase::AwaitModuleProbe));
}

#[test]
fn missing_artifact_triggers_install_despite_matching_cache() {
    let (run, asked) = drive(
        Orchestrator::start(config(vec![], binary("x"), false)),
        vec![
            Event::CacheLoaded(cache_with(&[("x", "v2.0.0")])),
            Event::Probed(false),
            feed("v2.0.0", &[("gmsv_x_linux64.dll", "u1")]),
        ],
    );
    assert!(asked[3].starts_with("download u1 "));
    assert!(matches!(run.phase, Phase::AwaitDownload { comp: 0, .. }));
}

#[test]
fn a_failing_dependency_does_not_block_the_others() {
    let (run, asked) = drive(
        Orchestrator::start(config(vec![binary("GWSockets"), binary("reqwest")], binary("x"), false)),
        vec![
            Event::CacheLoaded(None),
            Event::Probed(false),
            Event::FeedAnswered(FeedReply::Unreachable),
            Event::Probed(false),
            Event::FeedAnswered(FeedReply::Answered { status: 503, release: None }),
            Event::Probed(true),
            Event::FeedAnswered(FeedReply::Answered { status: 200, release: None }),
            Event::Probed(true),
        ],
    );
    assert_eq!(
        asked,
        vec![
            "load garrysmod/lua/bin/versions.json",
            "probe garrysmod/lua/bin/gmsv_gwsockets_linux64.dll",
            "fetch https://feed.test/GWSockets",
            "probe garrysmod/lua/bin/gmsv_reqwest_linux64.dll",
            "fetch https://feed.test/reqwest",
            "probe garrysmod/lua/bin/gmsv_x_linux64.dll",
            "fetch https://feed.test/x",
            "probe garrysmod/lua/bin/gmsv_x_linux64.dll",
            "invoke garrysmod/lua/bin/gmsv_x_linux64.dll gmod13_open",
        ]
    );
    assert_eq!(
        run.context.log,
        vec![
            Outcome::Failed(UpdateError::Network),
            Outcome::Failed(UpdateError::HttpStatus),
            Outcome::Failed(UpdateError::Decode),
        ]
    );
}

#[test]
fn dependency_update_is_saved_even_if_the_primary_fails() {
    let (run, asked) = drive(
        Orchestrator::start(config(vec![binary("dep")], binary("x"), true)),
        vec![
            Event::CacheLoaded(None),
            Event::Probed(false),
            feed("d1", &[("gmsv_dep_linux64.dll", "ud")]),
            stored(10, b"MZ"),
            ok(),
            Event::Probed(true),
            feed("", &[("gmsv_x_linux64.dll", "ux")]),
        ],
    );
    assert_eq!(asked[5], "probe garrysmod/lua/bin/gmsv_x_linux64.dll");
    assert_eq!(asked[7], "write garrysmod/lua/bin/versions.json {\n  \"dep\": \"d1\"\n}");
    assert_eq!(
        run.context.log,
        vec![Outcome::Updated, Outcome::Failed(UpdateError::InvalidRelease)]
    );
    let (_, action) = run.step(ok());
    assert_eq!(probe_path(&action), "garrysmod/lua/bin/gmsv_x_linux64.dll");
}

#[test]
fn release_without_platform_asset_is_skipped() {
    let (run, asked) = drive(
        Orchestrator::start(config(vec![], binary("x"), false)),
        vec![
            Event::CacheLoaded(None),
            Event::Probed(false),
            feed("v1", &[("gmsv_x_win64.dll", "u")]),
        ],
    );
    assert_eq!(asked[3], "probe garrysmod/lua/bin/gmsv_x_linux64.dll");
    assert_eq!(run.context.log, vec![Outcome::Failed(UpdateError::AssetNotFound)]);
    assert_eq!(run.context.cache.get("x"), None);
}

#[test]
fn an_empty_download_is_discarded() {
    let (run, asked) = drive(
        Orchestrator::start(config(vec![], binary("x"), false)),
        vec![
            Event::CacheLoaded(None),
            Event::Probed(false),
            feed("v1", &[("gmsv_x_linux64.dll", "u")]),
            stored(0, b""),
            Event::Done(false),
        ],
    );
    assert_eq!(asked[4], "rm garrysmod/lua/bin/gmsv_x_linux64.tmp");
    assert_eq!(asked[5], "probe garrysmod/lua/bin/gmsv_x_linux64.dll");
    assert_eq!(run.context.log, vec![Outcome::Failed(UpdateError::Integrity)]);
    assert_eq!(run.context.cache.get("x"), None);
    assert!(!run.context.dirty);
}

#[test]
fn a_refused_download_needs_no_cleanup() {
    let (run, asked) = drive(
        Orchestrator::start(config(vec![], binary("x"), false)),
        vec![
            Event::CacheLoaded(None),
            Event::Probed(false),
            feed("v1", &[("gmsv_x_linux64.dll", "u")]),
            Event::Downloaded(DownloadReply::Refused { status: 404 }),
        ],
    );
    assert_eq!(asked[4], "probe garrysmod/lua/bin/gmsv_x_linux64.dll");
    assert_eq!(run.context.log, vec![Outcome::Failed(UpdateError::HttpStatus)]);
}

#[test]
fn a_failed_write_is_cleaned_up() {
    let (run, asked) = drive(
        Orchestrator::start(config(vec![], binary("x"), false)),
        vec![
            Event::CacheLoaded(None),
            Event::Probed(false),
            feed("v1", &[("gmsv_x_linux64.dll", "u")]),
            Event::Downloaded(DownloadReply::WriteFailed),
            ok(),
        ],
    );
    assert_eq!(asked[4], "rm garrysmod/lua/bin/gmsv_x_linux64.tmp");
    assert_eq!(run.context.log, vec![Outcome::Failed(UpdateError::Filesystem)]);
}

#[test]
fn a_failed_publication_removes_the_staging_file_and_keeps_the_cache() {
    let (run, asked) = drive(
        Orchestrator::start(config(vec![], binary("x"), true)),
        vec![
            Event::CacheLoaded(cache_with(&[("x", "v1")])),
            Event::Probed(true),
            feed("v2", &[("gmsv_x_linux64.dll", "u")]),
            stored(10, b"MZ"),
            Event::Done(false),
            ok(),
        ],
    );
    assert!(asked[4].starts_with("mv "));
    assert_eq!(asked[5], "rm garrysmod/lua/bin/gmsv_x_linux64.tmp");
    assert_eq!(asked[6], "probe garrysmod/lua/bin/gmsv_x_linux64.dll");
    assert_eq!(run.context.log, vec![Outcome::Failed(UpdateError::Filesystem)]);
    assert_eq!(run.context.cache.get("x"), Some("v1".to_string()));
    assert!(!run.context.refreshed);
}

#[test]
fn archive_component_is_downloaded_unpacked_and_flattened() {
    let bytes = build_zip(&["addon-v3/"], &[("addon-v3/lua/old.lua", "x"), ("addon-v3/README", "y")]);
    let (run, asked) = drive(
        Orchestrator::start(config(vec![], archive("addon"), true)),
        vec![
            Event::CacheLoaded(None),
            Event::Probed(false),
            feed("v3", &[("anything", "ignored")]),
            stored(5000, b"PK\x03\x04"),
            ok(),
            Event::ArchiveRead(Some(bytes)),
            ok(),
            ok(),
            ok(),
            Event::Done(false),
            ok(),
            Event::Listed(Some(vec![DirEntry { name: "addon-v3".to_string(), is_dir: true }])),
            Event::Listed(Some(vec![
                DirEntry { name: "lua".to_string(), is_dir: true },
                DirEntry { name: "README".to_string(), is_dir: false },
            ])),
            ok(),
            ok(),
            ok(),
            Event::Done(false),
            Event::Done(false),
            ok(),
            ok(),
            ok(),
            ok(),
        ],
    );
    assert_eq!(
        asked,
        vec![
            "load garrysmod/lua/bin/versions.json",
            "probe ./garrysmod/addons/_latest",
            "fetch https://feed.test/addon",
            "download https://code.test/archive/refs/tags/v3.zip dir= staging=addon.tmp",
            "mv addon.tmp addon.zip",
            "read addon.zip",
            "rmtree ./garrysmod/addons/_latest",
            "mkdir ./garrysmod/addons/_latest",
            "mkdir ./garrysmod/addons/_latest/addon-v3/",
            "unzip addon.zip#1 dir=./garrysmod/addons/_latest/addon-v3/lua to=./garrysmod/addons/_latest/addon-v3/lua/old.lua",
            "unzip addon.zip#2 dir=./garrysmod/addons/_latest/addon-v3 to=./garrysmod/addons/_latest/addon-v3/README",
            "ls ./garrysmod/addons/_latest",
            "ls ./garrysmod/addons/_latest/addon-v3",
            "mv ./garrysmod/addons/_latest/addon-v3/lua ./garrysmod/addons/_latest/lua",
            "mv ./garrysmod/addons/_latest/addon-v3/README ./garrysmod/addons/_latest/README",
            "rmtree ./garrysmod/addons/_latest/addon-v3",
            "rmtree ./garrysmod/addons/_latest/.git",
            "rmtree ./garrysmod/addons/_latest/.github",
            "mv ./garrysmod/addons/_latest/lua/old.lua ./garrysmod/addons/_latest/lua/new.lua",
            "rm addon.zip",
            "write garrysmod/lua/bin/versions.json {\n  \"addon\": \"v3\"\n}",
            "write garrysmod/data/tmp.json {\"updated\": true}",
            "probe garrysmod/lua/bin/gmsv_x_linux64.dll",
        ]
    );
    assert_eq!(run.context.cache.get("addon"), Some("v3".to_string()));
    assert_eq!(run.context.log, vec![Outcome::Updated]);
    assert!(run.context.refreshed);
}

#[test]
fn archive_download_uses_the_long_timeout() {
    let (run, _) = drive(
        Orchestrator::start(config(vec![], archive("addon"), false)),
        vec![Event::CacheLoaded(None), Event::Probed(false)],
    );
    let (_, action) = run.step(feed("v3", &[("a", "u")]));
    match action {
        Action::Download { request, .. } => assert_eq!(request.timeout_secs, 120),
        other => panic!("expected Download, got {:?}", other),
    }
}

#[test]
fn archive_without_wrapper_is_used_as_unpacked() {
    let bytes = build_zip(&[], &[("a.txt", "x"), ("b.txt", "y")]);
    let (_, asked) = drive(
        Orchestrator::start(config(vec![], archive("addon"), false)),
        vec![
            Event::CacheLoaded(None),
            Event::Probed(false),
            feed("v3", &[("a", "u")]),
            stored(5000, b"PK\x03\x04"),
            ok(),
            Event::ArchiveRead(Some(bytes)),
            ok(),
            ok(),
            ok(),
            ok(),
            Event::Listed(Some(vec![
                DirEntry { name: "a.txt".to_string(), is_dir: false },
                DirEntry { name: "b.txt".to_string(), is_dir: false },
            ])),
        ],
    );
    assert_eq!(asked[10], "ls ./garrysmod/addons/_latest");
    assert_eq!(
        asked[11],
        "mv ./garrysmod/addons/_latest/lua/old.lua ./garrysmod/addons/_latest/lua/new.lua"
    );
}

#[test]
fn archive_with_traversal_entry_is_rejected_and_cleared_away() {
    let bytes = build_zip(&[], &[("ok.txt", "fine"), ("../../outside.txt", "evil")]);
    let (run, asked) = drive(
        Orchestrator::start(config(vec![], archive("addon"), true)),
        vec![
            Event::CacheLoaded(cache_with(&[("addon", "v2")])),
            Event::Probed(true),
            Event::Probed(false),
            feed("v3", &[("a", "u")]),
            stored(5000, b"PK\x03\x04"),
            ok(),
            Event::ArchiveRead(Some(bytes)),
            ok(),
            ok(),
        ],
    );
    assert_eq!(asked[2], "probe addon.zip");
    assert_eq!(asked[7], "rmtree ./garrysmod/addons/_latest");
    assert_eq!(asked[8], "rm addon.zip");
    assert_eq!(asked[9], "probe garrysmod/lua/bin/gmsv_x_linux64.dll");
    assert!(asked.iter().all(|a| !a.starts_with("unzip ") && !a.starts_with("mkdir ")));
    assert!(asked.iter().all(|a| !a.contains("outside.txt")));
    assert_eq!(run.context.log, vec![Outcome::Failed(UpdateError::UnsafePath)]);
    assert_eq!(run.context.cache.get("addon"), Some("v2".to_string()));
    assert!(!run.context.refreshed);
    assert!(!run.context.dirty);
}

#[test]
fn a_body_without_zip_signature_is_never_published_as_archive() {
    let (run, asked) = drive(
        Orchestrator::start(config(vec![], archive("addon"), false)),
        vec![
            Event::CacheLoaded(None),
            Event::Probed(false),
            feed("v3", &[("a", "u")]),
            stored(5000, b"<!DOCTYPE html>"),
            ok(),
        ],
    );
    assert_eq!(asked[4], "rm addon.tmp");
    assert!(asked.iter().all(|a| !a.starts_with("mv ")));
    assert_eq!(run.context.log, vec![Outcome::Failed(UpdateError::Integrity)]);
}

#[test]
fn a_corrupt_archive_is_deleted_and_the_update_given_up() {
    let (run, asked) = drive(
        Orchestrator::start(config(vec![], archive("addon"), false)),
        vec![
            Event::CacheLoaded(None),
            Event::Probed(false),
            feed("v3", &[("a", "u")]),
            stored(5000, b"PK\x03\x04"),
            ok(),
            Event::ArchiveRead(Some(b"PK\x03\x04 truncated".to_vec())),
            Event::Done(false),
            ok(),
        ],
    );
    assert_eq!(asked[6], "rmtree ./garrysmod/addons/_latest");
    assert_eq!(asked[7], "rm addon.zip");
    assert_eq!(asked[8], "probe garrysmod/lua/bin/gmsv_x_linux64.dll");
    assert_eq!(run.context.log, vec![Outcome::Failed(UpdateError::ArchiveCorrupt)]);
    assert_eq!(run.context.cache.get("addon"), None);
}

#[test]
fn an_unreadable_archive_file_is_a_filesystem_fault() {
    let (run, asked) = drive(
        Orchestrator::start(config(vec![], archive("addon"), false)),
        vec![
            Event::CacheLoaded(None),
            Event::Probed(false),
            feed("v3", &[("a", "u")]),
            stored(5000, b"PK\x03\x04"),
            ok(),
            Event::ArchiveRead(None),
            ok(),
        ],
    );
    assert_eq!(asked[6], "rm addon.zip");
    assert_eq!(run.context.log, vec![Outcome::Failed(UpdateError::Filesystem)]);
}

#[test]
fn a_target_that_cannot_be_created_ends_the_extraction() {
    let bytes = build_zip(&[], &[("a.txt", "x")]);
    let (run, asked) = drive(
        Orchestrator::start(config(vec![], archive("addon"), false)),
        vec![
            Event::CacheLoaded(None),
            Event::Probed(false),
            feed("v3", &[("a", "u")]),
            stored(5000, b"PK\x03\x04"),
            ok(),
            Event::ArchiveRead(Some(bytes)),
            Event::Done(false),
            Event::Done(false),
            ok(),
        ],
    );
    assert_eq!(asked[6], "rmtree ./garrysmod/addons/_latest");
    assert_eq!(asked[7], "mkdir ./garrysmod/addons/_latest");
    assert_eq!(asked[8], "rm addon.zip");
    assert_eq!(asked[9], "probe garrysmod/lua/bin/gmsv_x_linux64.dll");
    assert_eq!(run.context.log, vec![Outcome::Failed(UpdateError::Filesystem)]);
    assert_eq!(run.context.cache.get("addon"), None);
}

#[test]
fn a_run_cut_short_is_repeated_by_the_next_one() {
    let events = || {
        vec![
            Event::CacheLoaded(cache_with(&[("addon", "v2")])),
            Event::Probed(true),
            Event::Probed(false),
            feed("v3", &[("a", "u")]),
        ]
    };
    let (first, asked_first) =
        drive(Orchestrator::start(config(vec![], archive("addon"), false)), events());
    let (interrupted, _) = drive(
        (first, Action::Finish { code: 0 }),
        vec![stored(5000, b"PK\x03\x04"), ok()],
    );
    assert!(matches!(interrupted.phase, Phase::AwaitArchive { .. }));
    assert_eq!(interrupted.context.cache.get("addon"), Some("v2".to_string()));

    let (_, asked_second) = drive(
        Orchestrator::start(config(vec![], archive("addon"), false)),
        vec![
            Event::CacheLoaded(Some(interrupted.context.cache.to_text())),
            Event::Probed(true),
            Event::Probed(true),
            feed("v3", &[("a", "u")]),
        ],
    );
    assert_eq!(asked_first, asked_second);
    assert!(asked_second[4].starts_with("download "));
}

#[test]
fn a_left_over_archive_forces_a_reinstall_of_the_cached_tag() {
    let (run, asked) = drive(
        Orchestrator::start(config(vec![], archive("addon"), false)),
        vec![
            Event::CacheLoaded(cache_with(&[("addon", "v3")])),
            Event::Probed(true),
            Event::Probed(true),
            feed("v3", &[("a", "u")]),
        ],
    );
    assert_eq!(asked[1], "probe ./garrysmod/addons/_latest");
    assert_eq!(asked[2], "probe addon.zip");
    assert_eq!(asked[3], "fetch https://feed.test/addon");
    assert!(asked[4].starts_with("download https://code.test/archive/refs/tags/v3.zip "));
    assert!(matches!(run.phase, Phase::AwaitDownload { comp: 0, .. }));
}

#[test]
fn a_tree_without_left_over_archive_is_up_to_date() {
    let (run, asked) = drive(
        Orchestrator::start(config(vec![], archive("addon"), false)),
        vec![
            Event::CacheLoaded(cache_with(&[("addon", "v3")])),
            Event::Probed(true),
            Event::Probed(false),
            feed("v3", &[("a", "u")]),
        ],
    );
    assert_eq!(asked[2], "probe addon.zip");
    assert_eq!(asked[4], "probe garrysmod/lua/bin/gmsv_x_linux64.dll");
    assert_eq!(run.context.log, vec![Outcome::UpToDate]);
}

#[test]
fn a_missing_tree_is_not_probed_for_a_left_over_archive() {
    let (_, asked) = drive(
        Orchestrator::start(config(vec![], archive("addon"), false)),
        vec![Event::CacheLoaded(None), Event::Probed(false)],
    );
    assert_eq!(asked[2], "fetch https://feed.test/addon");
}

#[test]
fn an_unreadable_target_listing_abandons_the_update() {
    let bytes = build_zip(&[], &[("a.txt", "x")]);
    let (run, asked) = drive(
        Orchestrator::start(config(vec![], archive("addon"), true)),
        vec![
            Event::CacheLoaded(cache_with(&[("addon", "v3")])),
            Event::Probed(false),
            feed("v3", &[("a", "u")]),
            stored(5000, b"PK\x03\x04"),
            ok(),
            Event::ArchiveRead(Some(bytes)),
            ok(),
            ok(),
            ok(),
            Event::Listed(None),
            ok(),
            Event::Done(false),
        ],
    );
    assert_eq!(asked[9], "ls ./garrysmod/addons/_latest");
    assert_eq!(asked[10], "rmtree ./garrysmod/addons/_latest");
    assert_eq!(asked[11], "rm addon.zip");
    assert_eq!(asked[12], "probe garrysmod/lua/bin/gmsv_x_linux64.dll");
    assert_eq!(run.context.log, vec![Outcome::Failed(UpdateError::Filesystem)]);
    assert!(!run.context.dirty);
    assert!(!run.context.refreshed);
}

#[test]
fn an_unreadable_wrapper_listing_abandons_the_update() {
    let bytes = build_zip(&["w/"], &[("w/a.txt", "x")]);
    let (run, asked) = drive(
        Orchestrator::start(config(vec![], archive("addon"), true)),
        vec![
            Event::CacheLoaded(None),
            Event::Probed(false),
            feed("v3", &[("a", "u")]),
            stored(5000, b"PK\x03\x04"),
            ok(),
            Event::ArchiveRead(Some(bytes)),
            ok(),
            ok(),
            ok(),
            ok(),
            Event::Listed(Some(vec![DirEntry { name: "w".to_string(), is_dir: true }])),
            Event::Done(true),
            ok(),
            ok(),
        ],
    );
    assert_eq!(asked[11], "ls ./garrysmod/addons/_latest/w");
    assert_eq!(asked[12], "rmtree ./garrysmod/addons/_latest");
    assert_eq!(asked[13], "rm addon.zip");
    assert_eq!(asked[14], "probe garrysmod/lua/bin/gmsv_x_linux64.dll");
    assert!(asked.iter().all(|a| !a.starts_with("mv ./garrysmod")));
    assert_eq!(run.context.log, vec![Outcome::Failed(UpdateError::Filesystem)]);
    assert_eq!(run.context.cache.get("addon"), None);
}

#[test]
fn signal_is_written_only_when_the_primary_was_updated() {
    let (_, asked) = drive(
        Orchestrator::start(config(vec![binary("dep")], binary("x"), true)),
        vec![
            Event::CacheLoaded(cache_with(&[("x", "v1")])),
            Event::Probed(false),
            feed("d1", &[("gmsv_dep_linux64.dll", "ud")]),
            stored(10, b"MZ"),
            ok(),
            Event::Probed(true),
            feed("v1", &[("gmsv_x_linux64.dll", "ux")]),
            ok(),
        ],
    );
    assert_eq!(
        asked[7],
        "write garrysmod/lua/bin/versions.json {\n  \"dep\": \"d1\",\n  \"x\": \"v1\"\n}"
    );
    assert_eq!(asked[8], "probe garrysmod/lua/bin/gmsv_x_linux64.dll");
    assert!(asked.iter().all(|a| !a.starts_with("write garrysmod/data/")));
}

#[test]
fn startup_with_missing_module_reports_unavailable() {
    let (run, asked) = drive(
        Orchestrator::start(config(vec![], binary("x"), false)),
        vec![
            Event::CacheLoaded(None),
            Event::Probed(false),
            Event::FeedAnswered(FeedReply::Unreachable),
            Event::Probed(false),
        ],
    );
    assert_eq!(asked.last().unwrap(), "finish 1");
    assert!(matches!(run.phase, Phase::Finished { outcome: DelegationOutcome::Unavailable }));
}

#[test]
fn startup_with_unloadable_module_reports_load_error() {
    let (run, asked) = drive(
        Orchestrator::start(config(vec![], binary("x"), false)),
        vec![
            Event::CacheLoaded(None),
            Event::Probed(true),
            Event::FeedAnswered(FeedReply::Unreachable),
            Event::Probed(true),
            Event::Invoked(InvokeReply::LoadFailed),
        ],
    );
    assert_eq!(asked.last().unwrap(), "finish 2");
    assert!(matches!(run.phase, Phase::Finished { outcome: DelegationOutcome::LoadError }));
}

#[test]
fn shutdown_goes_straight_to_the_module() {
    let (run, action) = Orchestrator::stop(config(vec![binary("dep")], binary("x"), true));
    assert_eq!(probe_path(&action), "garrysmod/lua/bin/gmsv_x_linux64.dll");
    assert_eq!(run.context.mode, RunMode::Shutdown);
    let (run, action) = run.step(Event::Probed(true));
    assert_eq!(describe(&action), "invoke garrysmod/lua/bin/gmsv_x_linux64.dll gmod13_close");
    let (run, action) = run.step(Event::Invoked(InvokeReply::Returned(7)));
    assert_eq!(finish_code(&action), 7);
    assert!(run.is_finished());
}

#[test]
fn shutdown_never_fails_the_host() {
    let (run, _) = Orchestrator::stop(config(vec![], binary("x"), false));
    let (_, action) = run.step(Event::Probed(false));
    assert_eq!(finish_code(&action), 0);

    let (run, _) = Orchestrator::stop(config(vec![], binary("x"), false));
    let (run, _) = run.step(Event::Probed(true));
    let (_, action) = run.step(Event::Invoked(InvokeReply::LoadFailed));
    assert_eq!(finish_code(&action), 0);
}

#[test]
fn an_unexpected_event_counts_as_failure() {
    let (run, _) = Orchestrator::start(config(vec![], binary("x"), false));
    let (run, action) = run.step(Event::Done(true));
    assert_eq!(probe_path(&action), "garrysmod/lua/bin/gmsv_x_linux64.dll");
    assert_eq!(run.context.cache.component_names().len(), 0);
    let (run, _) = run.step(Event::Done(true));
    assert!(matches!(run.phase, Phase::AwaitFeed { comp: 0, present: false }));
    let (run, action) = run.step(Event::Probed(true));
    assert_eq!(probe_path(&action), "garrysmod/lua/bin/gmsv_x_linux64.dll");
    assert_eq!(run.context.log, vec![Outcome::Failed(UpdateError::Network)]);
    let (run, action) = run.step(Event::Probed(true));
    assert!(matches!(action, Action::Invoke { .. }));
    let (_, action) = run.step(Event::Probed(true));
    assert_eq!(finish_code(&action), 2);
}

#[test]
fn a_finished_run_stays_finished() {
    let (run, _) = Orchestrator::stop(config(vec![], binary("x"), false));
    let (run, _) = run.step(Event::Probed(false));
    assert!(run.is_finished());
    let (run, action) = run.step(Event::Probed(true));
    assert_eq!(finish_code(&action), 0);
    let (run, action) = run.step(feed("v1", &[("a", "b")]));
    assert_eq!(finish_code(&action), 0);
    assert!(run.is_finished());
}

#[test]
fn module_file_is_lowercased() {
    let c = config(vec![], binary("x"), false);
    assert_eq!(c.module_file("GWSockets"), "gmsv_gwsockets_linux64.dll");
    assert_eq!(c.module_file("reqwest"), "gmsv_reqwest_linux64.dll");
    assert_eq!(c.module_location("X"), "garrysmod/lua/bin/gmsv_x_linux64.dll");
}

#[test]
fn config_lists_dependencies_before_the_primary() {
    let c = config(vec![binary("a"), binary("b")], archive("p"), false);
    assert_eq!(c.component(0).name, "a");
    assert_eq!(c.component(1).name, "b");
    assert_eq!(c.component(2).name, "p");
    assert_eq!(c.component(99).name, "p");
    assert!(!c.is_primary(0));
    assert!(!c.is_primary(1));
    assert!(c.is_primary(2));
    assert_eq!(c.artifact_path(c.component(0)), "garrysmod/lua/bin/gmsv_a_linux64.dll");
    assert_eq!(c.artifact_path(c.component(2)), TARGET);
}

#[test]
fn faults_are_filed_in_the_taxonomy() {
    assert_eq!(fetch_fault_of(FetchError::Network), UpdateError::Network);
    assert_eq!(fetch_fault_of(FetchError::HttpStatus), UpdateError::HttpStatus);
    assert_eq!(fetch_fault_of(FetchError::Decode), UpdateError::Decode);
    assert_eq!(fetch_fault_of(FetchError::InvalidRelease), UpdateError::InvalidRelease);
    assert_eq!(install_fault_of(InstallError::Network), UpdateError::Network);
    assert_eq!(install_fault_of(InstallError::HttpStatus), UpdateError::HttpStatus);
    assert_eq!(install_fault_of(InstallError::Empty), UpdateError::Integrity);
    assert_eq!(install_fault_of(InstallError::InvalidFormat), UpdateError::Integrity);
    assert_eq!(install_fault_of(InstallError::SizeOutOfBounds), UpdateError::Integrity);
    assert_eq!(install_fault_of(InstallError::Io), UpdateError::Filesystem);
    assert_eq!(extract_fault_of(ExtractError::Io), UpdateError::Filesystem);
    assert_eq!(extract_fault_of(ExtractError::UnsafePath), UpdateError::UnsafePath);
    assert_eq!(extract_fault_of(ExtractError::Corrupt), UpdateError::ArchiveCorrupt);
}

#[test]
fn cache_key_and_module_name_may_differ() {
    let mut primary = binary("gmod_integration");
    primary.name = "gmod_integration_loader".to_string();
    let mut c = config(vec![], primary, false);
    c.delegate_to = Some("gmod_integration".to_string());
    let (run, asked) = drive(
        Orchestrator::start(c),
        vec![
            Event::CacheLoaded(cache_with(&[("gmod_integration", "v9")])),
            Event::Probed(true),
            feed("v9", &[("gmsv_gmod_integration_linux64.dll", "u")]),
            stored(10, b"MZ"),
            ok(),
        ],
    );
    assert_eq!(asked[1], "probe garrysmod/lua/bin/gmsv_gmod_integration_linux64.dll");
    assert!(asked[3].starts_with("download u "));
    assert_eq!(run.context.cache.get("gmod_integration_loader"), Some("v9".to_string()));
    assert_eq!(run.context.cache.get("gmod_integration"), Some("v9".to_string()));
}

#[test]
fn a_run_without_module_reports_what_became_of_the_primary() {
    let mut c = config(vec![binary("dep")], binary("x"), false);
    c.delegate_to = None;
    let (run, asked) = drive(
        Orchestrator::start(c.clone()),
        vec![
            Event::CacheLoaded(None),
            Event::Probed(false),
            Event::FeedAnswered(FeedReply::Unreachable),
            Event::Probed(false),
            Event::FeedAnswered(FeedReply::Unreachable),
        ],
    );
    assert_eq!(asked.last().unwrap(), "finish 1");
    assert!(matches!(run.phase, Phase::Finished { outcome: DelegationOutcome::UpdateFailed }));

    let (run, asked) = drive(
        Orchestrator::start(c.clone()),
        vec![
            Event::CacheLoaded(cache_with(&[("x", "v1")])),
            Event::Probed(false),
            Event::FeedAnswered(FeedReply::Unreachable),
            Event::Probed(true),
            feed("v1", &[("gmsv_x_linux64.dll", "u")]),
        ],
    );
    assert_eq!(asked.last().unwrap(), "finish 0");
    assert!(matches!(run.phase, Phase::Finished { outcome: DelegationOutcome::NotConfigured }));
    assert_eq!(
        run.context.log,
        vec![Outcome::Failed(UpdateError::Network), Outcome::UpToDate]
    );

    let (_, asked) = drive(
        Orchestrator::start(c.clone()),
        vec![
            Event::CacheLoaded(cache_with(&[("dep", "d1")])),
            Event::Probed(true),
            feed("d1", &[("gmsv_dep_linux64.dll", "u")]),
            Event::Probed(false),
            feed("v2", &[("gmsv_x_linux64.dll", "u")]),
            stored(10, b"MZ"),
            ok(),
            ok(),
        ],
    );
    assert_eq!(asked.last().unwrap(), "finish 0");

    let (run, action) = Orchestrator::stop(c);
    assert_eq!(finish_code(&action), 0);
    assert!(run.is_finished());
}

#[test]
fn the_updater_fails_where_the_archive_holds_a_traversal_entry() {
    let bytes = build_zip(&["w/"], &[("w/a.txt", "aaaa"), ("../evil.txt", "x")]);
    let (run, asked) = drive(
        Orchestrator::start(Config::updater(PlatformKey::Linux64)),
        vec![
            Event::CacheLoaded(Some("{\"gwsockets\": \"g1\", \"reqwest\": \"r1\"}".to_string())),
            Event::Probed(true),
            feed("g1", &[("gmsv_gwsockets_linux64.dll", "ug")]),
            Event::Probed(true),
            feed("r1", &[("gmsv_reqwest_linux64.dll", "ur")]),
            Event::Probed(false),
            feed("v2.0.0", &[("anything", "u")]),
            stored(5000, b"PK\x03\x04"),
            ok(),
            Event::ArchiveRead(Some(bytes)),
            ok(),
            ok(),
        ],
    );
    assert_eq!(asked[8], "mv gmod-integration.tmp gmod-integration.zip");
    assert_eq!(asked[9], "read gmod-integration.zip");
    assert_eq!(asked[10], "rmtree ./garrysmod/addons/_gmod_integration_latest");
    assert_eq!(asked[11], "rm gmod-integration.zip");
    assert_eq!(asked[12], "finish 1");
    assert!(asked.iter().all(|a| !a.contains("evil.txt")));
    assert!(asked.iter().all(|a| !a.starts_with("write ") && !a.starts_with("unzip ")));
    assert_eq!(run.context.cache.get("gmod_integration"), None);
    assert!(!run.context.dirty);
}

#[test]
fn the_updater_fails_where_the_body_is_no_archive() {
    let (run, asked) = drive(
        Orchestrator::start(Config::updater(PlatformKey::Linux64)),
        vec![
            Event::CacheLoaded(Some("{\"gwsockets\": \"g1\", \"reqwest\": \"r1\"}".to_string())),
            Event::Probed(true),
            feed("g1", &[("gmsv_gwsockets_linux64.dll", "ug")]),
            Event::Probed(true),
            feed("r1", &[("gmsv_reqwest_linux64.dll", "ur")]),
            Event::Probed(true),
            Event::Probed(false),
            feed("v2.0.0", &[("anything", "u")]),
            stored(5000, b"<html>"),
            ok(),
        ],
    );
    assert_eq!(asked[9], "rm gmod-integration.tmp");
    assert_eq!(asked[10], "finish 1");
    assert!(asked.iter().all(|a| !a.starts_with("mv ") && !a.starts_with("rmtree ")));
    assert_eq!(run.context.log.last(), Some(&Outcome::Failed(UpdateError::Integrity)));
    assert_eq!(run.context.cache.get("gmod_integration"), None);
}

#[test]
fn the_updater_succeeds_where_the_addon_is_up_to_date() {
    let text = "{\"gwsockets\": \"g1\", \"reqwest\": \"r1\", \"gmod_integration\": \"v2\"}";
    let (_, asked) = drive(
        Orchestrator::start(Config::updater(PlatformKey::Linux64)),
        vec![
            Event::CacheLoaded(Some(text.to_string())),
            Event::Probed(true),
            Event::FeedAnswered(FeedReply::Unreachable),
            Event::Probed(true),
            feed("r1", &[("gmsv_reqwest_linux64.dll", "ur")]),
            Event::Probed(true),
            Event::Probed(false),
            feed("v2", &[("anything", "u")]),
        ],
    );
    assert_eq!(asked.last().unwrap(), "finish 0");
}

#[test]
fn a_malformed_cache_file_counts_as_empty() {
    let (run, action) = Orchestrator::start(config(vec![], binary("x"), false));
    assert_eq!(action, Action::LoadCache { path: CACHE.to_string() });
    let (run, action) = run.step(Event::CacheLoaded(Some("{ this is not json".to_string())));
    assert_eq!(action, Action::Probe { path: "garrysmod/lua/bin/gmsv_x_linux64.dll".to_string() });
    assert!(run.context.cache.component_names().is_empty());
    assert!(!run.context.dirty);
}

#[test]
fn a_cache_file_with_null_members_is_read() {
    let text = "{\"gmod_integration_loader\": \"v1\", \"gmod_integration\": null, \
                \"gwsockets\": \"1.2.0\", \"reqwest\": null}";
    let (run, _) = Orchestrator::start(config(vec![], binary("x"), false));
    let (run, _) = run.step(Event::CacheLoaded(Some(text.to_string())));
    assert_eq!(run.context.cache.get("gmod_integration_loader"), Some("v1".to_string()));
    assert_eq!(run.context.cache.get("gwsockets"), Some("1.2.0".to_string()));
    assert_eq!(run.context.cache.get("gmod_integration"), None);
    assert_eq!(run.context.cache.get("reqwest"), None);
}

#[test]
fn a_cache_file_with_members_of_other_kinds_is_read() {
    let text = "{\"gwsockets\": \"v1.2\", \"extra\": 1, \"more\": [true, {\"a\": null}]}";
    let (run, _) = Orchestrator::start(config(vec![], binary("x"), false));
    let (run, _) = run.step(Event::CacheLoaded(Some(text.to_string())));
    assert_eq!(run.context.cache.get("gwsockets"), Some("v1.2".to_string()));
    assert_eq!(run.context.cache.component_names(), vec!["gwsockets".to_string()]);
}

#[test]
fn loader_configuration_installs_the_integration_module() {
    let (run, asked) = drive(
        Orchestrator::start(Config::loader(PlatformKey::Linux64)),
        vec![
            Event::CacheLoaded(None),
            Event::Probed(false),
            feed(
                "v0.5.0",
                &[
                    ("gmsv_gmod_integration_win64.dll", "https://dl.test/win"),
                    ("gmsv_gmod_integration_linux64.dll", "https://dl.test/linux"),
                ],
            ),
            stored(3, b"abc"),
            ok(),
            ok(),
            Event::Probed(true),
            Event::Invoked(InvokeReply::Returned(0)),
        ],
    );
    assert_eq!(
        asked,
        vec![
            "load garrysmod/lua/bin/versions.json",
            "probe garrysmod/lua/bin/gmsv_gmod_integration_linux64.dll",
            "fetch https://api.github.com/repos/gmod-integration/auto-loader/releases/latest",
            "download https://dl.test/linux dir=garrysmod/lua/bin \
             staging=garrysmod/lua/bin/gmsv_gmod_integration_linux64.tmp",
            "mv garrysmod/lua/bin/gmsv_gmod_integration_linux64.tmp \
             garrysmod/lua/bin/gmsv_gmod_integration_linux64.dll",
            "write garrysmod/lua/bin/versions.json {\n  \"gmod_integration_loader\": \"v0.5.0\"\n}",
            "probe garrysmod/lua/bin/gmsv_gmod_integration_linux64.dll",
            "invoke garrysmod/lua/bin/gmsv_gmod_integration_linux64.dll gmod13_open",
            "finish 0",
        ]
    );
    assert_eq!(run.context.cache.get("gmod_integration_loader"), Some("v0.5.0".to_string()));
    assert_eq!(Config::loader(PlatformKey::Win32).user_agent, "Gmod-Auto-Loader");
    assert_eq!(Config::loader(PlatformKey::Win32).delegate_to, Some("gmod_integration".to_string()));
}

#[test]
fn updater_configuration_names_its_components() {
    let c = Config::updater(PlatformKey::Win64);
    assert_eq!(c.user_agent, "Gmod-Integration-Updater");
    assert_eq!(c.bin_dir, "garrysmod/lua/bin");
    assert_eq!(c.cache_path, "garrysmod/lua/bin/versions.json");
    assert_eq!(c.dependencies.len(), 2);
    assert_eq!(c.component(0).name, "gwsockets");
    assert_eq!(
        c.component(0).feed_url,
        "https://api.github.com/repos/FredyH/GWSockets/releases/latest"
    );
    assert_eq!(c.component(1).name, "reqwest");
    assert_eq!(
        c.component(1).feed_url,
        "https://api.github.com/repos/WilliamVenner/gmsv_reqwest/releases/latest"
    );
    assert_eq!(c.artifact_path(c.component(0)), "garrysmod/lua/bin/gmsv_gwsockets_win64.dll");
    assert_eq!(c.artifact_path(c.component(1)), "garrysmod/lua/bin/gmsv_reqwest_win64.dll");
    assert_eq!(c.primary.name, "gmod_integration");
    assert_eq!(
        c.primary.feed_url,
        "https://api.github.com/repos/gmod-integration/gmod-integration/releases/latest"
    );
    assert_eq!(c.delegate_to, None);
    assert_eq!(
        c.signal,
        Some(SignalFile {
            path: "garrysmod/data/gm_integration/tmp.json".to_string(),
            content: "{\n\t\"gmod_integration_latest_updated\": true\n}".to_string(),
        })
    );
    match &c.primary.artifact {
        Artifact::Archive(layout) => {
            assert_eq!(layout.archive_path, "gmod-integration.zip");
            assert_eq!(layout.target_dir, "./garrysmod/addons/_gmod_integration_latest");
            assert_eq!(
                layout.renames,
                vec![
                    RenameRule {
                        from: "lua/autorun/gmod_integration.lua".to_string(),
                        to: "lua/autorun/_gmod_integration_latest.lua".to_string(),
                    },
                    RenameRule {
                        from: "gmod_integration".to_string(),
                        to: "_gmod_integration_latest".to_string(),
                    },
                    RenameRule {
                        from: "lua/gmod_integration".to_string(),
                        to: "lua/_gmod_integration_latest".to_string(),
                    },
                ]
            );
        }
        other => panic!("expected an archive, got {:?}", other),
    }
}

#[test]
fn updater_configuration_fetches_the_archive_of_the_tag() {
    let (_, asked) = drive(
        Orchestrator::start(Config::updater(PlatformKey::Linux)),
        vec![
            Event::CacheLoaded(Some("{\"gwsockets\": \"g1\", \"reqwest\": \"r1\"}".to_string())),
            Event::Probed(true),
            feed("g1", &[("gmsv_gwsockets_linux.dll", "ug")]),
            Event::Probed(true),
            feed("r1", &[("gmsv_reqwest_linux.dll", "ur")]),
            Event::Probed(false),
            feed("0.5.1", &[("anything", "u")]),
        ],
    );
    assert_eq!(
        asked,
        vec![
            "load garrysmod/lua/bin/versions.json",
            "probe garrysmod/lua/bin/gmsv_gwsockets_linux.dll",
            "fetch https://api.github.com/repos/FredyH/GWSockets/releases/latest",
            "probe garrysmod/lua/bin/gmsv_reqwest_linux.dll",
            "fetch https://api.github.com/repos/WilliamVenner/gmsv_reqwest/releases/latest",
            "probe ./garrysmod/addons/_gmod_integration_latest",
            "fetch https://api.github.com/repos/gmod-integration/gmod-integration/releases/latest",
            "download https://github.com/gmod-integration/gmod-integration/archive/refs/tags/0.5.1.zip \
             dir= staging=gmod-integration.tmp",
        ]
    );
}
