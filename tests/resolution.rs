use launch_resolver::command::{join_path, LaunchCommand};
use launch_resolver::error::ResolveError;
use launch_resolver::release::{
    asset_file_name, version_dir_name, AssetDescriptor, ReleaseDescriptor, PACKAGE_NAME,
    RELEASE_REPO,
};
use launch_resolver::resolver::{Action, Event, Fallback, InstallStatus, Resolver, Stage, Step};

fn release(version: &str, names: &[&str]) -> ReleaseDescriptor {
    ReleaseDescriptor {
        version: version.to_string(),
        assets: names
            .iter()
            .map(|n| AssetDescriptor {
                name: n.to_string(),
                download_url: format!("https://example.com/{}", n),
            })
            .collect(),
    }
}

fn started(cwd: &str, fallback: Fallback) -> Resolver {
    let (mut r, first) = Resolver::new(cwd.to_string(), fallback);
    assert!(first.report.is_none());
    assert!(matches!(first.action, Action::LocateRuntime));
    let s = r.step(Event::RuntimeLocated { outcome: Ok("/usr/bin/node".to_string()) });
    match s.action {
        Action::CheckFile { path } => assert_eq!(path, format!("{}/server.js", cwd)),
        _ => panic!("expected a probe of the local script"),
    }
    r
}

fn finished_ok(s: Step) -> LaunchCommand {
    match s.action {
        Action::Finish { outcome: Ok(c) } => c,
        _ => panic!("expected a launch command"),
    }
}

fn finished_err(s: Step) -> ResolveError {
    match s.action {
        Action::Finish { outcome: Err(e) } => e,
        _ => panic!("expected an error"),
    }
}

fn to_release_query(cwd: &str) -> Resolver {
    let mut r = started(cwd, Fallback::Download);
    let s = r.step(Event::Probed { present: false });
    assert_eq!(s.report, Some(InstallStatus::CheckingForUpdate));
    match s.action {
        Action::QueryRelease { repo, require_assets, pre_release } => {
            assert_eq!(repo, RELEASE_REPO);
            assert!(require_assets);
            assert!(!pre_release);
        },
        _ => panic!("expected a release query"),
    }
    r
}

#[test]
fn local_script_is_launched_with_stdio() {
    for fallback in [Fallback::Download, Fallback::SearchPath] {
        let mut r = started("/home/dev/ext", fallback);
        let s = r.step(Event::Probed { present: true });
        assert!(s.report.is_none());
        let c = finished_ok(s);
        assert_eq!(c.command, "/usr/bin/node");
        assert_eq!(c.args, vec!["/home/dev/ext/server.js".to_string(), "--stdio".to_string()]);
        assert!(c.env.is_empty());
        assert!(r.is_finished());
    }
}

#[test]
fn missing_runtime_is_fatal() {
    let (mut r, _) = Resolver::new("/w".to_string(), Fallback::Download);
    let s = r.step(Event::RuntimeLocated { outcome: Err("node not installed".to_string()) });
    match finished_err(s) {
        ResolveError::RuntimeNotFound { cause } => assert_eq!(cause, "node not installed"),
        _ => panic!("wrong error"),
    }
    assert!(r.is_finished());
}

#[test]
fn failed_release_query_ends_the_call() {
    let mut r = to_release_query("/w");
    let s = r.step(Event::ReleaseFetched { outcome: Err("rate limited".to_string()) });
    assert!(s.report.is_none());
    let e = finished_err(s);
    assert!(matches!(e, ResolveError::ReleaseQueryFailed { .. }));
    assert_eq!(e.message(), "rate limited");
    assert!(r.is_finished());
    assert!(!r.stage.accepts(&Event::Downloaded { outcome: Ok(()) }));
}

#[test]
fn matching_asset_is_found() {
    let mut r = to_release_query("/w");
    let rel = release("v1.0.0", &["cognitive-complexity-ls.zip"]);
    let s = r.step(Event::ReleaseFetched { outcome: Ok(rel) });
    match s.action {
        Action::CheckExists { path } => assert_eq!(path, "cognitive-complexity-ls-v1.0.0"),
        _ => panic!("expected a cache check"),
    }
    match &r.stage {
        Stage::CheckingCache { url, .. } => {
            assert_eq!(url, "https://example.com/cognitive-complexity-ls.zip")
        },
        _ => panic!("expected to wait for the cache check"),
    }
}

#[test]
fn first_matching_asset_wins() {
    let rel = release("v1", &["a.zip", "cognitive-complexity-ls.zip", "cognitive-complexity-ls.zip"]);
    assert_eq!(rel.find_asset(&"cognitive-complexity-ls.zip".to_string()), Some(1));
    assert_eq!(rel.find_asset(&"Cognitive-Complexity-LS.zip".to_string()), None);
}

#[test]
fn missing_asset_names_file_and_version() {
    let mut r = to_release_query("/w");
    let s = r.step(Event::ReleaseFetched { outcome: Ok(release("v3.1.0", &["other.zip"])) });
    let e = finished_err(s);
    match &e {
        ResolveError::AssetNotFound { asset, version } => {
            assert_eq!(asset, "cognitive-complexity-ls.zip");
            assert_eq!(version, "v3.1.0");
        },
        _ => panic!("wrong error"),
    }
    let m = e.message();
    assert_eq!(m, "no asset named cognitive-complexity-ls.zip found in release v3.1.0");
    assert!(r.is_finished());
}

#[test]
fn download_path_extracts_then_launches() {
    let mut r = to_release_query("/w");
    r.step(Event::ReleaseFetched { outcome: Ok(release("1.2.3", &["cognitive-complexity-ls.zip"])) });
    let s = r.step(Event::Probed { present: false });
    assert_eq!(s.report, Some(InstallStatus::Downloading));
    match s.action {
        Action::Download { url, dest } => {
            assert_eq!(url, "https://example.com/cognitive-complexity-ls.zip");
            assert_eq!(dest, "cognitive-complexity-ls-1.2.3");
        },
        _ => panic!("expected a download"),
    }
    let s = r.step(Event::Downloaded { outcome: Ok(()) });
    match s.action {
        Action::ListDir { dir } => assert_eq!(dir, "cognitive-complexity-ls-1.2.3"),
        _ => panic!("expected a listing"),
    }
    let s = r.step(Event::Listed { outcome: Ok(()) });
    assert_eq!(s.report, Some(InstallStatus::Cleared));
    let c = finished_ok(s);
    assert_eq!(c.command, "/usr/bin/node");
    assert_eq!(
        c.args,
        vec!["/w/cognitive-complexity-ls-1.2.3/server.js".to_string(), "--stdio".to_string()]
    );
}

#[test]
fn second_call_on_populated_cache_downloads_nothing() {
    for _ in 0..2 {
        let mut r = to_release_query("/w");
        let s = r.step(Event::ReleaseFetched {
            outcome: Ok(release("v1.2.3", &["cognitive-complexity-ls.zip"])),
        });
        assert!(matches!(s.action, Action::CheckExists { .. }));
        let s = r.step(Event::Probed { present: true });
        assert_eq!(s.report, Some(InstallStatus::Cleared));
        let c = finished_ok(s);
        assert_eq!(c.args[0], "/w/cognitive-complexity-ls-v1.2.3/server.js");
        assert!(r.is_finished());
    }
}

#[test]
fn cached_version_is_launched_without_download() {
    let mut r = to_release_query("/ext/work");
    let s = r.step(Event::ReleaseFetched {
        outcome: Ok(release("2.0.0", &["cognitive-complexity-ls.zip"])),
    });
    match s.action {
        Action::CheckExists { path } => assert_eq!(path, "cognitive-complexity-ls-2.0.0"),
        _ => panic!("expected a cache check"),
    }
    let c = finished_ok(r.step(Event::Probed { present: true }));
    assert_eq!(c.command, "/usr/bin/node");
    assert_eq!(
        c.args,
        vec!["/ext/work/cognitive-complexity-ls-2.0.0/server.js".to_string(), "--stdio".to_string()]
    );
    assert!(c.args[0].ends_with("/cognitive-complexity-ls-2.0.0/server.js"));
}

#[test]
fn download_failure_keeps_its_cause() {
    let mut r = to_release_query("/w");
    r.step(Event::ReleaseFetched { outcome: Ok(release("1", &["cognitive-complexity-ls.zip"])) });
    r.step(Event::Probed { present: false });
    let e = finished_err(r.step(Event::Downloaded { outcome: Err("connection reset".to_string()) }));
    assert!(matches!(e, ResolveError::DownloadFailed { .. }));
    assert_eq!(e.message(), "failed to download server: connection reset");
}

#[test]
fn listing_failure_is_fatal() {
    let mut r = to_release_query("/w");
    r.step(Event::ReleaseFetched { outcome: Ok(release("1", &["cognitive-complexity-ls.zip"])) });
    r.step(Event::Probed { present: false });
    r.step(Event::Downloaded { outcome: Ok(()) });
    let s = r.step(Event::Listed { outcome: Err("permission denied".to_string()) });
    assert!(s.report.is_none());
    let e = finished_err(s);
    assert!(matches!(e, ResolveError::DirectoryListFailed { .. }));
    assert_eq!(e.message(), "failed to list downloaded files: permission denied");
}

#[test]
fn path_fallback_runs_found_executable() {
    let mut r = started("/w", Fallback::SearchPath);
    let s = r.step(Event::Probed { present: false });
    match s.action {
        Action::Which { command } => assert_eq!(command, "cognitive-complexity-ls"),
        _ => panic!("expected a search-path lookup"),
    }
    let c = finished_ok(r.step(Event::WhichAnswered {
        path: Some("/usr/local/bin/cognitive-complexity-ls".to_string()),
    }));
    assert_eq!(c.command, "/usr/local/bin/cognitive-complexity-ls");
    assert!(c.args.is_empty());
    assert!(c.env.is_empty());
}

#[test]
fn path_fallback_without_executable_fails() {
    let mut r = started("/w", Fallback::SearchPath);
    r.step(Event::Probed { present: false });
    let e = finished_err(r.step(Event::WhichAnswered { path: None }));
    match &e {
        ResolveError::CommandNotOnPath { command } => assert_eq!(command, "cognitive-complexity-ls"),
        _ => panic!("wrong error"),
    }
    assert!(e.message().starts_with("cognitive-complexity-ls was not found on PATH"));
}

#[test]
fn events_must_answer_the_pending_operation() {
    let (r, _) = Resolver::new("/w".to_string(), Fallback::Download);
    assert!(r.stage.accepts(&Event::RuntimeLocated { outcome: Ok("n".to_string()) }));
    assert!(!r.stage.accepts(&Event::Probed { present: true }));
    assert!(!r.is_finished());
}

#[test]
fn names_are_built_from_the_package() {
    assert_eq!(asset_file_name(PACKAGE_NAME), "cognitive-complexity-ls.zip");
    assert_eq!(version_dir_name(PACKAGE_NAME, "v1.2.3"), "cognitive-complexity-ls-v1.2.3");
}

#[test]
fn paths_are_joined_with_one_separator() {
    assert_eq!(join_path("/a/b", "server.js"), "/a/b/server.js");
    assert_eq!(join_path("/a/b/", "server.js"), "/a/b/server.js");
    assert_eq!(join_path("", "server.js"), "server.js");
    assert_eq!(join_path(".", "x"), "./x");
}

#[test]
fn command_constructors() {
    let c = LaunchCommand::script("node", "s.js");
    assert_eq!(c.command, "node");
    assert_eq!(c.args, vec!["s.js".to_string(), "--stdio".to_string()]);
    let c = LaunchCommand::executable("/bin/x");
    assert_eq!(c.command, "/bin/x");
    assert!(c.args.is_empty());
}
