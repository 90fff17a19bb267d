use vstd::prelude::*;
use crate::command::{joined, join_path, LaunchCommand, SERVER_SCRIPT};
use crate::error::ResolveError;
use crate::release::{
    asset_file, asset_file_name, version_dir, version_dir_name, ReleaseDescriptor, PACKAGE_NAME,
    RELEASE_REPO,
};

verus! {

/// What a deployment does when no local server script is present. It is
/// chosen once, when the resolver is built.
#[derive(Clone, Copy, Debug, PartialEq, Eq, Structural)]
pub enum Fallback {
    /// Fetch the latest release into a version-named cache directory.
    Download,
    /// Run the executable that the host finds on its search path.
    SearchPath,
}

/// Installation phase reported to the host's status sink.
#[derive(Clone, Copy, Debug, PartialEq, Eq, Structural)]
pub enum InstallStatus {
    CheckingForUpdate,
    Downloading,
    /// Nothing is in progress any more.
    Cleared,
}

/// Where a resolution call stands, with what it has learnt so far.
pub enum Stage {
    /// Waiting for the interpreter's path.
    LocatingRuntime,
    /// Waiting to learn whether the local script exists.
    ProbingLocal { runtime: String },
    /// Waiting for the latest release.
    QueryingRelease { runtime: String },
    /// Waiting to learn whether the cache directory `dir` exists.
    CheckingCache { runtime: String, dir: String, url: String },
    /// Waiting for the archive to be fetched and extracted into `dir`.
    Downloading { runtime: String, dir: String },
    /// Waiting for the listing of the freshly extracted `dir`.
    ListingFiles { runtime: String, dir: String },
    /// Waiting for the search-path lookup.
    SearchingPath,
    /// The call has produced its outcome.
    Finished,
}

/// The single outside operation that the host performs next.
pub enum Action {
    /// Locate the interpreter that runs the server script.
    LocateRuntime,
    /// Tell whether a regular file exists at `path`.
    CheckFile { path: String },
    /// Fetch the latest release of `repo`.
    QueryRelease { repo: String, require_assets: bool, pre_release: bool },
    /// Tell whether any filesystem entry exists at `path`.
    CheckExists { path: String },
    /// Fetch the zip archive at `url` and extract it into `dest`.
    Download { url: String, dest: String },
    /// List the entries of `dir`.
    ListDir { dir: String },
    /// Look `command` up on the search path.
    Which { command: String },
    /// The resolution call is over, with this outcome.
    Finish { outcome: Result<LaunchCommand, ResolveError> },
}

/// What the host does next: report `report` to the status sink if present
/// (ignoring any failure to do so), then perform `action`.
pub struct Step {
    pub report: Option<InstallStatus>,
    pub action: Action,
}

/// The outcome of the operation that the host performed.
pub enum Event {
    /// Answers `LocateRuntime`: the interpreter's path, or why it was not found.
    RuntimeLocated { outcome: Result<String, String> },
    /// Answers `CheckFile` and `CheckExists`.
    Probed { present: bool },
    /// Answers `QueryRelease`.
    ReleaseFetched { outcome: Result<ReleaseDescriptor, String> },
    /// Answers `Download`.
    Downloaded { outcome: Result<(), String> },
    /// Answers `ListDir`: whether every entry could be read.
    Listed { outcome: Result<(), String> },
    /// Answers `Which`.
    WhichAnswered { path: Option<String> },
}

/// One resolution call, driven by the host one operation at a time.
pub struct Resolver {
    /// Directory that relative paths are resolved against.
    pub cwd: String,
    pub fallback: Fallback,
    pub stage: Stage,
}

impl Stage {
    /// Whether `ev` answers the operation this stage waits for.
    pub open spec fn awaits(&self, ev: Event) -> bool {
        match self {
            Stage::LocatingRuntime => ev is RuntimeLocated,
            Stage::ProbingLocal { .. } => ev is Probed,
            Stage::QueryingRelease { .. } => ev is ReleaseFetched,
            Stage::CheckingCache { .. } => ev is Probed,
            Stage::Downloading { .. } => ev is Downloaded,
            Stage::ListingFiles { .. } => ev is Listed,
            Stage::SearchingPath => ev is WhichAnswered,
            Stage::Finished => false,
        }
    }

    /// Tells whether `ev` answers the operation this stage waits for.
    pub fn accepts(&self, ev: &Event) -> (r: bool)
        ensures
            r == self.awaits(*ev),
    {
        match self {
            Stage::LocatingRuntime => matches!(ev, Event::RuntimeLocated { .. }),
            Stage::ProbingLocal { .. } => matches!(ev, Event::Probed { .. }),
            Stage::QueryingRelease { .. } => matches!(ev, Event::ReleaseFetched { .. }),
            Stage::CheckingCache { .. } => matches!(ev, Event::Probed { .. }),
            Stage::Downloading { .. } => matches!(ev, Event::Downloaded { .. }),
            Stage::ListingFiles { .. } => matches!(ev, Event::Listed { .. }),
            Stage::SearchingPath => matches!(ev, Event::WhichAnswered { .. }),
            Stage::Finished => false,
        }
    }

    /// Position of the stage in the order in which a call passes through them.
    pub open spec fn rank(&self) -> int {
        match self {
            Stage::LocatingRuntime => 0,
            Stage::ProbingLocal { .. } => 1,
            Stage::QueryingRelease { .. } => 2,
            Stage::SearchingPath => 2,
            Stage::CheckingCache { .. } => 3,
            Stage::Downloading { .. } => 4,
            Stage::ListingFiles { .. } => 5,
            Stage::Finished => 6,
        }
    }
}

/// Path of the script inside the working directory.
pub open spec fn local_script(cwd: Seq<char>) -> Seq<char> {
    joined(cwd, SERVER_SCRIPT@)
}

/// Path of the script inside the cache directory `dir` of the working directory.
pub open spec fn cached_script(cwd: Seq<char>, dir: Seq<char>) -> Seq<char> {
    joined(joined(cwd, dir), SERVER_SCRIPT@)
}

/// `out` ends the call successfully with a command that runs `runtime` on `script`.
pub open spec fn finishes_with_script(out: Step, runtime: Seq<char>, script: Seq<char>) -> bool {
    out.action matches Action::Finish { outcome: Ok(c) } && c.runs_script(runtime, script)
}

/// `out` ends the call with an error.
pub open spec fn finishes_with_error(out: Step) -> bool {
    out.action matches Action::Finish { outcome: Err(_) }
}

/// How one event moves a resolver from `pre` to `post`, with `out` as the next step.
pub open spec fn transition(pre: Resolver, ev: Event, post: Resolver, out: Step) -> bool {
    &&& post.cwd@ == pre.cwd@
    &&& post.fallback == pre.fallback
    &&& match pre.stage {
        Stage::LocatingRuntime => match ev {
            Event::RuntimeLocated { outcome: Ok(rt) } => {
                &&& post.stage matches Stage::ProbingLocal { runtime } && runtime@ == rt@
                &&& out.report is None
                &&& out.action matches Action::CheckFile { path } && path@ == local_script(pre.cwd@)
            },
            Event::RuntimeLocated { outcome: Err(e) } => {
                &&& post.stage is Finished
                &&& out.report is None
                &&& out.action matches Action::Finish { outcome: Err(err) }
                &&& err matches ResolveError::RuntimeNotFound { cause } && cause@ == e@
            },
            _ => false,
        },
        Stage::ProbingLocal { runtime } => match ev {
            Event::Probed { present } => if present {
                &&& post.stage is Finished
                &&& out.report is None
                &&& finishes_with_script(out, runtime@, local_script(pre.cwd@))
            } else if pre.fallback == Fallback::Download {
                &&& post.stage matches Stage::QueryingRelease { runtime: r } && r@ == runtime@
                &&& out.report == Some(InstallStatus::CheckingForUpdate)
                &&& out.action matches Action::QueryRelease { repo, require_assets, pre_release }
                &&& repo@ == RELEASE_REPO@ && require_assets && !pre_release
            } else {
                &&& post.stage is SearchingPath
                &&& out.report is None
                &&& out.action matches Action::Which { command } && command@ == PACKAGE_NAME@
            },
            _ => false,
        },
        Stage::QueryingRelease { runtime } => match ev {
            Event::ReleaseFetched { outcome: Err(e) } => {
                &&& post.stage is Finished
                &&& out.report is None
                &&& out.action matches Action::Finish { outcome: Err(err) }
                &&& err matches ResolveError::ReleaseQueryFailed { cause } && cause@ == e@
            },
            Event::ReleaseFetched { outcome: Ok(rel) } => if rel.has_asset(asset_file(PACKAGE_NAME@)) {
                let i = choose|i: int| 0 <= i < rel.assets@.len()
                    && rel.assets@[i].name@ == asset_file(PACKAGE_NAME@)
                    && forall|j: int| 0 <= j < i ==> #[trigger] rel.assets@[j].name@ != asset_file(PACKAGE_NAME@);
                &&& post.stage matches Stage::CheckingCache { runtime: r, dir, url }
                &&& r@ == runtime@
                &&& dir@ == version_dir(PACKAGE_NAME@, rel.version@)
                &&& url@ == rel.assets@[i].download_url@
                &&& out.report is None
                &&& out.action matches Action::CheckExists { path } && path@ == dir@
            } else {
                &&& post.stage is Finished
                &&& out.report is None
                &&& out.action matches Action::Finish { outcome: Err(err) }
                &&& err matches ResolveError::AssetNotFound { asset, version }
                &&& asset@ == asset_file(PACKAGE_NAME@) && version@ == rel.version@
            },
            _ => false,
        },
        Stage::CheckingCache { runtime, dir, url } => match ev {
            Event::Probed { present } => if present {
                &&& post.stage is Finished
                &&& out.report == Some(InstallStatus::Cleared)
                &&& finishes_with_script(out, runtime@, cached_script(pre.cwd@, dir@))
            } else {
                &&& post.stage matches Stage::Downloading { runtime: r, dir: d }
                &&& r@ == runtime@ && d@ == dir@
                &&& out.report == Some(InstallStatus::Downloading)
                &&& out.action matches Action::Download { url: u, dest } && u@ == url@ && dest@ == dir@
            },
            _ => false,
        },
        Stage::Downloading { runtime, dir } => match ev {
            Event::Downloaded { outcome: Err(e) } => {
                &&& post.stage is Finished
                &&& out.report is None
                &&& out.action matches Action::Finish { outcome: Err(err) }
                &&& err matches ResolveError::DownloadFailed { cause } && cause@ == e@
            },
            Event::Downloaded { outcome: Ok(_) } => {
                &&& post.stage matches Stage::ListingFiles { runtime: r, dir: d }
                &&& r@ == runtime@ && d@ == dir@
                &&& out.report is None
                &&& out.action matches Action::ListDir { dir: d } && d@ == dir@
            },
            _ => false,
        },
        Stage::ListingFiles { runtime, dir } => match ev {
            Event::Listed { outcome: Err(e) } => {
                &&& post.stage is Finished
                &&& out.report is None
                &&& out.action matches Action::Finish { outcome: Err(err) }
                &&& err matches ResolveError::DirectoryListFailed { cause } && cause@ == e@
            },
            Event::Listed { outcome: Ok(_) } => {
                &&& post.stage is Finished
                &&& out.report == Some(InstallStatus::Cleared)
                &&& finishes_with_script(out, runtime@, cached_script(pre.cwd@, dir@))
            },
            _ => false,
        },
        Stage::SearchingPath => match ev {
            Event::WhichAnswered { path: Some(p) } => {
                &&& post.stage is Finished
                &&& out.report is None
                &&& out.action matches Action::Finish { outcome: Ok(c) } && c.runs(p@, Seq::empty())
            },
            Event::WhichAnswered { path: None } => {
                &&& post.stage is Finished
                &&& out.report is None
                &&& out.action matches Action::Finish { outcome: Err(err) }
                &&& err matches ResolveError::CommandNotOnPath { command } && command@ == PACKAGE_NAME@
            },
            _ => false,
        },
        Stage::Finished => false,
    }
}


impl Resolver {
    /// Starts a resolution call in working directory `cwd`; the host first
    /// locates the interpreter.
    pub fn new(cwd: String, fallback: Fallback) -> (r: (Resolver, Step))
        ensures
            r.0.cwd@ == cwd@,
            r.0.fallback == fallback,
            r.0.stage is LocatingRuntime,
            r.1.report is None,
            r.1.action is LocateRuntime,
    {
        (
            Resolver { cwd, fallback, stage: Stage::LocatingRuntime },
            Step { report: None, action: Action::LocateRuntime },
        )
    }

    /// Whether the call is over.
    pub fn is_finished(&self) -> (r: bool)
        ensures
            r == self.stage is Finished,
    {
        matches!(self.stage, Stage::Finished)
    }

    /// Takes the outcome of the pending operation and decides the next one.
    pub fn step(&mut self, event: Event) -> (out: Step)
        requires
            old(self).stage.awaits(event),
        ensures
            transition(*old(self), event, *final(self), out),
    {
        match event {
            Event::RuntimeLocated { outcome } => match outcome {
                Ok(rt) => {
                    let path = join_path(self.cwd.as_str(), SERVER_SCRIPT);
                    self.stage = Stage::ProbingLocal { runtime: rt };
                    Step { report: None, action: Action::CheckFile { path } }
                },
                Err(e) => self.fail(ResolveError::RuntimeNotFound { cause: e }),
            },
            Event::Probed { present } => {
                let (runtime, cache) = match &self.stage {
                    Stage::CheckingCache { runtime, dir, url } => (
                        runtime.clone(),
                        Some((dir.clone(), url.clone())),
                    ),
                    Stage::ProbingLocal { runtime } => (runtime.clone(), None),
                    // excluded by `awaits`
                    _ => (String::new(), None),
                };
                match cache {
                    None => self.after_local_probe(runtime, present),
                    Some((dir, url)) => if present {
                        self.finish_cached(runtime, dir)
                    } else {
                        self.stage = Stage::Downloading { runtime, dir: dir.clone() };
                        Step {
                            report: Some(InstallStatus::Downloading),
                            action: Action::Download { url, dest: dir },
                        }
                    },
                }
            },
            Event::ReleaseFetched { outcome } => {
                let runtime = match &self.stage {
                    Stage::QueryingRelease { runtime } => runtime.clone(),
                    _ => String::new(),
                };
                match outcome {
                    Ok(rel) => self.after_release(runtime, rel),
                    Err(e) => self.fail(ResolveError::ReleaseQueryFailed { cause: e }),
                }
            },
            Event::Downloaded { outcome } => {
                let (runtime, dir) = match &self.stage {
                    Stage::Downloading { runtime, dir } => (runtime.clone(), dir.clone()),
                    _ => (String::new(), String::new()),
                };
                match outcome {
                    Ok(()) => {
                        self.stage = Stage::ListingFiles { runtime, dir: dir.clone() };
                        Step { report: None, action: Action::ListDir { dir } }
                    },
                    Err(e) => self.fail(ResolveError::DownloadFailed { cause: e }),
                }
            },
            Event::Listed { outcome } => {
                let (runtime, dir) = match &self.stage {
                    Stage::ListingFiles { runtime, dir } => (runtime.clone(), dir.clone()),
                    _ => (String::new(), String::new()),
                };
                match outcome {
                    Ok(()) => self.finish_cached(runtime, dir),
                    Err(e) => self.fail(ResolveError::DirectoryListFailed { cause: e }),
                }
            },
            Event::WhichAnswered { path } => match path {
                Some(p) => {
                    self.stage = Stage::Finished;
                    Step {
                        report: None,
                        action: Action::Finish { outcome: Ok(LaunchCommand::executable(p.as_str())) },
                    }
                },
                None => self.fail(
                    ResolveError::CommandNotOnPath { command: PACKAGE_NAME.to_owned() },
                ),
            },
        }
    }

    /// Ends the call with `err`.
    fn fail(&mut self, err: ResolveError) -> (out: Step)
        ensures
            final(self).cwd == old(self).cwd,
            final(self).fallback == old(self).fallback,
            final(self).stage is Finished,
            out.report is None,
            out.action == (Action::Finish { outcome: Err(err) }),
    {
        self.stage = Stage::Finished;
        Step { report: None, action: Action::Finish { outcome: Err(err) } }
    }

    /// Ends the call with the script inside cache directory `dir`.
    fn finish_cached(&mut self, runtime: String, dir: String) -> (out: Step)
        ensures
            final(self).cwd == old(self).cwd,
            final(self).fallback == old(self).fallback,
            final(self).stage is Finished,
            out.report == Some(InstallStatus::Cleared),
            finishes_with_script(out, runtime@, cached_script(old(self).cwd@, dir@)),
    {
        let base = join_path(self.cwd.as_str(), dir.as_str());
        let script = join_path(base.as_str(), SERVER_SCRIPT);
        self.stage = Stage::Finished;
        Step {
            report: Some(InstallStatus::Cleared),
            action: Action::Finish {
                outcome: Ok(LaunchCommand::script(runtime.as_str(), script.as_str())),
            },
        }
    }

    /// Decides what follows the probe for the local script.
    fn after_local_probe(&mut self, runtime: String, present: bool) -> (out: Step)
        requires
            old(self).stage matches Stage::ProbingLocal { runtime: r } && r@ == runtime@,
        ensures
            transition(*old(self), Event::Probed { present }, *final(self), out),
    {
        if present {
            let script = join_path(self.cwd.as_str(), SERVER_SCRIPT);
            self.stage = Stage::Finished;
            Step {
                report: None,
                action: Action::Finish {
                    outcome: Ok(LaunchCommand::script(runtime.as_str(), script.as_str())),
                },
            }
        } else {
            match self.fallback {
                Fallback::Download => {
                    self.stage = Stage::QueryingRelease { runtime };
                    Step {
                        report: Some(InstallStatus::CheckingForUpdate),
                        action: Action::QueryRelease {
                            repo: RELEASE_REPO.to_owned(),
                            require_assets: true,
                            pre_release: false,
                        },
                    }
                },
                Fallback::SearchPath => {
                    self.stage = Stage::SearchingPath;
                    Step { report: None, action: Action::Which { command: PACKAGE_NAME.to_owned() } }
                },
            }
        }
    }

    /// Picks the release's archive and the cache directory it goes to.
    fn after_release(&mut self, runtime: String, rel: ReleaseDescriptor) -> (out: Step)
        requires
            old(self).stage matches Stage::QueryingRelease { runtime: r } && r@ == runtime@,
        ensures
            transition(*old(self), Event::ReleaseFetched { outcome: Ok(rel) }, *final(self), out),
    {
        let asset = asset_file_name(PACKAGE_NAME);
        match rel.find_asset(&asset) {
            None => self.fail(ResolveError::AssetNotFound { asset, version: rel.version }),
            Some(i) => {
                let url = rel.assets[i].download_url.clone();
                let dir = version_dir_name(PACKAGE_NAME, rel.version.as_str());
                self.stage = Stage::CheckingCache { runtime, dir: dir.clone(), url };
                Step { report: None, action: Action::CheckExists { path: dir } }
            },
        }
    }
}

} // verus!
