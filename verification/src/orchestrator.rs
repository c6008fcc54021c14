//! The update orchestrator: the executable state machine of a run.
//!
//! A host begins with [`Orchestrator::start`] or [`Orchestrator::stop`],
//! performs the action it is given, reports the result to
//! [`Orchestrator::step`], and goes on so until the action is
//! [`Action::Finish`]. Every function here is proved to compute what
//! [`crate::model`] says.

use vstd::prelude::*;
use crate::command::{Command, CommandView, Step, StepView, lemma_steps_view_rest, lenient,
    steps_view, strict};
use crate::config::{ArchiveLayout, Artifact, Config};
use crate::delegate::{DelegationOutcome, RunMode, classify_invocation, host_code};
use crate::extract::{DirEntry, ExtractError, bytes_view, find_wrapper, listing_option_view,
    plan_archive, plan_flatten, plan_renames};
use crate::install::{ArtifactKind, DownloadReply, InstallError, parent_dir,
    reply_leaves_staging_file, staging_path_for, validate_download};
use crate::model;
use crate::model::{ContextView, MachineView, NextView, Outcome, PhaseView, UpdateError};
use crate::protocol::{Action, Event};
use crate::release::{ARCHIVE_TIMEOUT_SECS, FeedReply, FetchError, HttpRequest,
    METADATA_TIMEOUT_SECS, archive_url, judge_feed_reply, metadata_request, select_asset};
use crate::text::join_path;
use crate::version_cache::VersionCache;

verus! {

/// What follows once a script has run to its end, see [`NextView`].
#[derive(Clone, Debug)]
pub enum Next {
    Installed { tag: String },
    ReadArchive { tag: String },
    ListTarget { tag: String },
    Failed { error: UpdateError },
    Delegate,
}

impl View for Next {
    type V = NextView;

    open spec fn view(&self) -> NextView {
        match *self {
            Next::Installed { tag } => NextView::Installed { tag: tag@ },
            Next::ReadArchive { tag } => NextView::ReadArchive { tag: tag@ },
            Next::ListTarget { tag } => NextView::ListTarget { tag: tag@ },
            Next::Failed { error } => NextView::Failed { error },
            Next::Delegate => NextView::Delegate,
        }
    }
}

/// Where a run stands, see [`PhaseView`].
#[derive(Clone, Debug)]
pub enum Phase {
    AwaitCache,
    AwaitProbe { comp: usize },
    AwaitLeftoverProbe { comp: usize },
    AwaitFeed { comp: usize, present: bool },
    AwaitDownload { comp: usize, tag: String },
    AwaitArchive { comp: usize, tag: String },
    AwaitTargetListing { comp: usize, tag: String },
    AwaitWrapperListing { comp: usize, tag: String, wrapper: String },
    Running { comp: usize, fatal: bool, steps: Vec<Step>, rescue: Vec<Step>, then: Next },
    AwaitModuleProbe,
    AwaitInvoke,
    Finished { outcome: DelegationOutcome },
}

impl View for Phase {
    type V = PhaseView;

    open spec fn view(&self) -> PhaseView {
        match *self {
            Phase::AwaitCache => PhaseView::AwaitCache,
            Phase::AwaitProbe { comp } => PhaseView::AwaitProbe { comp },
            Phase::AwaitLeftoverProbe { comp } => PhaseView::AwaitLeftoverProbe { comp },
            Phase::AwaitFeed { comp, present } => PhaseView::AwaitFeed { comp, present },
            Phase::AwaitDownload { comp, tag } => PhaseView::AwaitDownload { comp, tag: tag@ },
            Phase::AwaitArchive { comp, tag } => PhaseView::AwaitArchive { comp, tag: tag@ },
            Phase::AwaitTargetListing { comp, tag } => PhaseView::AwaitTargetListing {
                comp,
                tag: tag@,
            },
            Phase::AwaitWrapperListing { comp, tag, wrapper } => PhaseView::AwaitWrapperListing {
                comp,
                tag: tag@,
                wrapper: wrapper@,
            },
            Phase::Running { comp, fatal, steps, rescue, then } => PhaseView::Running {
                comp,
                fatal,
                steps: steps_view(steps@),
                rescue: steps_view(rescue@),
                then: then@,
            },
            Phase::AwaitModuleProbe => PhaseView::AwaitModuleProbe,
            Phase::AwaitInvoke => PhaseView::AwaitInvoke,
            Phase::Finished { outcome } => PhaseView::Finished { outcome },
        }
    }
}

/// What a run knows, see [`ContextView`].
#[derive(Clone, Debug)]
pub struct Context {
    pub config: Config,
    pub mode: RunMode,
    pub cache: VersionCache,
    pub dirty: bool,
    pub refreshed: bool,
    pub log: Vec<Outcome>,
}

impl View for Context {
    type V = ContextView;

    open spec fn view(&self) -> ContextView {
        ContextView {
            config: self.config@,
            mode: self.mode,
            cache: self.cache@,
            dirty: self.dirty,
            refreshed: self.refreshed,
            log: self.log@,
        }
    }
}

/// The state of a run, see [`MachineView`].
#[derive(Clone, Debug)]
pub struct Orchestrator {
    pub context: Context,
    pub phase: Phase,
}

impl View for Orchestrator {
    type V = MachineView;

    open spec fn view(&self) -> MachineView {
        MachineView { context: self.context@, phase: self.phase@ }
    }
}

/// Executable form of [`model::fetch_fault`].
pub fn fetch_fault_of(e: FetchError) -> (r: UpdateError)
    ensures
        r == model::fetch_fault(e),
{
    match e {
        FetchError::Network => UpdateError::Network,
        FetchError::HttpStatus => UpdateError::HttpStatus,
        FetchError::Decode => UpdateError::Decode,
        FetchError::InvalidRelease => UpdateError::InvalidRelease,
    }
}

/// Executable form of [`model::install_fault`].
pub fn install_fault_of(e: InstallError) -> (r: UpdateError)
    ensures
        r == model::install_fault(e),
{
    match e {
        InstallError::Network => UpdateError::Network,
        InstallError::HttpStatus => UpdateError::HttpStatus,
        InstallError::Empty => UpdateError::Integrity,
        InstallError::InvalidFormat => UpdateError::Integrity,
        InstallError::SizeOutOfBounds => UpdateError::Integrity,
        InstallError::Io => UpdateError::Filesystem,
    }
}

/// Executable form of [`model::extract_fault`].
pub fn extract_fault_of(e: ExtractError) -> (r: UpdateError)
    ensures
        r == model::extract_fault(e),
{
    match e {
        ExtractError::Io => UpdateError::Filesystem,
        ExtractError::UnsafePath => UpdateError::UnsafePath,
        ExtractError::Corrupt => UpdateError::ArchiveCorrupt,
    }
}

proof fn lemma_steps_view_concat(a: Seq<Step>, b: Seq<Step>)
    ensures
        steps_view(a + b) == steps_view(a) + steps_view(b),
{
    assert(steps_view(a + b) =~= steps_view(a) + steps_view(b));
}

/// A script of one step.
fn single(command: Command, fatal: bool) -> (r: Vec<Step>)
    ensures
        steps_view(r@) == seq![StepView { command: command@, fatal }],
        r@.len() == 1,
{
    let mut script: Vec<Step> = Vec::new();
    script.push(Step { command, fatal });
    assert(steps_view(script@) =~= seq![StepView { command: command@, fatal }]);
    script
}

/// The empty script.
fn no_steps() -> (r: Vec<Step>)
    ensures
        steps_view(r@) == Seq::<StepView>::empty(),
{
    let script: Vec<Step> = Vec::new();
    assert(steps_view(script@) =~= Seq::<StepView>::empty());
    script
}

/// The steps that end an extraction, see [`model::closing_steps`].
fn closing_steps_for(layout: &ArchiveLayout) -> (r: Vec<Step>)
    ensures
        steps_view(r@) == model::closing_steps(layout@),
        r@.len() > 0,
{
    let mut script = plan_renames(layout.target_dir.as_str(), &layout.renames);
    let ghost renames = script@;
    script.push(
        Step { command: Command::RemoveFile { path: layout.archive_path.clone() }, fatal: false },
    );
    assert(steps_view(script@) =~= steps_view(renames) + model::discard_archive(layout@));
    script
}

/// The steps that clear away what is left of an extraction, see
/// [`model::abandon_steps`].
fn abandon_steps_for(layout: &ArchiveLayout) -> (r: Vec<Step>)
    ensures
        steps_view(r@) == model::abandon_steps(layout@),
        r@.len() > 0,
{
    let mut script: Vec<Step> = Vec::new();
    script.push(
        Step { command: Command::RemoveTree { path: layout.target_dir.clone() }, fatal: false },
    );
    script.push(
        Step { command: Command::RemoveFile { path: layout.archive_path.clone() }, fatal: false },
    );
    assert(steps_view(script@) =~= model::abandon_steps(layout@));
    script
}

impl Context {
    /// The state that knows this and waits as `phase` says.
    fn at(self, phase: Phase) -> (r: Orchestrator)
        ensures
            r@ == model::at(self@, phase@),
    {
        Orchestrator { context: self, phase }
    }

    /// Adds an outcome to the log.
    fn record(self, outcome: Outcome) -> (r: Context)
        ensures
            r@ == model::record(self@, outcome),
    {
        let mut context = self;
        context.log.push(outcome);
        context
    }

    /// Remembers `tag` for component `comp`.
    fn record_install(self, comp: usize, tag: &str) -> (r: Context)
        ensures
            r@ == model::record_install(self@, comp, tag@),
    {
        let mut context = self;
        let name = context.config.component(comp).name.clone();
        let primary = context.config.is_primary(comp);
        context.cache.set(name.as_str(), tag);
        context.dirty = true;
        context.refreshed = context.refreshed || primary;
        context.log.push(Outcome::Updated);
        context
    }

    /// Ends the run.
    fn finish(self, outcome: DelegationOutcome) -> (r: (Orchestrator, Action))
        ensures
            (r.0@, r.1@) == model::finish(self@, outcome),
    {
        let code = host_code(self.mode, outcome);
        (self.at(Phase::Finished { outcome }), Action::Finish { code })
    }

    /// Ends a run that has no module to hand over to.
    fn end_without_module(self) -> (r: (Orchestrator, Action))
        ensures
            (r.0@, r.1@) == model::end_without_module(self@),
    {
        let count = self.log.len();
        let failed = count > 0 && match self.log[count - 1] {
            Outcome::Failed(_) => true,
            _ => false,
        };
        if failed {
            self.finish(DelegationOutcome::UpdateFailed)
        } else {
            self.finish(DelegationOutcome::NotConfigured)
        }
    }

    /// Begins the delegation.
    fn delegate(self) -> (r: (Orchestrator, Action))
        ensures
            (r.0@, r.1@) == model::delegate(self@),
    {
        match &self.config.delegate_to {
            Some(name) => {
                let path = self.config.module_location(name.as_str());
                (self.at(Phase::AwaitModuleProbe), Action::Probe { path })
            },
            None => self.end_without_module(),
        }
    }

    /// Hands the first step of a script to the host.
    fn emit(self, comp: usize, steps: Vec<Step>, rescue: Vec<Step>, then: Next) -> (r: (
        Orchestrator,
        Action,
    ))
        requires
            steps@.len() > 0,
        ensures
            (r.0@, r.1@) == model::emit(
                self@,
                comp,
                steps_view(steps@),
                steps_view(rescue@),
                then@,
            ),
    {
        let mut rest = steps;
        proof {
            lemma_steps_view_rest(rest@);
        }
        let first = rest.remove(0);
        let Step { command, fatal } = first;
        (self.at(Phase::Running { comp, fatal, steps: rest, rescue, then }), Action::Run(command))
    }

    /// Writes what there is to write, then delegates.
    fn finalize(self) -> (r: (Orchestrator, Action))
        ensures
            (r.0@, r.1@) == model::finalize(self@),
    {
        let mut script: Vec<Step> = Vec::new();
        if self.dirty {
            script.push(
                Step {
                    command: Command::WriteFile {
                        path: self.config.cache_path.clone(),
                        content: self.cache.to_text(),
                    },
                    fatal: false,
                },
            );
        }
        match &self.config.signal {
            Some(signal) => {
                if self.refreshed {
                    script.push(
                        Step {
                            command: Command::WriteFile {
                                path: signal.path.clone(),
                                content: signal.content.clone(),
                            },
                            fatal: false,
                        },
                    );
                }
            },
            None => {},
        }
        assert(steps_view(script@) =~= model::closing_script(self@));
        if script.len() > 0 {
            let primary = self.config.dependencies.len();
            self.emit(primary, script, no_steps(), Next::Delegate)
        } else {
            self.delegate()
        }
    }

    /// Begins the check of component `comp`.
    fn check(self, comp: usize) -> (r: (Orchestrator, Action))
        ensures
            (r.0@, r.1@) == model::check(self@, comp),
    {
        let path = self.config.artifact_path(self.config.component(comp));
        (self.at(Phase::AwaitProbe { comp }), Action::Probe { path })
    }

    /// Goes on to the next component, or to the end.
    fn proceed(self, comp: usize) -> (r: (Orchestrator, Action))
        ensures
            (r.0@, r.1@) == model::proceed(self@, comp),
    {
        if self.config.is_primary(comp) {
            self.finalize()
        } else {
            self.check(comp + 1)
        }
    }

    /// Gives the update of component `comp` up.
    fn give_up(self, comp: usize, error: UpdateError) -> (r: (Orchestrator, Action))
        ensures
            (r.0@, r.1@) == model::give_up(self@, comp, error),
    {
        self.record(Outcome::Failed(error)).proceed(comp)
    }

    /// Does what follows a script.
    fn dispatch(self, comp: usize, then: Next) -> (r: (Orchestrator, Action))
        ensures
            (r.0@, r.1@) == model::dispatch(self@, comp, then@),
    {
        match then {
            Next::Installed { tag } => self.record_install(comp, tag.as_str()).proceed(comp),
            Next::Failed { error } => self.give_up(comp, error),
            Next::Delegate => self.delegate(),
            Next::ReadArchive { tag } => match &self.config.component(comp).artifact {
                Artifact::Archive(layout) => {
                    let path = layout.archive_path.clone();
                    (self.at(Phase::AwaitArchive { comp, tag }), Action::ReadArchive { path })
                },
                Artifact::Binary { .. } => self.give_up(comp, UpdateError::Filesystem),
            },
            Next::ListTarget { tag } => match &self.config.component(comp).artifact {
                Artifact::Archive(layout) => {
                    let path = layout.target_dir.clone();
                    (self.at(Phase::AwaitTargetListing { comp, tag }), Action::ListDir { path })
                },
                Artifact::Binary { .. } => self.give_up(comp, UpdateError::Filesystem),
            },
        }
    }

    /// Hands out the next step of a script, or does what follows it.
    fn advance(self, comp: usize, steps: Vec<Step>, rescue: Vec<Step>, then: Next) -> (r: (
        Orchestrator,
        Action,
    ))
        ensures
            (r.0@, r.1@) == model::advance(
                self@,
                comp,
                steps_view(steps@),
                steps_view(rescue@),
                then@,
            ),
    {
        if steps.len() > 0 {
            self.emit(comp, steps, rescue, then)
        } else {
            self.dispatch(comp, then)
        }
    }
}

impl Context {
    /// Asks the feed of component `comp`.
    fn ask_feed(self, comp: usize, present: bool) -> (r: (Orchestrator, Action))
        ensures
            (r.0@, r.1@) == model::ask_feed(self@, comp, present),
    {
        let request = metadata_request(
            self.config.component(comp).feed_url.as_str(),
            self.config.user_agent.as_str(),
        );
        (self.at(Phase::AwaitFeed { comp, present }), Action::FetchRelease { request })
    }

    /// Reacts to the probe of the artifact of component `comp`.
    fn on_probe(self, comp: usize, present: bool) -> (r: (Orchestrator, Action))
        ensures
            (r.0@, r.1@) == model::on_probe(self@, comp, present),
    {
        match &self.config.component(comp).artifact {
            Artifact::Archive(layout) => {
                if present {
                    let path = layout.archive_path.clone();
                    (self.at(Phase::AwaitLeftoverProbe { comp }), Action::Probe { path })
                } else {
                    self.ask_feed(comp, false)
                }
            },
            Artifact::Binary { .. } => self.ask_feed(comp, present),
        }
    }

    /// Reacts to the answer of the feed of component `comp`.
    fn on_feed(self, comp: usize, present: bool, reply: FeedReply) -> (r: (Orchestrator, Action))
        ensures
            (r.0@, r.1@) == model::on_feed(self@, comp, present, reply@),
    {
        let release = match judge_feed_reply(reply) {
            Ok(release) => release,
            Err(e) => {
                return self.give_up(comp, fetch_fault_of(e));
            },
        };
        let component = self.config.component(comp);
        if present && self.cache.holds(component.name.as_str(), release.tag.as_str()) {
            return self.record(Outcome::UpToDate).proceed(comp);
        }
        let action = match &component.artifact {
            Artifact::Binary { module } => {
                let file = self.config.module_file(module.as_str());
                match select_asset(&release, file.as_str()) {
                    Some(i) => {
                        let destination = self.config.module_location(module.as_str());
                        Some(
                            Action::Download {
                                request: HttpRequest {
                                    url: release.assets[i].download_url.clone(),
                                    user_agent: self.config.user_agent.clone(),
                                    timeout_secs: METADATA_TIMEOUT_SECS,
                                },
                                dir: parent_dir(destination.as_str()),
                                staging: staging_path_for(destination.as_str()),
                            },
                        )
                    },
                    None => None,
                }
            },
            Artifact::Archive(layout) => Some(
                Action::Download {
                    request: HttpRequest {
                        url: archive_url(
                            layout.url_base.as_str(),
                            release.tag.as_str(),
                            layout.url_ext.as_str(),
                        ),
                        user_agent: self.config.user_agent.clone(),
                        timeout_secs: ARCHIVE_TIMEOUT_SECS,
                    },
                    dir: parent_dir(layout.archive_path.as_str()),
                    staging: staging_path_for(layout.archive_path.as_str()),
                },
            ),
        };
        match action {
            Some(action) => (self.at(Phase::AwaitDownload { comp, tag: release.tag }), action),
            None => self.give_up(comp, UpdateError::AssetNotFound),
        }
    }

    /// Reacts to the end of the download for component `comp`.
    fn on_download(self, comp: usize, tag: String, reply: DownloadReply) -> (r: (
        Orchestrator,
        Action,
    ))
        ensures
            (r.0@, r.1@) == model::on_download(self@, comp, tag@, reply@),
    {
        let component = self.config.component(comp);
        let kind = component.artifact.kind();
        let destination = match &component.artifact {
            Artifact::Binary { module } => self.config.module_location(module.as_str()),
            Artifact::Archive(layout) => layout.archive_path.clone(),
        };
        let staging = staging_path_for(destination.as_str());
        match validate_download(kind, &reply) {
            Err(e) => {
                let script = if reply_leaves_staging_file(&reply) {
                    single(Command::RemoveFile { path: staging }, false)
                } else {
                    no_steps()
                };
                self.advance(comp, script, no_steps(), Next::Failed { error: install_fault_of(e) })
            },
            Ok(_) => {
                let then = match kind {
                    ArtifactKind::Binary => Next::Installed { tag },
                    ArtifactKind::Archive => Next::ReadArchive { tag },
                };
                let rescue = single(Command::RemoveFile { path: staging.clone() }, false);
                let script = single(Command::Rename { from: staging, to: destination }, true);
                self.emit(comp, script, rescue, then)
            },
        }
    }

    /// Reacts to the bytes of the published archive.
    fn on_archive(self, comp: usize, tag: String, bytes: Option<Vec<u8>>) -> (r: (
        Orchestrator,
        Action,
    ))
        ensures
            (r.0@, r.1@) == model::on_archive(self@, comp, tag@, bytes_view(bytes)),
    {
        let layout = match &self.config.component(comp).artifact {
            Artifact::Archive(layout) => layout,
            Artifact::Binary { .. } => {
                return self.give_up(comp, UpdateError::Filesystem);
            },
        };
        let discard = single(Command::RemoveFile { path: layout.archive_path.clone() }, false);
        let target = layout.target_dir.clone();
        match plan_archive(layout.archive_path.as_str(), layout.target_dir.as_str(), bytes) {
            Err(ExtractError::Io) => self.emit(
                comp,
                discard,
                no_steps(),
                Next::Failed { error: UpdateError::Filesystem },
            ),
            Err(e) => {
                let script = abandon_steps_for(layout);
                self.emit(comp, script, no_steps(), Next::Failed { error: extract_fault_of(e) })
            },
            Ok(steps) => {
                let mut steps = steps;
                let ghost unpack = steps@;
                let mut script: Vec<Step> = Vec::new();
                script.push(
                    Step { command: Command::RemoveTree { path: target.clone() }, fatal: false },
                );
                script.push(Step { command: Command::CreateDir { path: target }, fatal: true });
                let ghost opening = script@;
                script.append(&mut steps);
                proof {
                    lemma_steps_view_concat(opening, unpack);
                    assert(steps_view(opening) =~= seq![
                        lenient(CommandView::RemoveTree { path: target@ }),
                        strict(CommandView::CreateDir { path: target@ }),
                    ]);
                }
                self.emit(comp, script, discard, Next::ListTarget { tag })
            },
        }
    }

    /// Reacts to the listing of the target directory.
    fn on_target_listing(self, comp: usize, tag: String, children: Option<Vec<DirEntry>>) -> (r: (
        Orchestrator,
        Action,
    ))
        ensures
            (r.0@, r.1@) == model::on_target_listing(
                self@,
                comp,
                tag@,
                listing_option_view(children),
            ),
    {
        let layout = match &self.config.component(comp).artifact {
            Artifact::Archive(layout) => layout,
            Artifact::Binary { .. } => {
                return self.give_up(comp, UpdateError::Filesystem);
            },
        };
        let wrapper = match &children {
            Some(listed) => find_wrapper(listed),
            None => {
                let script = abandon_steps_for(layout);
                return self.emit(
                    comp,
                    script,
                    no_steps(),
                    Next::Failed { error: UpdateError::Filesystem },
                );
            },
        };
        match wrapper {
            Some(wrapper) => {
                let path = join_path(layout.target_dir.as_str(), wrapper.as_str());
                (
                    self.at(Phase::AwaitWrapperListing { comp, tag, wrapper }),
                    Action::ListDir { path },
                )
            },
            None => {
                let closing = closing_steps_for(layout);
                self.emit(comp, closing, no_steps(), Next::Installed { tag })
            },
        }
    }

    /// Reacts to the listing of the wrapping directory.
    fn on_wrapper_listing(
        self,
        comp: usize,
        tag: String,
        wrapper: String,
        children: Option<Vec<DirEntry>>,
    ) -> (r: (Orchestrator, Action))
        ensures
            (r.0@, r.1@) == model::on_wrapper_listing(
                self@,
                comp,
                tag@,
                wrapper@,
                listing_option_view(children),
            ),
    {
        let layout = match &self.config.component(comp).artifact {
            Artifact::Archive(layout) => layout,
            Artifact::Binary { .. } => {
                return self.give_up(comp, UpdateError::Filesystem);
            },
        };
        let listed = match children {
            Some(listed) => listed,
            None => {
                let script = abandon_steps_for(layout);
                return self.emit(
                    comp,
                    script,
                    no_steps(),
                    Next::Failed { error: UpdateError::Filesystem },
                );
            },
        };
        let mut script = plan_flatten(layout.target_dir.as_str(), wrapper.as_str(), &listed);
        let mut closing = closing_steps_for(layout);
        proof {
            lemma_steps_view_concat(script@, closing@);
        }
        script.append(&mut closing);
        self.emit(comp, script, no_steps(), Next::Installed { tag })
    }

    /// Reacts to the completion of a command.
    fn on_done(
        self,
        comp: usize,
        fatal: bool,
        steps: Vec<Step>,
        rescue: Vec<Step>,
        then: Next,
        ok: bool,
    ) -> (r: (Orchestrator, Action))
        ensures
            (r.0@, r.1@) == model::on_done(
                self@,
                comp,
                fatal,
                steps_view(steps@),
                steps_view(rescue@),
                then@,
                ok,
            ),
    {
        if fatal && !ok {
            self.advance(
                comp,
                rescue,
                no_steps(),
                Next::Failed { error: UpdateError::Filesystem },
            )
        } else {
            self.advance(comp, steps, rescue, then)
        }
    }

    /// What a run knows when it begins.
    fn fresh(config: Config, mode: RunMode) -> (r: Context)
        ensures
            r@ == model::fresh(config@, mode),
    {
        Context {
            config,
            mode,
            cache: VersionCache::new(),
            dirty: false,
            refreshed: false,
            log: Vec::new(),
        }
    }
}

impl Orchestrator {
    /// Begins a startup run: the version cache is asked for first.
    pub fn start(config: Config) -> (r: (Orchestrator, Action))
        ensures
            (r.0@, r.1@) == model::begin_startup(config@),
    {
        let path = config.cache_path.clone();
        (Context::fresh(config, RunMode::Startup).at(Phase::AwaitCache), Action::LoadCache { path })
    }

    /// Begins a shutdown run: nothing is checked, the module is asked for
    /// at once.
    pub fn stop(config: Config) -> (r: (Orchestrator, Action))
        ensures
            (r.0@, r.1@) == model::begin_shutdown(config@),
    {
        Context::fresh(config, RunMode::Shutdown).delegate()
    }

    /// Whether the run is over.
    pub fn is_finished(&self) -> (r: bool)
        ensures
            r == (self@.phase is Finished),
    {
        match &self.phase {
            Phase::Finished { .. } => true,
            _ => false,
        }
    }

    /// Takes the host's report of the action it was last asked for, and
    /// says what to do next. An event of another kind than the one awaited
    /// is read as that action's failure: as a file that is not there or
    /// cannot be read, as a server that does not answer, as a command that
    /// failed. Where a listing or the archive's bytes are awaited, such an
    /// event abandons the update of the component. Once the run is over,
    /// every event is answered with [`Action::Finish`] again.
    pub fn step(self, event: Event) -> (r: (Orchestrator, Action))
        ensures
            (r.0@, r.1@) == model::react(self@, event@),
    {
        let Orchestrator { context, phase } = self;
        match phase {
            Phase::AwaitCache => {
                let cache = VersionCache::from_text(event.into_text());
                let Context { config, mode, cache: _, dirty, refreshed, log } = context;
                let loaded = Context { config, mode, cache, dirty, refreshed, log };
                loaded.check(0)
            },
            Phase::AwaitProbe { comp } => context.on_probe(comp, event.into_presence()),
            Phase::AwaitLeftoverProbe { comp } => context.ask_feed(comp, event.into_absence()),
            Phase::AwaitFeed { comp, present } => context.on_feed(comp, present, event.into_feed()),
            Phase::AwaitDownload { comp, tag } => context.on_download(
                comp,
                tag,
                event.into_download(),
            ),
            Phase::AwaitArchive { comp, tag } => context.on_archive(comp, tag, event.into_bytes()),
            Phase::AwaitTargetListing { comp, tag } => context.on_target_listing(
                comp,
                tag,
                event.into_children(),
            ),
            Phase::AwaitWrapperListing { comp, tag, wrapper } => context.on_wrapper_listing(
                comp,
                tag,
                wrapper,
                event.into_children(),
            ),
            Phase::Running { comp, fatal, steps, rescue, then } => context.on_done(
                comp,
                fatal,
                steps,
                rescue,
                then,
                event.into_success(),
            ),
            Phase::AwaitModuleProbe => {
                match &context.config.delegate_to {
                    None => context.end_without_module(),
                    Some(name) => {
                        if event.into_presence() {
                            let module = context.config.module_location(name.as_str());
                            let symbol = match context.mode {
                                RunMode::Startup => context.config.start_symbol.clone(),
                                RunMode::Shutdown => context.config.stop_symbol.clone(),
                            };
                            (context.at(Phase::AwaitInvoke), Action::Invoke { module, symbol })
                        } else {
                            context.finish(DelegationOutcome::Unavailable)
                        }
                    },
                }
            },
            Phase::AwaitInvoke => context.finish(classify_invocation(event.into_invocation())),
            Phase::Finished { outcome } => context.finish(outcome),
        }
    }
}

} // verus!
