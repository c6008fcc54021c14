//! The update run as a state machine over mathematical values.
//!
//! A run is in one [`PhaseView`] at a time. [`react`] says which state
//! follows a state and an event, and which action the host is asked for
//! next. Nothing here is executable: [`crate::orchestrator`] holds the code
//! that is proved to do what this module says.

use vstd::prelude::*;
use crate::command::{CommandView, StepView, lenient, strict};
use crate::config::{ArtifactView, ComponentView, ConfigView, LayoutView, kind_of};
use crate::delegate::{DelegationOutcome, RunMode, outcome_of, result_code};
use crate::extract::{DirEntryView, ExtractError, archive_plan, flatten_plan, rename_steps,
    wrapper_of};
use crate::install::{DownloadView, InstallError, judge_download, leaves_staging_file, parent_of,
    staging_path};
use crate::protocol::{ActionView, EventView, absence_in, bytes_in, children_in, download_in,
    feed_in, invocation_in, presence_in, success_in, text_in};
use crate::version_cache::{json_text, loaded_cache};
use crate::release::{ARCHIVE_TIMEOUT_SECS, AssetView, FeedReplyView, FetchError,
    METADATA_TIMEOUT_SECS, RequestView, archive_url_spec, first_match, judge_feed};
use crate::text::join_spec;

verus! {

/// Why a component was not updated.
#[derive(Clone, Copy, Debug, PartialEq, Eq, Structural)]
pub enum UpdateError {
    /// A server could not be reached, or did not answer in time.
    Network,
    /// A server answered with a status other than success.
    HttpStatus,
    /// The release metadata could not be read.
    Decode,
    /// The release has an empty tag or no assets.
    InvalidRelease,
    /// The release has no asset for this platform.
    AssetNotFound,
    /// The download was empty, too small, too large or of the wrong format.
    Integrity,
    /// A file or directory could not be created, written, read or renamed.
    Filesystem,
    /// An entry of the archive leads out of the target directory.
    UnsafePath,
    /// The archive's structure cannot be read.
    ArchiveCorrupt,
}

/// What became of one component in a run.
#[derive(Clone, Copy, Debug, PartialEq, Eq, Structural)]
pub enum Outcome {
    /// The cached tag is the latest and the artifact is in place.
    UpToDate,
    /// The latest release was installed and the cache updated.
    Updated,
    /// The update was given up; what was installed before is left alone.
    Failed(UpdateError),
}

/// Where a fault of the release resolver stands in the taxonomy.
pub open spec fn fetch_fault(e: FetchError) -> UpdateError {
    match e {
        FetchError::Network => UpdateError::Network,
        FetchError::HttpStatus => UpdateError::HttpStatus,
        FetchError::Decode => UpdateError::Decode,
        FetchError::InvalidRelease => UpdateError::InvalidRelease,
    }
}

/// Where a fault of the asset installer stands in the taxonomy.
pub open spec fn install_fault(e: InstallError) -> UpdateError {
    match e {
        InstallError::Network => UpdateError::Network,
        InstallError::HttpStatus => UpdateError::HttpStatus,
        InstallError::Empty => UpdateError::Integrity,
        InstallError::InvalidFormat => UpdateError::Integrity,
        InstallError::SizeOutOfBounds => UpdateError::Integrity,
        InstallError::Io => UpdateError::Filesystem,
    }
}

/// Where a fault of the archive extractor stands in the taxonomy.
pub open spec fn extract_fault(e: ExtractError) -> UpdateError {
    match e {
        ExtractError::Io => UpdateError::Filesystem,
        ExtractError::UnsafePath => UpdateError::UnsafePath,
        ExtractError::Corrupt => UpdateError::ArchiveCorrupt,
    }
}

/// What follows once a script has run to its end.
pub enum NextView {
    /// The component is installed: remember `tag` for it and go on.
    Installed { tag: Seq<char> },
    /// The archive is published: read it back and unpack it.
    ReadArchive { tag: Seq<char> },
    /// The entries are unpacked: look for a wrapping directory.
    ListTarget { tag: Seq<char> },
    /// The update of the component is given up for this reason.
    Failed { error: UpdateError },
    /// All components are dealt with: hand over to the module.
    Delegate,
}

/// Where a run stands: what it waits for, and what it has to remember
/// meanwhile.
pub enum PhaseView {
    /// Waiting for the version cache.
    AwaitCache,
    /// Waiting to learn whether the artifact of component `comp` is there.
    AwaitProbe { comp: usize },
    /// Waiting to learn whether an archive of component `comp` is left over
    /// from a run that was cut short.
    AwaitLeftoverProbe { comp: usize },
    /// Waiting for the release feed of component `comp`.
    AwaitFeed { comp: usize, present: bool },
    /// Waiting for the download of release `tag` of component `comp`.
    AwaitDownload { comp: usize, tag: Seq<char> },
    /// Waiting for the bytes of the published archive.
    AwaitArchive { comp: usize, tag: Seq<char> },
    /// Waiting for the children of the target directory.
    AwaitTargetListing { comp: usize, tag: Seq<char> },
    /// Waiting for the children of the wrapping directory.
    AwaitWrapperListing { comp: usize, tag: Seq<char>, wrapper: Seq<char> },
    /// Waiting for a command to complete. `fatal` says what its failure
    /// means, `steps` are those still to come, `rescue` is run in their place
    /// once a fatal step has failed, `then` says what follows the script.
    Running {
        comp: usize,
        fatal: bool,
        steps: Seq<StepView>,
        rescue: Seq<StepView>,
        then: NextView,
    },
    /// Waiting to learn whether the module's file is there.
    AwaitModuleProbe,
    /// Waiting for the module's entry point to return.
    AwaitInvoke,
    /// The run is over.
    Finished { outcome: DelegationOutcome },
}

/// What a run knows, whatever it is waiting for.
pub struct ContextView {
    pub config: ConfigView,
    pub mode: RunMode,
    /// The version cache as the run holds it.
    pub cache: Map<Seq<char>, Seq<char>>,
    /// Whether the cache differs from what was loaded.
    pub dirty: bool,
    /// Whether the primary component was updated in this run.
    pub refreshed: bool,
    /// What became of the components dealt with so far, in their order.
    pub log: Seq<Outcome>,
}

/// The state of a run: what it knows and what it waits for.
pub struct MachineView {
    pub context: ContextView,
    pub phase: PhaseView,
}

/// The version gate: a component has to be installed unless its artifact
/// is in place and the cache remembers exactly the latest tag for it.
pub open spec fn update_required(
    cache: Map<Seq<char>, Seq<char>>,
    name: Seq<char>,
    tag: Seq<char>,
    present: bool,
) -> bool {
    !present || !cache.contains_key(name) || cache[name] != tag
}

/// The request for release metadata of a component.
pub open spec fn feed_request(config: ConfigView, component: ComponentView) -> RequestView {
    RequestView {
        url: component.feed_url,
        user_agent: config.user_agent,
        timeout_secs: METADATA_TIMEOUT_SECS,
    }
}

/// Where the download of a component is published: a native module in the
/// binary directory, an archive at the place its layout names.
pub open spec fn download_destination(config: ConfigView, component: ComponentView) -> Seq<char> {
    match component.artifact {
        ArtifactView::Binary { module } => config.module_location(module),
        ArtifactView::Archive(layout) => layout.archive_path,
    }
}

/// The state of a run that knows `m` and waits as `phase` says.
pub open spec fn at(m: ContextView, phase: PhaseView) -> MachineView {
    MachineView { context: m, phase }
}

/// The state with one more outcome in its log.
pub open spec fn record(m: ContextView, outcome: Outcome) -> ContextView {
    ContextView { log: m.log.push(outcome), ..m }
}

/// The state after component `comp` was installed at `tag`: the only place
/// where the cache changes.
pub open spec fn record_install(m: ContextView, comp: usize, tag: Seq<char>) -> ContextView {
    ContextView {
        cache: m.cache.insert(m.config.component(comp as int).name, tag),
        dirty: true,
        refreshed: m.refreshed || m.config.is_primary(comp as int),
        log: m.log.push(Outcome::Updated),
        ..m
    }
}

/// The run ends with `outcome`.
pub open spec fn finish(m: ContextView, outcome: DelegationOutcome) -> (MachineView, ActionView) {
    (
        at(m, PhaseView::Finished { outcome }),
        ActionView::Finish { code: result_code(m.mode, outcome) },
    )
}

/// The entry point that a run of this mode calls.
pub open spec fn entry_symbol(m: ContextView) -> Seq<char> {
    match m.mode {
        RunMode::Startup => m.config.start_symbol,
        RunMode::Shutdown => m.config.stop_symbol,
    }
}

/// Whether the update of the primary component failed: the primary
/// component is dealt with last, so its outcome is the last one logged.
pub open spec fn primary_failed(m: ContextView) -> bool {
    m.log.len() > 0 && m.log.last() is Failed
}

/// A run without a module to hand over to ends: what it reports is what
/// became of the primary component.
pub open spec fn end_without_module(m: ContextView) -> (MachineView, ActionView) {
    finish(
        m,
        if primary_failed(m) {
            DelegationOutcome::UpdateFailed
        } else {
            DelegationOutcome::NotConfigured
        },
    )
}

/// Delegation begins: is the module's file there? A run without a module
/// to hand over to ends here.
pub open spec fn delegate(m: ContextView) -> (MachineView, ActionView) {
    match m.config.delegate_to {
        Some(name) => (
            at(m, PhaseView::AwaitModuleProbe),
            ActionView::Probe { path: m.config.module_location(name) },
        ),
        None => end_without_module(m),
    }
}

/// The first step of a script is handed to the host, the rest is kept.
pub open spec fn emit(
    m: ContextView,
    comp: usize,
    steps: Seq<StepView>,
    rescue: Seq<StepView>,
    then: NextView,
) -> (MachineView, ActionView)
    recommends
        steps.len() > 0,
{
    (
        at(
            m,
            PhaseView::Running {
                comp,
                fatal: steps[0].fatal,
                steps: steps.drop_first(),
                rescue,
                then,
            },
        ),
        ActionView::Run(steps[0].command),
    )
}

/// What is written once all components are dealt with: the cache if it
/// changed, then the signal if the primary component was updated and a
/// signal file is wanted.
pub open spec fn closing_script(m: ContextView) -> Seq<StepView> {
    let save = if m.dirty {
        seq![
            lenient(
                CommandView::WriteFile { path: m.config.cache_path, content: json_text(m.cache) },
            ),
        ]
    } else {
        Seq::empty()
    };
    let signal = match m.config.signal {
        Some(s) => if m.refreshed {
            seq![lenient(CommandView::WriteFile { path: s.path, content: s.content })]
        } else {
            Seq::empty()
        },
        None => Seq::empty(),
    };
    save + signal
}

/// All components are dealt with: write what there is to write, then
/// delegate.
pub open spec fn finalize(m: ContextView) -> (MachineView, ActionView) {
    let script = closing_script(m);
    if script.len() > 0 {
        emit(m, m.config.dependencies.len() as usize, script, Seq::empty(), NextView::Delegate)
    } else {
        delegate(m)
    }
}

/// The check of component `comp` begins: is its artifact there?
pub open spec fn check(m: ContextView, comp: usize) -> (MachineView, ActionView) {
    (
        at(m, PhaseView::AwaitProbe { comp }),
        ActionView::Probe { path: m.config.artifact_path(m.config.component(comp as int)) },
    )
}

/// Component `comp` is dealt with: on to the next one, or to the end.
pub open spec fn proceed(m: ContextView, comp: usize) -> (MachineView, ActionView) {
    if m.config.is_primary(comp as int) {
        finalize(m)
    } else {
        check(m, (comp + 1) as usize)
    }
}

/// The update of component `comp` is given up; the run goes on.
pub open spec fn give_up(m: ContextView, comp: usize, error: UpdateError) -> (
    MachineView,
    ActionView,
) {
    proceed(record(m, Outcome::Failed(error)), comp)
}

/// What follows a script that has run to its end.
pub open spec fn dispatch(m: ContextView, comp: usize, then: NextView) -> (
    MachineView,
    ActionView,
) {
    match then {
        NextView::Installed { tag } => proceed(record_install(m, comp, tag), comp),
        NextView::Failed { error } => give_up(m, comp, error),
        NextView::Delegate => delegate(m),
        NextView::ReadArchive { tag } => match m.config.component(comp as int).artifact {
            ArtifactView::Archive(layout) => (
                at(m, PhaseView::AwaitArchive { comp, tag }),
                ActionView::ReadArchive { path: layout.archive_path },
            ),
            ArtifactView::Binary { .. } => give_up(m, comp, UpdateError::Filesystem),
        },
        NextView::ListTarget { tag } => match m.config.component(comp as int).artifact {
            ArtifactView::Archive(layout) => (
                at(m, PhaseView::AwaitTargetListing { comp, tag }),
                ActionView::ListDir { path: layout.target_dir },
            ),
            ArtifactView::Binary { .. } => give_up(m, comp, UpdateError::Filesystem),
        },
    }
}

/// The next step of a script, or what follows the script.
pub open spec fn advance(
    m: ContextView,
    comp: usize,
    steps: Seq<StepView>,
    rescue: Seq<StepView>,
    then: NextView,
) -> (MachineView, ActionView) {
    if steps.len() > 0 {
        emit(m, comp, steps, rescue, then)
    } else {
        dispatch(m, comp, then)
    }
}

/// The feed of component `comp` is asked. `present` says whether the
/// component's artifact is in place.
pub open spec fn ask_feed(m: ContextView, comp: usize, present: bool) -> (MachineView, ActionView) {
    (
        at(m, PhaseView::AwaitFeed { comp, present }),
        ActionView::FetchRelease {
            request: feed_request(m.config, m.config.component(comp as int)),
        },
    )
}

/// It is known whether the artifact of component `comp` is there. A tree
/// that is there may be what a run that was cut short has left: every
/// extraction deletes its archive at its end, so the archive is looked for.
pub open spec fn on_probe(m: ContextView, comp: usize, present: bool) -> (MachineView, ActionView) {
    match m.config.component(comp as int).artifact {
        ArtifactView::Archive(layout) => if present {
            (
                at(m, PhaseView::AwaitLeftoverProbe { comp }),
                ActionView::Probe { path: layout.archive_path },
            )
        } else {
            ask_feed(m, comp, false)
        },
        ArtifactView::Binary { .. } => ask_feed(m, comp, present),
    }
}

/// The download that installs the native module `module` from a release
/// with these assets: the asset whose name is the module's file name,
/// staged beside its destination. Nothing where there is no such asset.
pub open spec fn binary_download(
    config: ConfigView,
    module: Seq<char>,
    assets: Seq<AssetView>,
) -> Option<ActionView> {
    match first_match(assets, config.module_file(module)) {
        Some(i) => {
            let destination = config.module_location(module);
            Some(
                ActionView::Download {
                    request: RequestView {
                        url: assets[i].download_url,
                        user_agent: config.user_agent,
                        timeout_secs: METADATA_TIMEOUT_SECS,
                    },
                    dir: parent_of(destination),
                    staging: staging_path(destination),
                },
            )
        },
        None => None,
    }
}

/// The download of the archive of `tag`.
pub open spec fn archive_download(
    config: ConfigView,
    layout: LayoutView,
    tag: Seq<char>,
) -> ActionView {
    ActionView::Download {
        request: RequestView {
            url: archive_url_spec(layout.url_base, tag, layout.url_ext),
            user_agent: config.user_agent,
            timeout_secs: ARCHIVE_TIMEOUT_SECS,
        },
        dir: parent_of(layout.archive_path),
        staging: staging_path(layout.archive_path),
    }
}

/// The feed of component `comp` has answered.
pub open spec fn on_feed(m: ContextView, comp: usize, present: bool, reply: FeedReplyView) -> (
    MachineView,
    ActionView,
) {
    let component = m.config.component(comp as int);
    match judge_feed(reply) {
        Err(e) => give_up(m, comp, fetch_fault(e)),
        Ok(release) => {
            if !update_required(m.cache, component.name, release.tag, present) {
                proceed(record(m, Outcome::UpToDate), comp)
            } else {
                let waiting = at(m, PhaseView::AwaitDownload { comp, tag: release.tag });
                match component.artifact {
                    ArtifactView::Binary { module } => match binary_download(
                        m.config,
                        module,
                        release.assets,
                    ) {
                        Some(action) => (waiting, action),
                        None => give_up(m, comp, UpdateError::AssetNotFound),
                    },
                    ArtifactView::Archive(layout) => (
                        waiting,
                        archive_download(m.config, layout, release.tag),
                    ),
                }
            }
        },
    }
}

/// The download for component `comp` has ended.
pub open spec fn on_download(m: ContextView, comp: usize, tag: Seq<char>, reply: DownloadView) -> (
    MachineView,
    ActionView,
) {
    let component = m.config.component(comp as int);
    let destination = download_destination(m.config, component);
    let staging = staging_path(destination);
    let discard = seq![lenient(CommandView::RemoveFile { path: staging })];
    match judge_download(kind_of(component.artifact), reply) {
        Err(e) => advance(
            m,
            comp,
            if leaves_staging_file(reply) {
                discard
            } else {
                Seq::empty()
            },
            Seq::empty(),
            NextView::Failed { error: install_fault(e) },
        ),
        Ok(_) => emit(
            m,
            comp,
            seq![strict(CommandView::Rename { from: staging, to: destination })],
            discard,
            match component.artifact {
                ArtifactView::Binary { .. } => NextView::Installed { tag },
                ArtifactView::Archive(_) => NextView::ReadArchive { tag },
            },
        ),
    }
}

/// The steps that unpack an archive with these entries: the target is
/// emptied and made anew, then every entry is unpacked.
pub open spec fn unpack_script(layout: LayoutView, steps: Seq<StepView>) -> Seq<StepView> {
    seq![
        lenient(CommandView::RemoveTree { path: layout.target_dir }),
        strict(CommandView::CreateDir { path: layout.target_dir }),
    ] + steps
}

/// The steps that end an extraction: the renames, then the archive goes.
pub open spec fn closing_steps(layout: LayoutView) -> Seq<StepView> {
    rename_steps(layout.target_dir, layout.renames) + discard_archive(layout)
}

/// The archive file is deleted.
pub open spec fn discard_archive(layout: LayoutView) -> Seq<StepView> {
    seq![lenient(CommandView::RemoveFile { path: layout.archive_path })]
}

/// What is left of an extraction is cleared away: the target directory
/// with all that it holds, then the archive file.
pub open spec fn abandon_steps(layout: LayoutView) -> Seq<StepView> {
    seq![
        lenient(CommandView::RemoveTree { path: layout.target_dir }),
        lenient(CommandView::RemoveFile { path: layout.archive_path }),
    ]
}

/// An extraction is abandoned: what is left of it is cleared away, no tree
/// stays behind that a later run could take for an installation, and the
/// component is logged as failed.
pub open spec fn abandon(m: ContextView, comp: usize, layout: LayoutView, error: UpdateError) -> (
    MachineView,
    ActionView,
) {
    emit(m, comp, abandon_steps(layout), Seq::empty(), NextView::Failed { error })
}

/// The bytes of the published archive have come, or have not. An archive
/// that cannot be read back is deleted; one that is refused, for its
/// structure or for an entry's name, is deleted together with the target.
pub open spec fn on_archive(
    m: ContextView,
    comp: usize,
    tag: Seq<char>,
    bytes: Option<Seq<u8>>,
) -> (MachineView, ActionView) {
    match m.config.component(comp as int).artifact {
        ArtifactView::Binary { .. } => give_up(m, comp, UpdateError::Filesystem),
        ArtifactView::Archive(layout) => {
            match archive_plan(layout.archive_path, layout.target_dir, bytes) {
                Err(ExtractError::Io) => emit(
                    m,
                    comp,
                    discard_archive(layout),
                    Seq::empty(),
                    NextView::Failed { error: UpdateError::Filesystem },
                ),
                Err(e) => abandon(m, comp, layout, extract_fault(e)),
                Ok(steps) => emit(
                    m,
                    comp,
                    unpack_script(layout, steps),
                    discard_archive(layout),
                    NextView::ListTarget { tag },
                ),
            }
        },
    }
}

/// The children of the target have come, or have not. Without a listing
/// the update is abandoned.
pub open spec fn on_target_listing(
    m: ContextView,
    comp: usize,
    tag: Seq<char>,
    children: Option<Seq<DirEntryView>>,
) -> (MachineView, ActionView) {
    match m.config.component(comp as int).artifact {
        ArtifactView::Binary { .. } => give_up(m, comp, UpdateError::Filesystem),
        ArtifactView::Archive(layout) => match children {
            None => abandon(m, comp, layout, UpdateError::Filesystem),
            Some(listed) => match wrapper_of(listed) {
                Some(wrapper) => (
                    at(m, PhaseView::AwaitWrapperListing { comp, tag, wrapper }),
                    ActionView::ListDir { path: join_spec(layout.target_dir, wrapper) },
                ),
                None => emit(
                    m,
                    comp,
                    closing_steps(layout),
                    Seq::empty(),
                    NextView::Installed { tag },
                ),
            },
        },
    }
}

/// The children of the wrapping directory have come, or have not. Without
/// a listing the update is abandoned.
pub open spec fn on_wrapper_listing(
    m: ContextView,
    comp: usize,
    tag: Seq<char>,
    wrapper: Seq<char>,
    children: Option<Seq<DirEntryView>>,
) -> (MachineView, ActionView) {
    match m.config.component(comp as int).artifact {
        ArtifactView::Binary { .. } => give_up(m, comp, UpdateError::Filesystem),
        ArtifactView::Archive(layout) => match children {
            None => abandon(m, comp, layout, UpdateError::Filesystem),
            Some(listed) => emit(
                m,
                comp,
                flatten_plan(layout.target_dir, wrapper, listed) + closing_steps(layout),
                Seq::empty(),
                NextView::Installed { tag },
            ),
        },
    }
}

/// A command has completed.
pub open spec fn on_done(
    m: ContextView,
    comp: usize,
    fatal: bool,
    steps: Seq<StepView>,
    rescue: Seq<StepView>,
    then: NextView,
    ok: bool,
) -> (MachineView, ActionView) {
    if fatal && !ok {
        advance(m, comp, rescue, Seq::empty(), NextView::Failed { error: UpdateError::Filesystem })
    } else {
        advance(m, comp, steps, rescue, then)
    }
}

/// What a run knows when it begins.
pub open spec fn fresh(config: ConfigView, mode: RunMode) -> ContextView {
    ContextView {
        config,
        mode,
        cache: Map::empty(),
        dirty: false,
        refreshed: false,
        log: Seq::empty(),
    }
}

/// The state in which a startup run begins, and its first action.
pub open spec fn begin_startup(config: ConfigView) -> (MachineView, ActionView) {
    (
        at(fresh(config, RunMode::Startup), PhaseView::AwaitCache),
        ActionView::LoadCache { path: config.cache_path },
    )
}

/// The state in which a shutdown run begins, and its first action: a
/// shutdown run checks nothing and goes straight to the module.
pub open spec fn begin_shutdown(config: ConfigView) -> (MachineView, ActionView) {
    delegate(fresh(config, RunMode::Shutdown))
}

/// The transition function: the state that follows `m` on `event`, and the
/// action the host is asked for next.
pub open spec fn react(state: MachineView, event: EventView) -> (MachineView, ActionView) {
    let m = state.context;
    match state.phase {
        PhaseView::AwaitCache => check(
            ContextView { cache: loaded_cache(text_in(event)), ..m },
            0,
        ),
        PhaseView::AwaitProbe { comp } => on_probe(m, comp, presence_in(event)),
        PhaseView::AwaitLeftoverProbe { comp } => ask_feed(m, comp, absence_in(event)),
        PhaseView::AwaitFeed { comp, present } => on_feed(m, comp, present, feed_in(event)),
        PhaseView::AwaitDownload { comp, tag } => on_download(m, comp, tag, download_in(event)),
        PhaseView::AwaitArchive { comp, tag } => on_archive(m, comp, tag, bytes_in(event)),
        PhaseView::AwaitTargetListing { comp, tag } => on_target_listing(
            m,
            comp,
            tag,
            children_in(event),
        ),
        PhaseView::AwaitWrapperListing { comp, tag, wrapper } => on_wrapper_listing(
            m,
            comp,
            tag,
            wrapper,
            children_in(event),
        ),
        PhaseView::Running { comp, fatal, steps, rescue, then } => on_done(
            m,
            comp,
            fatal,
            steps,
            rescue,
            then,
            success_in(event),
        ),
        PhaseView::AwaitModuleProbe => match m.config.delegate_to {
            Some(name) => {
                if presence_in(event) {
                    (
                        at(m, PhaseView::AwaitInvoke),
                        ActionView::Invoke {
                            module: m.config.module_location(name),
                            symbol: entry_symbol(m),
                        },
                    )
                } else {
                    finish(m, DelegationOutcome::Unavailable)
                }
            },
            None => end_without_module(m),
        },
        PhaseView::AwaitInvoke => finish(m, outcome_of(invocation_in(event))),
        PhaseView::Finished { outcome } => finish(m, outcome),
    }
}

} // verus!
