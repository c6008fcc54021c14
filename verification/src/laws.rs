//! What holds of every run: the laws of the version gate, of the version
//! cache and of the delegation, proved of the state machine in
//! [`crate::model`].

use vstd::prelude::*;
use crate::archive::{read_listing, zip_directory};
use crate::command::{CommandView, StepView, lenient, strict, written_path};
use crate::config::{ArtifactView, LayoutView};
use crate::config::kind_of;
use crate::delegate::{DelegationOutcome, InvokeReply, LOAD_ERROR_CODE, RunMode, SUCCESS_CODE,
    UNAVAILABLE_CODE, UPDATE_FAILED_CODE};
use crate::extract::{DirEntryView, archive_plan, flatten_plan, lemma_entries_plan_is_contained,
    lemma_flatten_plan_is_contained, lemma_rename_steps_are_contained, lies_in, rename_steps,
    writes_only_in};
use crate::install::{DownloadView, judge_download, leaves_staging_file,
    lemma_staging_file_differs, parent_of, staging_path, starts_like_zip};
use crate::extract::ExtractError;
use crate::model::{ContextView, MachineView, NextView, Outcome, PhaseView, UpdateError,
    abandon_steps, at, closing_script, closing_steps, discard_archive, download_destination,
    delegate, entry_symbol, extract_fault, fetch_fault, finalize, give_up, install_fault,
    primary_failed, react, record, unpack_script};
use crate::protocol::children_in;
use crate::version_cache::json_text;
use crate::protocol::{ActionView, EventView, success_in};
use crate::release::{FeedReplyView, METADATA_TIMEOUT_SECS, ReleaseView, RequestView, first_match,
    judge_feed, lemma_first_match};

verus! {

/// A first installation: with nothing remembered for a native module and a
/// release that has the platform's asset, the feed's answer leads to the
/// download of that asset into the staging file; a body that is not empty
/// leads to the staging file being moved onto the destination; and once
/// that has succeeded the cache remembers the release's tag for the
/// component, and the log says so.
pub proof fn lemma_first_run_installs(
    m: ContextView,
    comp: usize,
    module: Seq<char>,
    present: bool,
    release: ReleaseView,
    status: u16,
    len: u64,
    head: Seq<u8>,
)
    requires
        m.config.component(comp as int).artifact == (ArtifactView::Binary { module }),
        !m.cache.contains_key(m.config.component(comp as int).name),
        200 <= status < 300,
        release.tag.len() > 0,
        first_match(release.assets, m.config.module_file(module)) is Some,
        len > 0,
    ensures
        ({
            let component = m.config.component(comp as int);
            let asset = release.assets[first_match(
                release.assets,
                m.config.module_file(module),
            ).unwrap()];
            let destination = m.config.module_location(module);
            let fed = react(
                at(m, PhaseView::AwaitFeed { comp, present }),
                EventView::FeedAnswered(
                    FeedReplyView::Answered { status, release: Some(release) },
                ),
            );
            let stored = react(fed.0, EventView::Downloaded(DownloadView::Stored { len, head }));
            let published = react(stored.0, EventView::Done(true));
            &&& fed.1 == ActionView::Download {
                request: RequestView {
                    url: asset.download_url,
                    user_agent: m.config.user_agent,
                    timeout_secs: METADATA_TIMEOUT_SECS,
                },
                dir: parent_of(destination),
                staging: staging_path(destination),
            }
            &&& stored.1 == ActionView::Run(
                CommandView::Rename { from: staging_path(destination), to: destination },
            )
            &&& published.0.context.cache == m.cache.insert(component.name, release.tag)
            &&& published.0.context.log == m.log.push(Outcome::Updated)
            &&& published.0.context.dirty
        }),
{
    lemma_first_match(release.assets, m.config.module_file(module));
    let component = m.config.component(comp as int);
    let destination = m.config.module_location(module);
    assert(download_destination(m.config, component) == destination);
    let script = seq![
        strict(CommandView::Rename { from: staging_path(destination), to: destination }),
    ];
    assert(script.drop_first() =~= Seq::<StepView>::empty());
}

/// The version gate holds a component back: where the cache remembers the
/// latest tag and the artifact is in place, no download is asked for, the
/// cache stays as it is, and the component is logged as up to date.
pub proof fn lemma_up_to_date_skips_download(m: ContextView, comp: usize, reply: FeedReplyView)
    requires
        judge_feed(reply) is Ok,
        m.cache.contains_key(m.config.component(comp as int).name),
        m.cache[m.config.component(comp as int).name] == judge_feed(reply).unwrap().tag,
    ensures
        ({
            let next = react(
                at(m, PhaseView::AwaitFeed { comp, present: true }),
                EventView::FeedAnswered(reply),
            );
            &&& !(next.1 is Download)
            &&& next.0.context.cache == m.cache
            &&& next.0.context.log == m.log.push(Outcome::UpToDate)
        }),
{
}

/// A stale cache is found out: where the artifact is missing, the
/// component is downloaded again although the cache remembers the latest
/// tag, provided the release offers what the component needs.
pub proof fn lemma_missing_artifact_is_installed_again(
    m: ContextView,
    comp: usize,
    reply: FeedReplyView,
)
    requires
        judge_feed(reply) is Ok,
        m.config.component(comp as int).artifact matches ArtifactView::Binary { module }
            ==> first_match(judge_feed(reply).unwrap().assets, m.config.module_file(module))
            is Some,
    ensures
        ({
            let next = react(
                at(m, PhaseView::AwaitFeed { comp, present: false }),
                EventView::FeedAnswered(reply),
            );
            &&& next.1 is Download
            &&& next.0.phase == (PhaseView::AwaitDownload {
                comp,
                tag: judge_feed(reply).unwrap().tag,
            })
            &&& next.0.context == m
        }),
{
}

/// One dependency's failure does not hold up the others: where the feed of
/// a dependency gives no usable release, the failure is logged, nothing
/// else changes, and the next component is checked.
pub proof fn lemma_failed_dependency_does_not_block(
    m: ContextView,
    comp: usize,
    present: bool,
    reply: FeedReplyView,
)
    requires
        !m.config.is_primary(comp as int),
        comp < usize::MAX,
        judge_feed(reply) is Err,
    ensures
        ({
            let next = react(
                at(m, PhaseView::AwaitFeed { comp, present }),
                EventView::FeedAnswered(reply),
            );
            &&& next.0.phase == PhaseView::AwaitProbe { comp: (comp + 1) as usize }
            &&& next.1 == ActionView::Probe {
                path: m.config.artifact_path(m.config.component(comp + 1)),
            }
            &&& next.0.context == record(m, Outcome::Failed(fetch_fault(judge_feed(reply)->Err_0)))
        }),
{
}

/// A failed update still ends in delegation: where the feed of the primary
/// component gives no usable release and nothing is left to be written,
/// the run goes straight on to the module, with the cache as it was.
pub proof fn lemma_failed_primary_still_delegates(
    m: ContextView,
    comp: usize,
    present: bool,
    reply: FeedReplyView,
)
    requires
        m.config.is_primary(comp as int),
        m.config.delegate_to is Some,
        judge_feed(reply) is Err,
        !m.dirty,
        !m.refreshed,
    ensures
        ({
            let next = react(
                at(m, PhaseView::AwaitFeed { comp, present }),
                EventView::FeedAnswered(reply),
            );
            &&& next.0.phase == PhaseView::AwaitModuleProbe
            &&& next.1 == ActionView::Probe {
                path: m.config.module_location(m.config.delegate_to.unwrap()),
            }
            &&& next.0.context.cache == m.cache
        }),
{
    let failed = record(m, Outcome::Failed(fetch_fault(judge_feed(reply)->Err_0)));
    assert(closing_script(failed) =~= Seq::<StepView>::empty());
}

/// No body is taken for an archive unless it begins with the ZIP
/// signature: whatever else the download's reply says, the archive is
/// published only then, and in every other case the next thing that
/// happens is not a publication.
pub proof fn lemma_only_zip_bodies_are_published(
    m: ContextView,
    comp: usize,
    tag: Seq<char>,
    reply: DownloadView,
)
    requires
        m.config.component(comp as int).artifact is Archive,
    ensures
        ({
            let next = react(
                at(m, PhaseView::AwaitDownload { comp, tag }),
                EventView::Downloaded(reply),
            );
            (next.1 matches ActionView::Run(command) && command is Rename) ==> (reply is Stored
                && starts_like_zip(reply->head))
        }),
{
}

/// Whether `event` completes the installation of a component in `state`:
/// it is the last step of a script that ends in an installation, and it
/// did not fail fatally.
pub open spec fn completes_install(state: MachineView, event: EventView) -> bool {
    match state.phase {
        PhaseView::Running { comp, fatal, steps, rescue, then } => {
            &&& then is Installed
            &&& steps.len() == 0
            &&& !(fatal && !success_in(event))
        },
        _ => false,
    }
}

/// The version cache changes at one point only: when the last step of an
/// installation has succeeded, the installed tag is filed under the
/// component's name. Every other event, whatever it reports, leaves the
/// cache as it was; the configuration and the mode never change.
pub proof fn lemma_cache_changes_on_install_only(state: MachineView, event: EventView)
    requires
        !(state.phase is AwaitCache),
    ensures
        ({
            let next = react(state, event).0;
            &&& next.context.config == state.context.config
            &&& next.context.mode == state.context.mode
            &&& !(next.phase is AwaitCache)
            &&& if completes_install(state, event) {
                next.context.cache == state.context.cache.insert(
                    state.context.config.component(state.phase->Running_comp as int).name,
                    state.phase->then->Installed_tag,
                )
            } else {
                next.context.cache == state.context.cache
            }
        }),
{
}

/// The state a run is in after the host has reported `events` in turn.
pub open spec fn run(state: MachineView, events: Seq<EventView>) -> MachineView
    decreases events.len(),
{
    if events.len() == 0 {
        state
    } else {
        react(run(state, events.drop_last()), events.last()).0
    }
}

/// Whether none of `events`, reported in turn from `state` on, completes
/// an installation.
pub open spec fn installs_nothing(state: MachineView, events: Seq<EventView>) -> bool
    decreases events.len(),
{
    if events.len() == 0 {
        true
    } else {
        &&& installs_nothing(state, events.drop_last())
        &&& !completes_install(run(state, events.drop_last()), events.last())
    }
}

/// A run that is cut short before an installation is complete has not
/// touched the version cache, however far it got.
pub proof fn lemma_interrupted_run_keeps_cache(state: MachineView, events: Seq<EventView>)
    requires
        !(state.phase is AwaitCache),
        installs_nothing(state, events),
    ensures
        run(state, events).context.cache == state.context.cache,
        run(state, events).context.config == state.context.config,
        !(run(state, events).phase is AwaitCache),
    decreases events.len(),
{
    if events.len() > 0 {
        lemma_interrupted_run_keeps_cache(state, events.drop_last());
        lemma_cache_changes_on_install_only(run(state, events.drop_last()), events.last());
    }
}

/// Re-entry: a run that decided to download a component and was cut short
/// before the installation was complete is followed by a run that decides
/// the same. The second run is told the same as the first by the feed and
/// by the probe, starts from the cache that the first one left, and asks
/// for the very same download, whatever the first run had logged.
pub proof fn lemma_rerun_repeats_the_download(
    first: ContextView,
    comp: usize,
    present: bool,
    reply: FeedReplyView,
    events: Seq<EventView>,
    second: ContextView,
)
    requires
        react(at(first, PhaseView::AwaitFeed { comp, present }), EventView::FeedAnswered(reply)).1
            is Download,
        installs_nothing(
            react(
                at(first, PhaseView::AwaitFeed { comp, present }),
                EventView::FeedAnswered(reply),
            ).0,
            events,
        ),
        second.config == first.config,
        second.cache == run(
            react(
                at(first, PhaseView::AwaitFeed { comp, present }),
                EventView::FeedAnswered(reply),
            ).0,
            events,
        ).context.cache,
    ensures
        react(at(second, PhaseView::AwaitFeed { comp, present }), EventView::FeedAnswered(reply)).1
            == react(
            at(first, PhaseView::AwaitFeed { comp, present }),
            EventView::FeedAnswered(reply),
        ).1,
{
    let decided = react(
        at(first, PhaseView::AwaitFeed { comp, present }),
        EventView::FeedAnswered(reply),
    );
    assert(decided.0.context.cache == first.cache);
    lemma_interrupted_run_keeps_cache(decided.0, events);
}

/// Unpacking is a clean replacement: whatever is in the target directory,
/// the script begins by removing it and making it anew, and gives up if it
/// cannot be made.
pub proof fn lemma_unpacking_starts_clean(layout: LayoutView, steps: Seq<StepView>)
    ensures
        unpack_script(layout, steps).len() == steps.len() + 2,
        unpack_script(layout, steps)[0] == lenient(
            CommandView::RemoveTree { path: layout.target_dir },
        ),
        unpack_script(layout, steps)[1] == strict(
            CommandView::CreateDir { path: layout.target_dir },
        ),
        forall|i: int| 0 <= i < steps.len() ==> unpack_script(layout, steps)[i + 2] == steps[i],
{
}

/// A missing module ends the run at once: on startup with the code that
/// stands for it alone, on shutdown with the code of success. The module
/// is not loaded in either case.
pub proof fn lemma_missing_module_ends_the_run(m: ContextView)
    requires
        m.config.delegate_to is Some,
    ensures
        ({
            let next = react(at(m, PhaseView::AwaitModuleProbe), EventView::Probed(false));
            &&& next.0.phase == (PhaseView::Finished { outcome: DelegationOutcome::Unavailable })
            &&& m.mode == RunMode::Startup ==> next.1 == (ActionView::Finish {
                code: UNAVAILABLE_CODE,
            })
            &&& m.mode == RunMode::Shutdown ==> next.1 == (ActionView::Finish {
                code: SUCCESS_CODE,
            })
        }),
        UNAVAILABLE_CODE != SUCCESS_CODE,
        UNAVAILABLE_CODE != LOAD_ERROR_CODE,
{
}

/// A module that is there is called with the entry point of the run's
/// mode, and its own code is what the host is given.
pub proof fn lemma_module_code_is_handed_on(m: ContextView, code: i32)
    requires
        m.config.delegate_to is Some,
    ensures
        ({
            let probed = react(at(m, PhaseView::AwaitModuleProbe), EventView::Probed(true));
            let called = react(
                probed.0,
                EventView::Invoked(InvokeReply::Returned(code)),
            );
            &&& probed.1 == ActionView::Invoke {
                module: m.config.module_location(m.config.delegate_to.unwrap()),
                symbol: entry_symbol(m),
            }
            &&& called.1 == ActionView::Finish { code }
        }),
{
}

/// A shutdown run never fails the host: whatever the host reports, the
/// run ends with the code of success unless the module itself was called
/// and returned another.
pub proof fn lemma_shutdown_never_fails(m: ContextView, present: bool, reply: EventView)
    requires
        m.mode == RunMode::Shutdown,
        !(reply matches EventView::Invoked(InvokeReply::Returned(_))),
    ensures
        ({
            let probed = react(at(m, PhaseView::AwaitModuleProbe), EventView::Probed(present));
            let ended = if present {
                react(probed.0, reply)
            } else {
                probed
            };
            ended.1 == ActionView::Finish { code: SUCCESS_CODE }
        }),
{
}

proof fn lemma_contained_scripts_chain(target: Seq<char>, a: Seq<StepView>, b: Seq<StepView>)
    requires
        writes_only_in(target, a),
        writes_only_in(target, b),
    ensures
        writes_only_in(target, a + b),
{
    assert forall|i: int| 0 <= i < (a + b).len() implies match written_path(
        (#[trigger] (a + b)[i]).command,
    ) {
        Some(path) => lies_in(target, path),
        None => true,
    } by {
        if i < a.len() {
            assert((a + b)[i] == a[i]);
        } else {
            assert((a + b)[i] == b[i - a.len()]);
        }
    }
}

/// Extraction never writes outside its target: whatever the archive holds
/// and whatever the host lists, every path that a script of the extraction
/// creates or fills is the target itself or a guarded name below it.
pub proof fn lemma_extraction_writes_only_in_target(
    layout: LayoutView,
    bytes: Option<Seq<u8>>,
    wrapper: Seq<char>,
    children: Seq<DirEntryView>,
)
    ensures
        archive_plan(layout.archive_path, layout.target_dir, bytes) matches Ok(steps)
            ==> writes_only_in(layout.target_dir, unpack_script(layout, steps)),
        writes_only_in(layout.target_dir, closing_steps(layout)),
        writes_only_in(
            layout.target_dir,
            flatten_plan(layout.target_dir, wrapper, children) + closing_steps(layout),
        ),
{
    let target = layout.target_dir;
    lemma_rename_steps_are_contained(target, layout.renames);
    assert(writes_only_in(target, discard_archive(layout)));
    lemma_contained_scripts_chain(
        target,
        rename_steps(target, layout.renames),
        discard_archive(layout),
    );
    lemma_flatten_plan_is_contained(target, wrapper, children);
    lemma_contained_scripts_chain(
        target,
        flatten_plan(target, wrapper, children),
        closing_steps(layout),
    );
    match archive_plan(layout.archive_path, target, bytes) {
        Ok(steps) => {
            let entries = read_listing(zip_directory(bytes.unwrap())).unwrap();
            lemma_entries_plan_is_contained(layout.archive_path, target, entries);
            let opening = seq![
                lenient(CommandView::RemoveTree { path: target }),
                strict(CommandView::CreateDir { path: target }),
            ];
            assert(writes_only_in(target, opening));
            lemma_contained_scripts_chain(target, opening, steps);
        },
        Err(_) => {},
    }
}

/// What the state of a run is while an extraction is being cleared away,
/// and what the host is asked for first: the target goes, then the archive,
/// then the component is logged as failed.
pub open spec fn abandoning(
    m: ContextView,
    comp: usize,
    layout: LayoutView,
    error: UpdateError,
) -> (MachineView, ActionView) {
    (
        at(
            m,
            PhaseView::Running {
                comp,
                fatal: false,
                steps: discard_archive(layout),
                rescue: Seq::empty(),
                then: NextView::Failed { error },
            },
        ),
        ActionView::Run(CommandView::RemoveTree { path: layout.target_dir }),
    )
}

/// A listing that cannot be had abandons the update: whether it is the
/// target or the wrapping directory that could not be listed, and whatever
/// event stands in the listing's place, what was unpacked is cleared away,
/// the component is logged as failed, and the cache is left alone, whether
/// the clearing succeeds or not.
pub proof fn lemma_unreadable_listing_abandons_update(
    m: ContextView,
    comp: usize,
    tag: Seq<char>,
    wrapper: Seq<char>,
    layout: LayoutView,
    event: EventView,
    first_ok: bool,
    second_ok: bool,
)
    requires
        m.config.component(comp as int).artifact == ArtifactView::Archive(layout),
        children_in(event) is None,
    ensures
        react(at(m, PhaseView::AwaitTargetListing { comp, tag }), event) == abandoning(
            m,
            comp,
            layout,
            UpdateError::Filesystem,
        ),
        react(at(m, PhaseView::AwaitWrapperListing { comp, tag, wrapper }), event) == abandoning(
            m,
            comp,
            layout,
            UpdateError::Filesystem,
        ),
        ({
            let begun = abandoning(m, comp, layout, UpdateError::Filesystem);
            let first = react(begun.0, EventView::Done(first_ok));
            let cleared = react(first.0, EventView::Done(second_ok));
            &&& cleared.0.context.cache == m.cache
            &&& cleared.0.context.log == m.log.push(Outcome::Failed(UpdateError::Filesystem))
            &&& cleared.0.context.dirty == m.dirty
            &&& cleared.0.context.refreshed == m.refreshed
        }),
{
    assert(abandon_steps(layout).drop_first() =~= discard_archive(layout));
    assert(discard_archive(layout).drop_first() =~= Seq::<StepView>::empty());
}

/// An archive that is refused leaves no tree behind: where the archive's
/// structure cannot be read or the name of an entry fails the path guard,
/// nothing is unpacked, the target is removed with the archive, and the
/// component is logged with the fault.
pub proof fn lemma_refused_archive_is_cleared_away(
    m: ContextView,
    comp: usize,
    tag: Seq<char>,
    layout: LayoutView,
    bytes: Seq<u8>,
)
    requires
        m.config.component(comp as int).artifact == ArtifactView::Archive(layout),
        archive_plan(layout.archive_path, layout.target_dir, Some(bytes)) is Err,
    ensures
        ({
            let fault = archive_plan(layout.archive_path, layout.target_dir, Some(bytes))->Err_0;
            &&& fault == ExtractError::Corrupt || fault == ExtractError::UnsafePath
            &&& react(
                at(m, PhaseView::AwaitArchive { comp, tag }),
                EventView::ArchiveRead(Some(bytes)),
            ) == abandoning(m, comp, layout, extract_fault(fault))
        }),
{
    assert(abandon_steps(layout).drop_first() =~= discard_archive(layout));
}

/// A tree beside a left-over archive counts as missing: every extraction
/// deletes its archive at its end, so an archive that is still there shows
/// that a run was cut short. The component is then downloaded again, even
/// where the cache remembers the latest tag.
pub proof fn lemma_leftover_archive_forces_reinstall(
    m: ContextView,
    comp: usize,
    layout: LayoutView,
    leftover: EventView,
    reply: FeedReplyView,
)
    requires
        m.config.component(comp as int).artifact == ArtifactView::Archive(layout),
        leftover != EventView::Probed(false),
        judge_feed(reply) is Ok,
    ensures
        ({
            let found = react(at(m, PhaseView::AwaitProbe { comp }), EventView::Probed(true));
            let looked = react(found.0, leftover);
            let fed = react(looked.0, EventView::FeedAnswered(reply));
            &&& found.1 == ActionView::Probe { path: layout.archive_path }
            &&& looked.0.phase == PhaseView::AwaitFeed { comp, present: false }
            &&& fed.1 is Download
            &&& fed.0.context == m
        }),
{
}

/// A cache that has changed is saved: once all components are dealt with,
/// the first thing written is the text of the cache, at the cache's path.
pub proof fn lemma_changed_cache_is_saved(m: ContextView)
    requires
        m.dirty,
    ensures
        finalize(m).1 == ActionView::Run(
            CommandView::WriteFile { path: m.config.cache_path, content: json_text(m.cache) },
        ),
{
}

/// A download never touches what is installed before it is published:
/// the body goes into a staging file that is another file than the
/// destination; a download that is not accepted removes at most that
/// staging file; and one that is accepted moves the staging file onto the
/// destination in one step.
pub proof fn lemma_download_spares_the_destination(
    m: ContextView,
    comp: usize,
    tag: Seq<char>,
    reply: DownloadView,
)
    ensures
        ({
            let component = m.config.component(comp as int);
            let destination = download_destination(m.config, component);
            let staging = staging_path(destination);
            let next = react(
                at(m, PhaseView::AwaitDownload { comp, tag }),
                EventView::Downloaded(reply),
            );
            &&& staging != destination
            &&& match judge_download(kind_of(component.artifact), reply) {
                Ok(_) => next.1 == ActionView::Run(
                    CommandView::Rename { from: staging, to: destination },
                ),
                Err(e) => if leaves_staging_file(reply) {
                    &&& next.1 == ActionView::Run(CommandView::RemoveFile { path: staging })
                    &&& next.0.phase == (PhaseView::Running {
                        comp,
                        fatal: false,
                        steps: Seq::empty(),
                        rescue: Seq::empty(),
                        then: NextView::Failed { error: install_fault(e) },
                    })
                } else {
                    next == give_up(m, comp, install_fault(e))
                },
            }
        }),
{
    let component = m.config.component(comp as int);
    let destination = download_destination(m.config, component);
    lemma_staging_file_differs(destination);
    let discard = seq![lenient(CommandView::RemoveFile { path: staging_path(destination) })];
    assert(discard.drop_first() =~= Seq::<StepView>::empty());
}

/// A run without a module to hand over to reports what became of the
/// primary component: on startup it ends with a code other than success
/// where the update failed, and with success where the component is up
/// to date or was updated; on shutdown it always ends with success.
pub proof fn lemma_run_without_module_reports_the_primary(m: ContextView)
    requires
        m.config.delegate_to is None,
    ensures
        delegate(m).1 == (ActionView::Finish {
            code: if m.mode == RunMode::Startup && primary_failed(m) {
                UPDATE_FAILED_CODE
            } else {
                SUCCESS_CODE
            },
        }),
        UPDATE_FAILED_CODE != SUCCESS_CODE,
{
}

/// In a startup run without a module, a primary component that cannot be
/// updated fails the run, once what is left of the attempt is cleared
/// away: whether its feed gives no release, its download is not accepted,
/// or its archive is refused.
pub proof fn lemma_failed_primary_fails_a_run_without_module(
    m: ContextView,
    comp: usize,
    tag: Seq<char>,
    layout: LayoutView,
    error: UpdateError,
    reply: DownloadView,
    first_ok: bool,
    second_ok: bool,
)
    requires
        m.config.delegate_to is None,
        m.config.is_primary(comp as int),
        m.mode == RunMode::Startup,
        !m.dirty,
        !m.refreshed,
    ensures
        ({
            let failure = ActionView::Finish { code: UPDATE_FAILED_CODE };
            let begun = abandoning(m, comp, layout, error);
            let first = react(begun.0, EventView::Done(first_ok));
            let judged = react(
                at(m, PhaseView::AwaitDownload { comp, tag }),
                EventView::Downloaded(reply),
            );
            &&& give_up(m, comp, error).1 == failure
            &&& react(first.0, EventView::Done(second_ok)).1 == failure
            &&& (judge_download(kind_of(m.config.component(comp as int).artifact), reply) is Err)
                ==> (if leaves_staging_file(reply) {
                react(judged.0, EventView::Done(first_ok)).1 == failure
            } else {
                judged.1 == failure
            })
        }),
{
    let failed = record(m, Outcome::Failed(error));
    assert(failed.log.last() == Outcome::Failed(error));
    assert(closing_script(failed) =~= Seq::<StepView>::empty());
    assert(discard_archive(layout).drop_first() =~= Seq::<StepView>::empty());
    if judge_download(kind_of(m.config.component(comp as int).artifact), reply) is Err {
        let fault = install_fault(
            judge_download(kind_of(m.config.component(comp as int).artifact), reply)->Err_0,
        );
        let gone = record(m, Outcome::Failed(fault));
        assert(gone.log.last() == Outcome::Failed(fault));
        assert(closing_script(gone) =~= Seq::<StepView>::empty());
        lemma_download_spares_the_destination(m, comp, tag, reply);
    }
}

} // verus!
