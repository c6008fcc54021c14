//! The archive extractor's rules: where each entry of an archive goes, how
//! a wrapping top-level directory is flattened, and which renames follow.

use vstd::prelude::*;
use crate::archive::{ArchiveEntry, EntryView, entries_view, list_entries, read_listing,
    zip_directory};
use crate::command::{Command, CommandView, Step, StepView, steps_view, lenient, written_path,
    lemma_steps_view_push};
use crate::install::{parent_of, parent_dir};
use crate::paths::{components, entry_stays_inside, lemma_guarded_name_stays_under, resolve,
    resolve_from, stays_inside};
use crate::text::{join_spec, join_path};

verus! {

/// Why an archive was not unpacked.
#[derive(Clone, Copy, Debug, PartialEq, Eq, Structural)]
pub enum ExtractError {
    /// The archive could not be read back, or the target directory could not
    /// be created.
    Io,
    /// An entry's name leads out of the target directory.
    UnsafePath,
    /// The archive's structure cannot be read.
    Corrupt,
}

/// The step that unpacks one entry below `target`: a directory entry is
/// created, a file entry is written after the directory it lies in.
pub open spec fn entry_step(
    archive: Seq<char>,
    target: Seq<char>,
    index: int,
    entry: EntryView,
) -> StepView {
    let path = join_spec(target, entry.name);
    if entry.is_dir {
        lenient(CommandView::CreateDir { path })
    } else {
        lenient(
            CommandView::WriteEntry { archive, index: index as usize, dir: parent_of(path), path },
        )
    }
}

/// Whether every entry's name passes the path guard.
pub open spec fn all_inside(entries: Seq<EntryView>) -> bool {
    forall|i: int| 0 <= i < entries.len() ==> stays_inside((#[trigger] entries[i]).name)
}

/// The steps that unpack `entries` below `target`, one per entry and in the
/// archive's order; none at all if a single name fails the path guard.
pub open spec fn entries_plan(
    archive: Seq<char>,
    target: Seq<char>,
    entries: Seq<EntryView>,
) -> Result<Seq<StepView>, ExtractError> {
    if all_inside(entries) {
        Ok(Seq::new(entries.len(), |i: int| entry_step(archive, target, i, entries[i])))
    } else {
        Err(ExtractError::UnsafePath)
    }
}

/// The view of a plan or of the reason why there is none.
pub open spec fn plan_view(r: Result<Vec<Step>, ExtractError>) -> Result<
    Seq<StepView>,
    ExtractError,
> {
    match r {
        Ok(steps) => Ok(steps_view(steps@)),
        Err(e) => Err(e),
    }
}

/// Whether all of `entries` pass the path guard.
pub fn entries_stay_inside(entries: &Vec<ArchiveEntry>) -> (r: bool)
    ensures
        r == all_inside(entries_view(entries@)),
{
    let mut i: usize = 0;
    while i < entries.len()
        invariant
            i <= entries@.len(),
            forall|j: int| 0 <= j < i ==> stays_inside((#[trigger] entries@[j]).name@),
        decreases entries@.len() - i,
    {
        if !entry_stays_inside(entries[i].name.as_str()) {
            proof {
                assert(!stays_inside(entries_view(entries@)[i as int].name));
            }
            return false;
        }
        i = i + 1;
    }
    proof {
        assert forall|j: int| 0 <= j < entries_view(entries@).len() implies stays_inside(
            (#[trigger] entries_view(entries@)[j]).name,
        ) by {
            assert(stays_inside(entries@[j].name@));
        }
    }
    true
}

/// Plans the unpacking of `entries` from the archive at `archive` into the
/// directory `target`.
///
/// Fails with [`ExtractError::UnsafePath`] if and only if the name of some
/// entry is absolute or leads out of `target`; no step is planned then.
pub fn plan_entries(archive: &str, target: &str, entries: &Vec<ArchiveEntry>) -> (r: Result<
    Vec<Step>,
    ExtractError,
>)
    ensures
        plan_view(r) == entries_plan(archive@, target@, entries_view(entries@)),
{
    if !entries_stay_inside(entries) {
        return Err(ExtractError::UnsafePath);
    }
    let ghost views = entries_view(entries@);
    let mut steps: Vec<Step> = Vec::new();
    let mut i: usize = 0;
    while i < entries.len()
        invariant
            views == entries_view(entries@),
            i <= entries@.len(),
            steps@.len() == i,
            forall|j: int|
                0 <= j < i ==> (#[trigger] steps@[j])@ == entry_step(
                    archive@,
                    target@,
                    j,
                    views[j],
                ),
        decreases entries@.len() - i,
    {
        let path = join_path(target, entries[i].name.as_str());
        let command = if entries[i].is_dir {
            Command::CreateDir { path }
        } else {
            let dir = parent_dir(path.as_str());
            Command::WriteEntry { archive: String::from_str(archive), index: i, dir, path }
        };
        steps.push(Step { command, fatal: false });
        i = i + 1;
    }
    assert(steps_view(steps@) =~= entries_plan(archive@, target@, views).unwrap());
    Ok(steps)
}

/// The plan for an archive that was read back from disk as `bytes`: no
/// bytes are an I/O fault, bytes that list no archive are corrupt, a name
/// that fails the path guard is unsafe; else the entries are unpacked.
pub open spec fn archive_plan(
    archive: Seq<char>,
    target: Seq<char>,
    bytes: Option<Seq<u8>>,
) -> Result<Seq<StepView>, ExtractError> {
    match bytes {
        None => Err(ExtractError::Io),
        Some(b) => match read_listing(zip_directory(b)) {
            Err(e) => Err(e),
            Ok(entries) => entries_plan(archive, target, entries),
        },
    }
}

/// The bytes of a file as the host read them, by their view.
pub open spec fn bytes_view(bytes: Option<Vec<u8>>) -> Option<Seq<u8>> {
    match bytes {
        Some(b) => Some(b@),
        None => None,
    }
}

/// Lists the archive held in `bytes` and plans its unpacking into `target`,
/// see [`archive_plan`].
pub fn plan_archive(archive: &str, target: &str, bytes: Option<Vec<u8>>) -> (r: Result<
    Vec<Step>,
    ExtractError,
>)
    ensures
        plan_view(r) == archive_plan(archive@, target@, bytes_view(bytes)),
{
    match bytes {
        None => Err(ExtractError::Io),
        Some(b) => match list_entries(b) {
            Err(e) => Err(e),
            Ok(entries) => plan_entries(archive, target, &entries),
        },
    }
}

/// One child of a directory, as the host lists it.
#[derive(Clone, Debug, PartialEq, Eq)]
pub struct DirEntry {
    pub name: String,
    pub is_dir: bool,
}

/// What a [`DirEntry`] stands for.
pub struct DirEntryView {
    pub name: Seq<char>,
    pub is_dir: bool,
}

impl View for DirEntry {
    type V = DirEntryView;

    open spec fn view(&self) -> DirEntryView {
        DirEntryView { name: self.name@, is_dir: self.is_dir }
    }
}

/// The children of a directory, each by its view.
pub open spec fn children_view(children: Seq<DirEntry>) -> Seq<DirEntryView> {
    Seq::new(children.len(), |i: int| children[i]@)
}

/// The children of a directory as the host listed them, by their view.
pub open spec fn listing_option_view(children: Option<Vec<DirEntry>>) -> Option<
    Seq<DirEntryView>,
> {
    match children {
        Some(c) => Some(children_view(c@)),
        None => None,
    }
}

/// A rename that follows the unpacking, both paths relative to the target.
#[derive(Clone, Debug, PartialEq, Eq)]
pub struct RenameRule {
    pub from: String,
    pub to: String,
}

/// What a [`RenameRule`] stands for.
pub struct RuleView {
    pub from: Seq<char>,
    pub to: Seq<char>,
}

impl View for RenameRule {
    type V = RuleView;

    open spec fn view(&self) -> RuleView {
        RuleView { from: self.from@, to: self.to@ }
    }
}

/// The rules of a list, each by its view.
pub open spec fn rules_view(rules: Seq<RenameRule>) -> Seq<RuleView> {
    Seq::new(rules.len(), |i: int| rules[i]@)
}

/// The wrapping directory of an unpacked tree: the target's only child,
/// where that is a directory whose name passes the path guard.
pub open spec fn wrapper_of(children: Seq<DirEntryView>) -> Option<Seq<char>> {
    if children.len() == 1 && children[0].is_dir && stays_inside(children[0].name) {
        Some(children[0].name)
    } else {
        None
    }
}

/// Finds the wrapping directory among the children of the target.
pub fn find_wrapper(children: &Vec<DirEntry>) -> (r: Option<String>)
    ensures
        match r {
            Some(name) => wrapper_of(children_view(children@)) == Some(name@),
            None => wrapper_of(children_view(children@)) is None,
        },
{
    if children.len() == 1 && children[0].is_dir && entry_stays_inside(children[0].name.as_str()) {
        Some(children[0].name.clone())
    } else {
        None
    }
}

/// The step that moves one child of the wrapper up into the target.
pub open spec fn lift_step(target: Seq<char>, wrapper: Seq<char>, child: Seq<char>) -> StepView {
    lenient(
        CommandView::Rename {
            from: join_spec(join_spec(target, wrapper), child),
            to: join_spec(target, child),
        },
    )
}

/// The steps that move the wrapper's children up, in the order listed. A
/// child whose name fails the path guard is left where it is.
pub open spec fn lift_steps(
    target: Seq<char>,
    wrapper: Seq<char>,
    children: Seq<DirEntryView>,
) -> Seq<StepView>
    decreases children.len(),
{
    if children.len() == 0 {
        Seq::empty()
    } else {
        let before = lift_steps(target, wrapper, children.drop_last());
        if stays_inside(children.last().name) {
            before.push(lift_step(target, wrapper, children.last().name))
        } else {
            before
        }
    }
}

/// The steps that take the wrapper away once it is empty, and with it the
/// version-control metadata that came in the archive.
pub open spec fn sweep_steps(target: Seq<char>, wrapper: Seq<char>) -> Seq<StepView> {
    seq![
        lenient(CommandView::RemoveTree { path: join_spec(target, wrapper) }),
        lenient(CommandView::RemoveTree { path: join_spec(target, ".git"@) }),
        lenient(CommandView::RemoveTree { path: join_spec(target, ".github"@) }),
    ]
}

/// Flattening: the wrapper's children move up, the wrapper and the metadata
/// directories go.
pub open spec fn flatten_plan(
    target: Seq<char>,
    wrapper: Seq<char>,
    children: Seq<DirEntryView>,
) -> Seq<StepView> {
    lift_steps(target, wrapper, children) + sweep_steps(target, wrapper)
}

/// Plans the flattening of the wrapping directory `wrapper` of `target`,
/// whose children are `children`.
pub fn plan_flatten(target: &str, wrapper: &str, children: &Vec<DirEntry>) -> (r: Vec<Step>)
    ensures
        steps_view(r@) == flatten_plan(target@, wrapper@, children_view(children@)),
{
    let ghost views = children_view(children@);
    let inner = join_path(target, wrapper);
    let mut steps: Vec<Step> = Vec::new();
    let mut i: usize = 0;
    proof {
        assert(steps_view(steps@) =~= Seq::<StepView>::empty());
        assert(views.take(0) =~= Seq::<DirEntryView>::empty());
    }
    while i < children.len()
        invariant
            views == children_view(children@),
            inner@ == join_spec(target@, wrapper@),
            i <= children@.len(),
            steps_view(steps@) == lift_steps(target@, wrapper@, views.take(i as int)),
        decreases children@.len() - i,
    {
        proof {
            assert(views.take(i + 1).drop_last() =~= views.take(i as int));
            assert(views.take(i + 1).last() == children@[i as int]@);
        }
        if entry_stays_inside(children[i].name.as_str()) {
            let from = join_path(inner.as_str(), children[i].name.as_str());
            let to = join_path(target, children[i].name.as_str());
            let step = Step { command: Command::Rename { from, to }, fatal: false };
            proof {
                lemma_steps_view_push(steps@, step);
            }
            steps.push(step);
        }
        i = i + 1;
    }
    proof {
        assert(views.take(i as int) =~= views);
    }
    let ghost lifted = steps@;
    let git = join_path(target, ".git");
    let github = join_path(target, ".github");
    steps.push(Step { command: Command::RemoveTree { path: inner }, fatal: false });
    steps.push(Step { command: Command::RemoveTree { path: git }, fatal: false });
    steps.push(Step { command: Command::RemoveTree { path: github }, fatal: false });
    assert(steps_view(steps@) =~= steps_view(lifted) + sweep_steps(target@, wrapper@));
    steps
}

/// The step that applies one rename rule below the target.
pub open spec fn rename_step(target: Seq<char>, rule: RuleView) -> StepView {
    lenient(
        CommandView::Rename { from: join_spec(target, rule.from), to: join_spec(target, rule.to) },
    )
}

/// Whether both paths of a rule pass the path guard.
pub open spec fn rule_is_inside(rule: RuleView) -> bool {
    stays_inside(rule.from) && stays_inside(rule.to)
}

/// The steps that apply `rules` in order. A rule with a path that fails the
/// path guard is passed over; that a source is missing is found out by the
/// host and is no failure.
pub open spec fn rename_steps(target: Seq<char>, rules: Seq<RuleView>) -> Seq<StepView>
    decreases rules.len(),
{
    if rules.len() == 0 {
        Seq::empty()
    } else {
        let before = rename_steps(target, rules.drop_last());
        if rule_is_inside(rules.last()) {
            before.push(rename_step(target, rules.last()))
        } else {
            before
        }
    }
}

/// Plans the renames that follow the unpacking.
pub fn plan_renames(target: &str, rules: &Vec<RenameRule>) -> (r: Vec<Step>)
    ensures
        steps_view(r@) == rename_steps(target@, rules_view(rules@)),
{
    let ghost views = rules_view(rules@);
    let mut steps: Vec<Step> = Vec::new();
    let mut i: usize = 0;
    proof {
        assert(steps_view(steps@) =~= Seq::<StepView>::empty());
        assert(views.take(0) =~= Seq::<RuleView>::empty());
    }
    while i < rules.len()
        invariant
            views == rules_view(rules@),
            i <= rules@.len(),
            steps_view(steps@) == rename_steps(target@, views.take(i as int)),
        decreases rules@.len() - i,
    {
        proof {
            assert(views.take(i + 1).drop_last() =~= views.take(i as int));
            assert(views.take(i + 1).last() == rules@[i as int]@);
        }
        if entry_stays_inside(rules[i].from.as_str()) && entry_stays_inside(rules[i].to.as_str()) {
            let from = join_path(target, rules[i].from.as_str());
            let to = join_path(target, rules[i].to.as_str());
            let step = Step { command: Command::Rename { from, to }, fatal: false };
            proof {
                lemma_steps_view_push(steps@, step);
            }
            steps.push(step);
        }
        i = i + 1;
    }
    proof {
        assert(views.take(i as int) =~= views);
    }
    steps
}

/// A path that is the target itself or a guarded name joined to it.
pub open spec fn lies_in(target: Seq<char>, path: Seq<char>) -> bool {
    path == target || exists|name: Seq<char>|
        stays_inside(name) && path == #[trigger] join_spec(target, name)
}

/// Every path that the steps create or fill lies in `target`.
pub open spec fn writes_only_in(target: Seq<char>, steps: Seq<StepView>) -> bool {
    forall|i: int|
        0 <= i < steps.len() ==> match written_path((#[trigger] steps[i]).command) {
            Some(path) => lies_in(target, path),
            None => true,
        }
}

/// Unpacking never writes outside the target: whatever the names in the
/// archive, each planned step creates or fills a path made of the target
/// and a name that passes the path guard.
pub proof fn lemma_entries_plan_is_contained(
    archive: Seq<char>,
    target: Seq<char>,
    entries: Seq<EntryView>,
)
    ensures
        match entries_plan(archive, target, entries) {
            Ok(steps) => writes_only_in(target, steps),
            Err(e) => e == ExtractError::UnsafePath && !all_inside(entries),
        },
{
    if all_inside(entries) {
        let steps = entries_plan(archive, target, entries).unwrap();
        assert forall|i: int| 0 <= i < steps.len() implies match written_path(
            (#[trigger] steps[i]).command,
        ) {
            Some(path) => lies_in(target, path),
            None => true,
        } by {
            assert(stays_inside(entries[i].name));
            assert(written_path(steps[i].command) == Some(join_spec(target, entries[i].name)));
        }
    }
}

/// Flattening never writes outside the target.
pub proof fn lemma_flatten_plan_is_contained(
    target: Seq<char>,
    wrapper: Seq<char>,
    children: Seq<DirEntryView>,
)
    ensures
        writes_only_in(target, flatten_plan(target, wrapper, children)),
{
    lemma_lift_steps_are_contained(target, wrapper, children);
    let lifted = lift_steps(target, wrapper, children);
    let all = flatten_plan(target, wrapper, children);
    assert forall|i: int| 0 <= i < all.len() implies match written_path(
        (#[trigger] all[i]).command,
    ) {
        Some(path) => lies_in(target, path),
        None => true,
    } by {
        if i < lifted.len() {
            assert(all[i] == lifted[i]);
        } else {
            assert(all[i] == sweep_steps(target, wrapper)[i - lifted.len()]);
        }
    }
}

proof fn lemma_lift_steps_are_contained(
    target: Seq<char>,
    wrapper: Seq<char>,
    children: Seq<DirEntryView>,
)
    ensures
        writes_only_in(target, lift_steps(target, wrapper, children)),
    decreases children.len(),
{
    if children.len() > 0 {
        lemma_lift_steps_are_contained(target, wrapper, children.drop_last());
        let before = lift_steps(target, wrapper, children.drop_last());
        let all = lift_steps(target, wrapper, children);
        assert forall|i: int| 0 <= i < all.len() implies match written_path(
            (#[trigger] all[i]).command,
        ) {
            Some(path) => lies_in(target, path),
            None => true,
        } by {
            if i < before.len() {
                assert(all[i] == before[i]);
            } else {
                assert(stays_inside(children.last().name));
                assert(written_path(all[i].command) == Some(
                    join_spec(target, children.last().name),
                ));
            }
        }
    }
}

/// The renames that follow the unpacking never write outside the target.
pub proof fn lemma_rename_steps_are_contained(target: Seq<char>, rules: Seq<RuleView>)
    ensures
        writes_only_in(target, rename_steps(target, rules)),
    decreases rules.len(),
{
    if rules.len() > 0 {
        lemma_rename_steps_are_contained(target, rules.drop_last());
        let before = rename_steps(target, rules.drop_last());
        let all = rename_steps(target, rules);
        assert forall|i: int| 0 <= i < all.len() implies match written_path(
            (#[trigger] all[i]).command,
        ) {
            Some(path) => lies_in(target, path),
            None => true,
        } by {
            if i < before.len() {
                assert(all[i] == before[i]);
            } else {
                assert(stays_inside(rules.last().to));
                assert(written_path(all[i].command) == Some(join_spec(target, rules.last().to)));
            }
        }
    }
}

/// What it means to lie in the target: wherever the target itself leads,
/// a path that lies in it leads to the same place or below it, and no step
/// on the way there leaves the target.
pub proof fn lemma_contained_path_leads_below_target(
    start: Seq<Seq<char>>,
    target: Seq<char>,
    path: Seq<char>,
)
    requires
        lies_in(target, path),
        resolve_from(start, components(target)) is Some,
    ensures
        resolve_from(start, components(path)) is Some,
        resolve_from(start, components(target)).unwrap().is_prefix_of(
            resolve_from(start, components(path)).unwrap(),
        ),
{
    let base = resolve_from(start, components(target)).unwrap();
    if path != target {
        let name = choose|name: Seq<char>|
            stays_inside(name) && path == #[trigger] join_spec(target, name);
        lemma_guarded_name_stays_under(start, target, name);
        let below = resolve(components(name)).unwrap();
        assert((base + below).subrange(0, base.len() as int) =~= base);
    } else {
        assert(base.subrange(0, base.len() as int) =~= base);
    }
}

} // verus!
