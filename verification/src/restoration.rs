//! Putting backups back into the home directory.

use crate::backup_index::{index_entries, parse_backup_index, PlanError};
use crate::bytes::{copy_bytes, views};
use crate::directories::chain_path;
use crate::failure::{about, message_at, Failure};
use crate::host::{Ask, FaultKind, FileKind, Reply, Request};
use crate::paths::{components, components_of, has_parent, join, join_text, joined};
use crate::paths::{lemma_join_keeps_base, parent, parent_of, part_views, path_starts_with};
use crate::paths::{push_component, under};
use crate::removal::{index_removal_steps, remove_backup_index};
use crate::restore::{backup_restore_plan, has_nested, is_plan, plan_paths};
use crate::scaffold::{cleanup_backup_scaffold, Scaffold, ScaffoldCleanup, ScaffoldPhase, Stand};
use crate::script::{add_step, bare_deed, bare_step, no_steps, step, step_views, tells, told_line};
use crate::script::{unanswered, Check, Cleanup, Demand, Phase, Progress, Script, Step, StepView};
use crate::script::Tidy;
use crate::text::{lossy_text, show_bytes};
use vstd::prelude::*;

verus! {

/// The directories above a backup, the outermost first.
pub open spec fn source_parents(root: Seq<u8>, relative: Seq<u8>) -> Seq<StepView> {
    let parts = components_of(relative);
    Seq::new(
        parts.len(),
        |i: int|
            step(
                Ask::Inspect(chain_path(root, parts, i)),
                Demand::Kind(FileKind::Directory),
                about("backup source parent is unavailable: "@, chain_path(root, parts, i)),
                about(
                    "backup source parent must be a non-symlink directory: "@,
                    chain_path(root, parts, i),
                ),
            ),
    )
}

/// The steps that put one backup back: nothing may stand in its place, and the backup
/// that is moved is the one that was looked at.
pub open spec fn restore_steps(home: Seq<u8>, root: Seq<u8>, relative: Seq<u8>) -> Seq<StepView> {
    let source = joined(root, relative);
    let destination = joined(home, relative);
    source_parents(root, relative) + seq![
        bare_step(
            Ask::Inspect(source),
            Demand::RememberMovable,
            about("backup source has unsupported type: "@, source),
        ),
        bare_step(
            Ask::Inspect(destination),
            Demand::Missing,
            about("backup restore destination already exists: "@, destination),
        ),
        if has_parent(destination) {
            bare_deed(
                Ask::MakeRestore {
                    home,
                    path: parent_of(destination),
                },
            )
        } else {
            bare_step(
                Ask::Inspect(destination),
                Demand::Never,
                "backup restore destination has no parent"@,
            )
        },
        bare_step(
            Ask::Inspect(source),
            Demand::Same,
            about("backup source identity changed: "@, source),
        ),
        bare_deed(Ask::RenameNoReplace { source, destination }),
    ]
}

fn add_source_parents(steps: &mut Vec<Step>, root: &[u8], relative: &[u8])
    ensures
        step_views(final(steps)@) == step_views(old(steps)@) + source_parents(root@, relative@),
{
    let parts = components(relative);
    let ghost all = components_of(relative@);
    let ghost before = step_views(steps@);
    assert(parts@.len() == part_views(parts@).len());
    let mut directory = copy_bytes(root);
    let mut index: usize = 0;
    assert(before + source_parents(root@, relative@).take(0) =~= before);
    while index < parts.len()
        invariant
            index <= parts.len(),
            part_views(parts@) == all,
            all == components_of(relative@),
            all.len() == parts@.len(),
            directory@ == chain_path(root@, all, index as int),
            step_views(steps@) == before + source_parents(root@, relative@).take(index as int),
        decreases parts.len() - index,
    {
        let added = Step::new(
            Request::Inspect(copy_bytes(&directory)),
            Check::Kind(FileKind::Directory),
            message_at("backup source parent is unavailable: ", &directory),
            message_at("backup source parent must be a non-symlink directory: ", &directory),
        );
        let ghost row = source_parents(root@, relative@);
        assert(row[index as int] == added@);
        assert(row.take(index + 1) =~= row.take(index as int).push(added@));
        add_step(steps, added);
        assert(step_views(steps@) =~= before + row.take(index + 1));
        assert(part_views(parts@)[index as int] == parts@[index as int]@);
        directory = push_component(&directory, &parts[index]);
        index = index + 1;
    }
    assert(source_parents(root@, relative@).take(index as int) =~= source_parents(
        root@,
        relative@,
    ));
}

/// Begins to put one backup back.
pub fn restore_backup_entry(home: &[u8], root: &[u8], relative: &[u8]) -> (script: Script)
    ensures
        script.begins(restore_steps(home@, root@, relative@), Tidy::Nothing),
{
    let source = join(root, relative);
    let destination = join(home, relative);
    let mut steps = no_steps();
    add_source_parents(&mut steps, root, relative);
    let ghost first = step_views(steps@);
    assert(first =~= source_parents(root@, relative@));
    add_step(
        &mut steps,
        Step::bare(
            Request::Inspect(copy_bytes(&source)),
            Check::RememberMovable,
            message_at("backup source has unsupported type: ", &source),
        ),
    );
    add_step(
        &mut steps,
        Step::bare(
            Request::Inspect(copy_bytes(&destination)),
            Check::Missing,
            message_at("backup restore destination already exists: ", &destination),
        ),
    );
    match parent(&destination) {
        Some(above) => add_step(
            &mut steps,
            Step::bare_deed(Request::MakeRestore { home: copy_bytes(home), path: above }),
        ),
        None => add_step(
            &mut steps,
            Step::bare(
                Request::Inspect(copy_bytes(&destination)),
                Check::Never,
                "backup restore destination has no parent".to_owned(),
            ),
        ),
    }
    add_step(
        &mut steps,
        Step::bare(
            Request::Inspect(copy_bytes(&source)),
            Check::Same,
            message_at("backup source identity changed: ", &source),
        ),
    );
    add_step(&mut steps, Step::bare_deed(Request::RenameNoReplace { source, destination }));
    assert(step_views(steps@) =~= restore_steps(home@, root@, relative@));
    Script::new(steps, Cleanup::Nothing)
}

/// How far the restoration has come.
#[derive(Debug)]
pub enum RestorePhase {
    /// The index is looked at.
    LookingAtIndex,
    ReadingIndex,
    /// The backups are looked at.
    LookingAtRoot(Vec<Vec<u8>>),
    Announcing(Vec<Vec<u8>>),
    /// The backup with this number is put back.
    Restoring { plan: Vec<Vec<u8>>, index: usize, script: Script },
    /// The backup with this number is shown.
    Showing { plan: Vec<Vec<u8>>, index: usize },
    RemovingIndex(Script),
    /// Empty directories are removed.
    Cleaning(ScaffoldCleanup),
    Completed,
    Failed(Failure),
}

/// The restoration of the backups of a home directory.
#[derive(Debug)]
pub struct HomeRestore {
    pub home: Vec<u8>,
    /// Where the backups lie.
    pub root: Vec<u8>,
    pub index: Vec<u8>,
    pub phase: RestorePhase,
}

/// Begins to put the backups of a home directory back.
pub fn restore_home_backups(state_home: &[u8], home: &[u8]) -> (restore: HomeRestore)
    ensures
        restore.begins(state_home@, home@),
{
    let directory = join_text(state_home, "eiyah/backup");
    HomeRestore {
        home: copy_bytes(home),
        root: join_text(&directory, "home"),
        index: join_text(&directory, "index"),
        phase: RestorePhase::LookingAtIndex,
    }
}

/// What is said where a backup could not be put back.
pub open spec fn unrestored_words(relative: Seq<u8>, reason: Seq<char>) -> Seq<char> {
    "failed to restore "@ + lossy_text(relative) + ": "@ + reason
}

/// Whether the restoration has failed with these words.
pub open spec fn fails(next: RestorePhase, words: Seq<char>) -> bool {
    next is Failed && next->Failed_0.says(words)
}

impl HomeRestore {
    /// Whether the backups of a home directory begin to be put back.
    pub open spec fn begins(&self, state_home: Seq<u8>, home: Seq<u8>) -> bool {
        &&& self.home@ == home
        &&& self.root@ == under(under(state_home, "eiyah/backup"@), "home"@)
        &&& self.index@ == under(under(state_home, "eiyah/backup"@), "index"@)
        &&& self.phase is LookingAtIndex
    }

    pub open spec fn asks(&self) -> Ask {
        match self.phase {
            RestorePhase::LookingAtIndex => Ask::Inspect(self.index@),
            RestorePhase::ReadingIndex => Ask::Read(self.index@),
            RestorePhase::LookingAtRoot(_) => Ask::Inspect(self.root@),
            RestorePhase::Announcing(_) => Ask::Heading("Restoring previous configuration"@),
            RestorePhase::Restoring { script, .. } => script.asks(),
            RestorePhase::Showing { plan, index } => if index < plan@.len() {
                Ask::Detail(lossy_text(joined(self.home@, plan@[index as int]@)))
            } else {
                Ask::Nothing
            },
            RestorePhase::RemovingIndex(script) => script.asks(),
            RestorePhase::Cleaning(cleanup) => cleanup@.asks(),
            RestorePhase::Completed => Ask::Nothing,
            RestorePhase::Failed(_) => Ask::Nothing,
        }
    }

    /// The restoration goes on with this backup, or with the index where there is none.
    pub open spec fn takes_up(&self, plan: Seq<Seq<u8>>, index: int, next: RestorePhase) -> bool {
        if index >= plan.len() {
            next is RemovingIndex && next->RemovingIndex_0.begins(
                index_removal_steps(self.index@),
                Tidy::Nothing,
            )
        } else if !components_of(self.home@).is_prefix_of(
            components_of(joined(self.home@, plan[index])),
        ) {
            fails(next, "backup restore destination escapes HOME"@)
        } else {
            &&& next is Restoring
            &&& views(next->Restoring_plan@) == plan
            &&& next->Restoring_index == index
            &&& next->Restoring_script.begins(
                restore_steps(self.home@, self.root@, plan[index]),
                Tidy::Nothing,
            )
        }
    }

    /// What follows once the plan is known.
    pub open spec fn begins_plan(&self, plan: Seq<Seq<u8>>, next: RestorePhase) -> bool {
        if plan.len() == 0 {
            self.takes_up(plan, 0, next)
        } else {
            next is LookingAtRoot && views(next->LookingAtRoot_0@) == plan
        }
    }

    /// What follows once the index was read.
    pub open spec fn reads(&self, content: Seq<u8>, next: RestorePhase) -> bool {
        match index_entries(content) {
            Err(error) => fails(next, error.words()),
            Ok(entries) => match plan_paths(entries) {
                Err(error) => fails(next, error.words()),
                Ok(paths) => if has_nested(paths) {
                    fails(next, PlanError::Nested.words())
                } else {
                    exists|plan: Seq<Seq<u8>>| #[trigger]
                        is_plan(plan, entries) && self.begins_plan(plan, next)
                },
            },
        }
    }

    /// What follows a reply.
    pub open spec fn follows(&self, reply: Reply, next: RestorePhase) -> bool {
        match self.phase {
            RestorePhase::LookingAtIndex => match reply {
                Reply::Failed(fault) => if fault.kind == FaultKind::NotFound {
                    next is Completed
                } else {
                    fails(next, fault.text@)
                },
                Reply::Found(entry) => if entry.kind == FileKind::Regular {
                    next is ReadingIndex
                } else {
                    fails(next, about("backup index must be a regular file: "@, self.index@))
                },
                _ => fails(next, unanswered()),
            },
            RestorePhase::ReadingIndex => match reply {
                Reply::Contents(content) => self.reads(content@, next),
                Reply::Failed(fault) => fails(next, fault.text@),
                _ => fails(next, unanswered()),
            },
            RestorePhase::LookingAtRoot(plan) => match reply {
                Reply::Found(entry) => if entry.kind == FileKind::Directory {
                    next == RestorePhase::Announcing(plan)
                } else {
                    fails(next, about("backup root must be a non-symlink directory: "@, self.root@))
                },
                Reply::Failed(fault) => next is Failed && next->Failed_0.blames(
                    about("backup root is unavailable: "@, self.root@),
                    fault.text@,
                ),
                _ => fails(next, unanswered()),
            },
            RestorePhase::Announcing(plan) => match reply {
                Reply::Done => self.takes_up(views(plan@), 0, next),
                Reply::Failed(fault) => fails(next, fault.text@),
                _ => fails(next, unanswered()),
            },
            RestorePhase::Restoring { plan, index, script } => match script.after(reply).phase {
                Phase::Completed => next == (RestorePhase::Showing { plan, index }),
                Phase::Failed { step, fault } => if index < plan@.len() {
                    fails(
                        next,
                        unrestored_words(
                            plan@[index as int]@,
                            told_line(step_views(script.steps@), step as int, fault),
                        ),
                    )
                } else {
                    next is Failed && tells(
                        step_views(script.steps@),
                        step as int,
                        fault,
                        next->Failed_0,
                    )
                },
                _ => next == (RestorePhase::Restoring { plan, index, script: script.after(reply) }),
            },
            RestorePhase::Showing { plan, index } => match reply {
                Reply::Done => self.takes_up(views(plan@), index + 1, next),
                Reply::Failed(fault) => fails(next, fault.text@),
                _ => fails(next, unanswered()),
            },
            RestorePhase::RemovingIndex(script) => match script.after(reply).phase {
                Phase::Completed => next is Cleaning && next->Cleaning_0@ == (Scaffold {
                    root: self.root@,
                    floors: Seq::empty(),
                    stand: Stand::Root,
                }),
                Phase::Failed { step, fault } => next is Failed && next->Failed_0.line()
                    == told_line(step_views(script.steps@), step as int, fault),
                _ => next == RestorePhase::RemovingIndex(script.after(reply)),
            },
            RestorePhase::Cleaning(cleanup) => match cleanup@.after(reply).stand {
                Stand::Completed => next is Completed,
                Stand::Failed(words) => next is Failed && next->Failed_0.line() == words,
                _ => next is Cleaning && next->Cleaning_0@ == cleanup@.after(reply),
            },
            _ => next == self.phase,
        }
    }

    /// What has to be done next.
    pub fn request(&self) -> (request: Request)
        ensures
            request@ == self.asks(),
    {
        match &self.phase {
            RestorePhase::LookingAtIndex => Request::Inspect(copy_bytes(&self.index)),
            RestorePhase::ReadingIndex => Request::Read(copy_bytes(&self.index)),
            RestorePhase::LookingAtRoot(_) => Request::Inspect(copy_bytes(&self.root)),
            RestorePhase::Announcing(_) => Request::Heading(
                "Restoring previous configuration".to_owned(),
            ),
            RestorePhase::Restoring { script, .. } => script.wanted(),
            RestorePhase::Showing { plan, index } => if *index < plan.len() {
                Request::Detail(show_bytes(&join(&self.home, &plan[*index])))
            } else {
                Request::Nothing
            },
            RestorePhase::RemovingIndex(script) => script.wanted(),
            RestorePhase::Cleaning(cleanup) => cleanup.request(),
            RestorePhase::Completed => Request::Nothing,
            RestorePhase::Failed(_) => Request::Nothing,
        }
    }

    fn take_up(&self, plan: Vec<Vec<u8>>, index: usize) -> (next: RestorePhase)
        ensures
            self.takes_up(views(plan@), index as int, next),
    {
        if index >= plan.len() {
            return RestorePhase::RemovingIndex(remove_backup_index(&self.index));
        }
        assert(views(plan@)[index as int] == plan@[index as int]@);
        if !path_starts_with(&join(&self.home, &plan[index]), &self.home) {
            return failed("backup restore destination escapes HOME");
        }
        let script = restore_backup_entry(&self.home, &self.root, &plan[index]);
        RestorePhase::Restoring { plan, index, script }
    }

    fn read(&self, content: &[u8]) -> (next: RestorePhase)
        ensures
            self.reads(content@, next),
    {
        let entries = match parse_backup_index(content) {
            Err(error) => {
                return failed(&error.text());
            },
            Ok(entries) => entries,
        };
        match backup_restore_plan(&entries) {
            Err(error) => failed(&error.text()),
            Ok(plan) => {
                assert(is_plan(views(plan@), views(entries@)));
                assert(views(plan@).len() == plan@.len());
                if plan.len() == 0 {
                    self.take_up(plan, 0)
                } else {
                    RestorePhase::LookingAtRoot(plan)
                }
            },
        }
    }

    /// Goes on with a reply.
    pub fn advance(self, reply: Reply) -> (next: HomeRestore)
        ensures
            next.home == self.home,
            next.root == self.root,
            next.index == self.index,
            self.follows(reply, next.phase),
    {
        let HomeRestore { home, root, index, phase } = self;
        let place = HomeRestore { home, root, index, phase: RestorePhase::Completed };
        let next = match phase {
            RestorePhase::LookingAtIndex => match reply {
                Reply::Failed(fault) => if fault.kind == FaultKind::NotFound {
                    RestorePhase::Completed
                } else {
                    failed(&fault.text)
                },
                Reply::Found(entry) => if entry.kind == FileKind::Regular {
                    RestorePhase::ReadingIndex
                } else {
                    failed(&message_at("backup index must be a regular file: ", &place.index))
                },
                _ => failed("unexpected reply"),
            },
            RestorePhase::ReadingIndex => match reply {
                Reply::Contents(content) => place.read(&content),
                Reply::Failed(fault) => failed(&fault.text),
                _ => failed("unexpected reply"),
            },
            RestorePhase::LookingAtRoot(plan) => match reply {
                Reply::Found(entry) => if entry.kind == FileKind::Directory {
                    RestorePhase::Announcing(plan)
                } else {
                    failed(&message_at("backup root must be a non-symlink directory: ", &place.root))
                },
                Reply::Failed(fault) => RestorePhase::Failed(
                    Failure::caused_at("backup root is unavailable: ", &place.root, &fault.text),
                ),
                _ => failed("unexpected reply"),
            },
            RestorePhase::Announcing(plan) => match reply {
                Reply::Done => place.take_up(plan, 0),
                Reply::Failed(fault) => failed(&fault.text),
                _ => failed("unexpected reply"),
            },
            RestorePhase::Restoring { plan, index: at, script } => match script.progress(reply) {
                Progress::Going(script) => RestorePhase::Restoring { plan, index: at, script },
                Progress::Completed => RestorePhase::Showing { plan, index: at },
                Progress::Broken(failure) => if at >= plan.len() {
                    RestorePhase::Failed(failure)
                } else {
                    let mut words = message_at("failed to restore ", &plan[at]);
                    words.append(": ");
                    words.append(&failure.full_text());
                    failed(&words)
                },
            },
            RestorePhase::Showing { plan, index: at } => match reply {
                Reply::Done => if at < plan.len() {
                    place.take_up(plan, at + 1)
                } else {
                    place.take_up(plan, at)
                },
                Reply::Failed(fault) => failed(&fault.text),
                _ => failed("unexpected reply"),
            },
            RestorePhase::RemovingIndex(script) => match script.progress(reply) {
                Progress::Going(script) => RestorePhase::RemovingIndex(script),
                Progress::Completed => RestorePhase::Cleaning(cleanup_backup_scaffold(&place.root)),
                Progress::Broken(failure) => RestorePhase::Failed(failure),
            },
            RestorePhase::Cleaning(cleanup) => {
                let cleanup = cleanup.advance(reply);
                match cleanup.phase {
                    ScaffoldPhase::Completed => RestorePhase::Completed,
                    ScaffoldPhase::Failed(failure) => RestorePhase::Failed(failure),
                    _ => RestorePhase::Cleaning(cleanup),
                }
            },
            RestorePhase::Completed => RestorePhase::Completed,
            RestorePhase::Failed(failure) => RestorePhase::Failed(failure),
        };
        HomeRestore { home: place.home, root: place.root, index: place.index, phase: next }
    }
}

fn failed(words: &str) -> (next: RestorePhase)
    ensures
        fails(next, words@),
{
    RestorePhase::Failed(Failure::plain(words))
}

/// The index is removed only when every backup of the plan was put back and shown, and
/// a backup that was not put back keeps the index.
pub proof fn the_index_stays_until_all_is_restored(
    restore: HomeRestore,
    reply: Reply,
    next: RestorePhase,
)
    requires
        restore.follows(reply, next),
        next is RemovingIndex,
        !(restore.phase is RemovingIndex),
    ensures
        match restore.phase {
            RestorePhase::ReadingIndex => {
                &&& reply is Contents
                &&& index_entries(reply->Contents_0@) is Ok
                &&& plan_paths(index_entries(reply->Contents_0@)->Ok_0) is Ok
                &&& plan_paths(index_entries(reply->Contents_0@)->Ok_0)->Ok_0.len() == 0
            },
            RestorePhase::Announcing(plan) => plan@.len() == 0,
            RestorePhase::Showing { plan, index } => reply == Reply::Done && index + 1
                >= plan@.len(),
            _ => false,
        },
{
    if restore.phase is ReadingIndex {
        let entries = index_entries(reply->Contents_0@)->Ok_0;
        let plan = choose|plan: Seq<Seq<u8>>| #[trigger]
            is_plan(plan, entries) && restore.begins_plan(plan, next);
        plan.to_multiset_ensures();
        plan_paths(entries)->Ok_0.to_multiset_ensures();
    }
}

/// A backup is moved only to a place where nothing stands, and only the entry that was
/// looked at is moved.
pub proof fn nothing_is_overwritten(home: Seq<u8>, root: Seq<u8>, relative: Seq<u8>)
    ensures
        ({
            let steps = restore_steps(home, root, relative);
            let last = steps.len() - 1;
            &&& steps.len() == components_of(relative).len() + 5
            &&& steps[last].ask == Ask::RenameNoReplace {
                source: joined(root, relative),
                destination: joined(home, relative),
            }
            &&& steps[last - 1].ask == Ask::Inspect(joined(root, relative))
            &&& steps[last - 1].demand == Demand::Same
            &&& steps[last - 3].ask == Ask::Inspect(joined(home, relative))
            &&& steps[last - 3].demand == Demand::Missing
            &&& forall|i: int|
                0 <= i < last ==> {
                    &&& !(#[trigger] steps[i].ask is RenameNoReplace)
                    &&& !(steps[i].ask is Rename)
                    &&& !(steps[i].ask is RemoveFile)
                    &&& !(steps[i].ask is RemoveTree)
                }
        }),
{
}

/// Once an entry was restored and shown, the next one of the plan is: it is renamed from
/// its place among the backups to its place in the home directory. Only behind the last
/// one the index is removed.
pub proof fn every_entry_of_the_plan_is_restored(
    restore: HomeRestore,
    reply: Reply,
    next: RestorePhase,
)
    requires
        restore.phase is Showing,
        restore.home@.len() > 0,
        reply is Done,
        restore.follows(reply, next),
        restore.phase->Showing_index < restore.phase->Showing_plan@.len(),
        forall|k: int|
            0 <= k < restore.phase->Showing_plan@.len() ==> {
                let path = #[trigger] restore.phase->Showing_plan@[k]@;
                path.len() > 0 && path[0] != 0x2f
            },
    ensures
        restore.phase->Showing_index + 1 == restore.phase->Showing_plan@.len()
            <==> next is RemovingIndex,
        restore.phase->Showing_index + 1 < restore.phase->Showing_plan@.len() ==> {
            let path = restore.phase->Showing_plan@[restore.phase->Showing_index + 1]@;
            &&& next is Restoring
            &&& next->Restoring_index == restore.phase->Showing_index + 1
            &&& views(next->Restoring_plan@) == views(restore.phase->Showing_plan@)
            &&& next->Restoring_script.steps@.len() > 0
            &&& next->Restoring_script.steps@.last().request@ == (Ask::RenameNoReplace {
                source: joined(restore.root@, path),
                destination: joined(restore.home@, path),
            })
        },
{
    let plan = restore.phase->Showing_plan@;
    let index = restore.phase->Showing_index as int;
    if index + 1 < plan.len() {
        let path = plan[index + 1]@;
        assert(views(plan)[index + 1] == path);
        lemma_join_keeps_base(restore.home@, path);
        let script = next->Restoring_script;
        let steps = restore_steps(restore.home@, restore.root@, path);
        assert(step_views(script.steps@) == steps);
        assert(step_views(script.steps@).last() == script.steps@.last()@);
    }
}

/// Backups are restored only where there is an index: without one there is nothing to be
/// done, and something else than a regular file in its place is refused.
pub proof fn without_an_index_nothing_is_restored(
    restore: HomeRestore,
    reply: Reply,
    next: RestorePhase,
)
    requires
        restore.phase is LookingAtIndex,
        restore.follows(reply, next),
    ensures
        restore.asks() == Ask::Inspect(restore.index@),
        next is Completed <==> reply is Failed && reply->Failed_0.kind == FaultKind::NotFound,
        next is ReadingIndex <==> reply is Found && reply->Found_0.kind == FileKind::Regular,
        !(next is Completed) && !(next is ReadingIndex) ==> next is Failed,
{
}

} // verus!
