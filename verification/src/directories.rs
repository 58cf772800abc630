//! Creating directories.
//!
//! Managed directories are created from the nearest ancestor that exists, and
//! those that were created are removed again when one of them cannot be.

use crate::bytes::{copy_bytes, split_seq, views};
use crate::failure::{about, Failure};
use crate::host::{Ask, Fault, FaultKind, FileKind, Reply, Request};
use crate::paths::{absolute, components_of, follows, join_text, joined};
use crate::paths::{lemma_components_well_formed, lemma_join_components, lemma_join_keeps_base};
use crate::paths::{lemma_split_single, named_parts, parent, parent_of, part_bytes, part_views};
use crate::paths::{push_component, strip_prefix, under, well_formed, Component, Part};
use crate::text::lemma_ascii_bytes;
use crate::transaction::PathIdentity;
use vstd::prelude::*;
use vstd::utf8::encode_utf8;

verus! {

/// The permission bits of a managed directory.
pub const INSTALL_DIRECTORY_MODE: u32 = 0o755;

/// The permission bits of a backup directory.
pub const BACKUP_DIRECTORY_MODE: u32 = 0o700;

// --------------------------------------------------
// Managed directories
// --------------------------------------------------

/// How many paths there are from a path up to the root, or to the empty path.
pub open spec fn ancestor_count(path: Seq<u8>) -> nat {
    let parts = components_of(path);
    if parts.len() > 0 && parts[0] is Root {
        parts.len()
    } else {
        parts.len() + 1
    }
}

/// The path `steps` levels above a path.
pub open spec fn ancestor(path: Seq<u8>, steps: int) -> Seq<u8>
    decreases steps,
{
    if steps <= 0 {
        path
    } else {
        parent_of(ancestor(path, steps - 1))
    }
}

/// A directory that was created: where it stands among the ancestors, and which
/// entry it is.
#[derive(Clone, Copy, Debug, PartialEq, Eq, Structural)]
pub struct Made {
    pub level: usize,
    pub identity: PathIdentity,
}

/// Why directories were not created.
#[derive(Debug)]
pub enum ManagedFailure {
    /// Neither the path nor one of its ancestors exists.
    NoAncestor,
    /// A directory could not be inspected.
    Inspect { level: usize, fault: Fault },
    /// A directory that was just created could not be inspected.
    InspectMade { level: usize, fault: Fault },
    /// A directory could not be created.
    Create { level: usize, fault: Fault },
    /// The permissions of a directory could not be set.
    SetMode { level: usize, fault: Fault },
    /// Something else than a directory stands there.
    NotDirectory { level: usize },
    /// A reply did not answer the request.
    Unanswered,
}

/// How far the creation has come. A level counts the steps up from the path.
#[derive(Debug)]
pub enum ManagedPhase {
    /// Look for the nearest ancestor that exists.
    Search { level: usize },
    Make { level: usize },
    InspectMade { level: usize },
    SetMode { level: usize },
    /// A directory stands there already.
    Verify { level: usize },
    /// All levels exist; the path itself is checked.
    Check,
    /// The first `left` of the created directories are still to be removed.
    InspectForRemoval { left: usize, failure: ManagedFailure },
    Remove { left: usize, failure: ManagedFailure },
    Completed,
    Failed(ManagedFailure),
}

/// The creation of a managed directory with its missing ancestors.
#[derive(Debug)]
pub struct ManagedDirectories {
    /// The path and its ancestors.
    pub levels: Vec<Vec<u8>>,
    /// The directories that were created, in order.
    pub made: Vec<Made>,
    pub phase: ManagedPhase,
}

/// What follows when a level exists.
pub open spec fn below_level(level: usize) -> ManagedPhase {
    if level == 0 {
        ManagedPhase::Check
    } else {
        ManagedPhase::Make { level: (level - 1) as usize }
    }
}

/// What follows a failure: the directories that were created are removed.
pub open spec fn undo_made(left: nat, failure: ManagedFailure) -> ManagedPhase {
    if left == 0 {
        ManagedPhase::Failed(failure)
    } else {
        ManagedPhase::InspectForRemoval { left: left as usize, failure }
    }
}

/// The phase that follows a reply.
pub open spec fn managed_next(
    count: nat,
    made: Seq<Made>,
    phase: ManagedPhase,
    reply: Reply,
) -> ManagedPhase {
    match phase {
        ManagedPhase::Search { level } => match reply {
            Reply::Found(_) => below_level(level),
            Reply::Failed(fault) => if fault.kind == FaultKind::NotFound {
                if level + 1 < count {
                    ManagedPhase::Search { level: (level + 1) as usize }
                } else {
                    ManagedPhase::Failed(ManagedFailure::NoAncestor)
                }
            } else {
                ManagedPhase::Failed(ManagedFailure::Inspect { level, fault })
            },
            _ => ManagedPhase::Failed(ManagedFailure::Unanswered),
        },
        ManagedPhase::Make { level } => match reply {
            Reply::Done => ManagedPhase::InspectMade { level },
            Reply::Failed(fault) => if fault.kind == FaultKind::AlreadyExists {
                ManagedPhase::Verify { level }
            } else {
                undo_made(made.len(), ManagedFailure::Create { level, fault })
            },
            _ => undo_made(made.len(), ManagedFailure::Unanswered),
        },
        ManagedPhase::InspectMade { level } => match reply {
            Reply::Found(_) => ManagedPhase::SetMode { level },
            Reply::Failed(fault) => undo_made(
                made.len(),
                ManagedFailure::InspectMade { level, fault },
            ),
            _ => undo_made(made.len(), ManagedFailure::Unanswered),
        },
        ManagedPhase::SetMode { level } => match reply {
            Reply::Done => below_level(level),
            Reply::Failed(fault) => undo_made(made.len(), ManagedFailure::SetMode { level, fault }),
            _ => undo_made(made.len(), ManagedFailure::Unanswered),
        },
        ManagedPhase::Verify { level } => match reply {
            Reply::Found(entry) => if entry.kind == FileKind::Directory {
                below_level(level)
            } else {
                undo_made(made.len(), ManagedFailure::NotDirectory { level })
            },
            Reply::Failed(fault) => undo_made(made.len(), ManagedFailure::Inspect { level, fault }),
            _ => undo_made(made.len(), ManagedFailure::Unanswered),
        },
        ManagedPhase::Check => match reply {
            Reply::Found(entry) => if entry.kind == FileKind::Directory {
                ManagedPhase::Completed
            } else {
                undo_made(made.len(), ManagedFailure::NotDirectory { level: 0 })
            },
            Reply::Failed(fault) => undo_made(
                made.len(),
                ManagedFailure::Inspect { level: 0, fault },
            ),
            _ => undo_made(made.len(), ManagedFailure::Unanswered),
        },
        ManagedPhase::InspectForRemoval { left, failure } => match reply {
            Reply::Found(entry) => if 0 < left <= made.len() && entry.identity == made[left
                - 1].identity {
                ManagedPhase::Remove { left, failure }
            } else {
                undo_made(less_one(left), failure)
            },
            _ => undo_made(less_one(left), failure),
        },
        ManagedPhase::Remove { left, failure } => undo_made(less_one(left), failure),
        ManagedPhase::Completed => ManagedPhase::Completed,
        ManagedPhase::Failed(failure) => ManagedPhase::Failed(failure),
    }
}

pub open spec fn less_one(count: usize) -> nat {
    if count == 0 {
        0
    } else {
        (count - 1) as nat
    }
}

/// The directories that were created after a reply.
pub open spec fn made_next(made: Seq<Made>, phase: ManagedPhase, reply: Reply) -> Seq<Made> {
    match (phase, reply) {
        (ManagedPhase::InspectMade { level }, Reply::Found(entry)) => made.push(
            Made { level, identity: entry.identity },
        ),
        _ => made,
    }
}

/// The path at a level, or the empty path.
pub open spec fn at_level(levels: Seq<Seq<u8>>, level: usize) -> Seq<u8> {
    if level < levels.len() {
        levels[level as int]
    } else {
        Seq::empty()
    }
}

fn copy_level(levels: &Vec<Vec<u8>>, level: usize) -> (path: Vec<u8>)
    ensures
        path@ == at_level(views(levels@), level),
{
    if level < levels.len() {
        assert(views(levels@)[level as int] == levels@[level as int]@);
        copy_bytes(&levels[level])
    } else {
        let none: Vec<u8> = Vec::new();
        assert(none@ =~= Seq::<u8>::empty());
        none
    }
}

fn go_below(level: usize) -> (phase: ManagedPhase)
    ensures
        phase == below_level(level),
{
    if level == 0 {
        ManagedPhase::Check
    } else {
        ManagedPhase::Make { level: level - 1 }
    }
}

fn undo(left: usize, failure: ManagedFailure) -> (phase: ManagedPhase)
    ensures
        phase == undo_made(left as nat, failure),
{
    if left == 0 {
        ManagedPhase::Failed(failure)
    } else {
        ManagedPhase::InspectForRemoval { left, failure }
    }
}

impl ManagedDirectories {
    /// Whether the creation of this directory is prepared, and nothing was done yet.
    pub open spec fn begins(&self, path: Seq<u8>) -> bool {
        &&& self.levels@.len() == ancestor_count(path)
        &&& forall|i: int|
            0 <= i < self.levels@.len() ==> #[trigger] self.levels@[i]@ == ancestor(path, i)
        &&& self.made@.len() == 0
        &&& self.phase == (ManagedPhase::Search { level: 0 })
    }

    /// What follows a reply.
    pub open spec fn follows(&self, reply: Reply, next: ManagedDirectories) -> bool {
        &&& next.levels == self.levels
        &&& next.made@ == made_next(self.made@, self.phase, reply)
        &&& next.phase == managed_next(self.levels@.len(), self.made@, self.phase, reply)
    }
}

/// Prepares the creation of a managed directory with its missing ancestors.
pub fn create_install_directories(path: &[u8]) -> (directories: ManagedDirectories)
    ensures
        directories.begins(path@),
{
    let mut levels: Vec<Vec<u8>> = Vec::new();
    levels.push(copy_bytes(path));
    let mut above = parent(path);
    let ghost mut left = components_of(path@);
    assert(left =~= components_of(path@).take(left.len() as int));
    assert(ancestor(path@, 0) == path@);
    proof {
        lemma_components_well_formed(path@);
    }
    while above.is_some()
        invariant
            levels@.len() > 0,
            left == components_of(path@).take(components_of(path@).len() + 1 - levels@.len()),
            levels@.len() <= components_of(path@).len() + 1,
            well_formed(components_of(path@)),
            components_of(path@).len() > 0 && components_of(path@)[0] is Root ==> left.len() > 0,
            above is Some <==> left.len() > 0 && !(left.last() is Root),
            above is Some ==> above->0@ == ancestor(path@, levels@.len() as int)
                && components_of(above->0@) == left.drop_last(),
            forall|i: int|
                0 <= i < levels@.len() ==> #[trigger] levels@[i]@ == ancestor(path@, i),
        decreases left.len(),
    {
        match above {
            Some(next) => {
                above = parent(&next);
                proof {
                    left = left.drop_last();
                    assert(left =~= components_of(path@).take(
                        components_of(path@).len() - levels@.len(),
                    ));
                }
                levels.push(next);
            },
            None => {
                above = None;
            },
        }
    }
    ManagedDirectories { levels, made: Vec::new(), phase: ManagedPhase::Search { level: 0 } }
}

impl ManagedDirectories {
    /// The request that the creation waits for.
    pub open spec fn asks(&self) -> Ask {
        let levels = views(self.levels@);
        match self.phase {
            ManagedPhase::Search { level } => Ask::Inspect(at_level(levels, level)),
            ManagedPhase::Make { level } => Ask::MakeDirectory {
                path: at_level(levels, level),
                mode: INSTALL_DIRECTORY_MODE,
            },
            ManagedPhase::InspectMade { level } => Ask::Inspect(at_level(levels, level)),
            ManagedPhase::SetMode { level } => Ask::SetMode {
                path: at_level(levels, level),
                mode: INSTALL_DIRECTORY_MODE,
            },
            ManagedPhase::Verify { level } => Ask::Inspect(at_level(levels, level)),
            ManagedPhase::Check => Ask::Inspect(at_level(levels, 0)),
            ManagedPhase::InspectForRemoval { left, .. } => if 0 < left <= self.made@.len() {
                Ask::Inspect(at_level(levels, self.made@[left - 1].level))
            } else {
                Ask::Nothing
            },
            ManagedPhase::Remove { left, .. } => if 0 < left <= self.made@.len() {
                Ask::RemoveDirectory(at_level(levels, self.made@[left - 1].level))
            } else {
                Ask::Nothing
            },
            ManagedPhase::Completed => Ask::Nothing,
            ManagedPhase::Failed(_) => Ask::Nothing,
        }
    }

    /// The request that the creation waits for.
    pub fn request(&self) -> (request: Request)
        ensures
            request@ == self.asks(),
    {
        match &self.phase {
            ManagedPhase::Search { level } => Request::Inspect(copy_level(&self.levels, *level)),
            ManagedPhase::Make { level } => Request::MakeDirectory {
                path: copy_level(&self.levels, *level),
                mode: INSTALL_DIRECTORY_MODE,
            },
            ManagedPhase::InspectMade { level } => Request::Inspect(
                copy_level(&self.levels, *level),
            ),
            ManagedPhase::SetMode { level } => Request::SetMode {
                path: copy_level(&self.levels, *level),
                mode: INSTALL_DIRECTORY_MODE,
            },
            ManagedPhase::Verify { level } => Request::Inspect(copy_level(&self.levels, *level)),
            ManagedPhase::Check => Request::Inspect(copy_level(&self.levels, 0)),
            ManagedPhase::InspectForRemoval { left, .. } => if 0 < *left && *left
                <= self.made.len() {
                Request::Inspect(copy_level(&self.levels, self.made[*left - 1].level))
            } else {
                Request::Nothing
            },
            ManagedPhase::Remove { left, .. } => if 0 < *left && *left <= self.made.len() {
                Request::RemoveDirectory(copy_level(&self.levels, self.made[*left - 1].level))
            } else {
                Request::Nothing
            },
            ManagedPhase::Completed => Request::Nothing,
            ManagedPhase::Failed(_) => Request::Nothing,
        }
    }

    /// Goes on with the reply to the request.
    pub fn advance(self, reply: Reply) -> (next: ManagedDirectories)
        ensures
            self.follows(reply, next),
    {
        let levels = self.levels;
        let mut made = self.made;
        let phase = match self.phase {
            ManagedPhase::Search { level } => match reply {
                Reply::Found(_) => go_below(level),
                Reply::Failed(fault) => if fault.kind == FaultKind::NotFound {
                    if level < levels.len() && level + 1 < levels.len() {
                        ManagedPhase::Search { level: level + 1 }
                    } else {
                        ManagedPhase::Failed(ManagedFailure::NoAncestor)
                    }
                } else {
                    ManagedPhase::Failed(ManagedFailure::Inspect { level, fault })
                },
                _ => ManagedPhase::Failed(ManagedFailure::Unanswered),
            },
            ManagedPhase::Make { level } => match reply {
                Reply::Done => ManagedPhase::InspectMade { level },
                Reply::Failed(fault) => if fault.kind == FaultKind::AlreadyExists {
                    ManagedPhase::Verify { level }
                } else {
                    undo(made.len(), ManagedFailure::Create { level, fault })
                },
                _ => undo(made.len(), ManagedFailure::Unanswered),
            },
            ManagedPhase::InspectMade { level } => match reply {
                Reply::Found(entry) => {
                    made.push(Made { level, identity: entry.identity });
                    ManagedPhase::SetMode { level }
                },
                Reply::Failed(fault) => undo(
                    made.len(),
                    ManagedFailure::InspectMade { level, fault },
                ),
                _ => undo(made.len(), ManagedFailure::Unanswered),
            },
            ManagedPhase::SetMode { level } => match reply {
                Reply::Done => go_below(level),
                Reply::Failed(fault) => undo(made.len(), ManagedFailure::SetMode { level, fault }),
                _ => undo(made.len(), ManagedFailure::Unanswered),
            },
            ManagedPhase::Verify { level } => match reply {
                Reply::Found(entry) => if entry.kind == FileKind::Directory {
                    go_below(level)
                } else {
                    undo(made.len(), ManagedFailure::NotDirectory { level })
                },
                Reply::Failed(fault) => undo(made.len(), ManagedFailure::Inspect { level, fault }),
                _ => undo(made.len(), ManagedFailure::Unanswered),
            },
            ManagedPhase::Check => match reply {
                Reply::Found(entry) => if entry.kind == FileKind::Directory {
                    ManagedPhase::Completed
                } else {
                    undo(made.len(), ManagedFailure::NotDirectory { level: 0 })
                },
                Reply::Failed(fault) => undo(
                    made.len(),
                    ManagedFailure::Inspect { level: 0, fault },
                ),
                _ => undo(made.len(), ManagedFailure::Unanswered),
            },
            ManagedPhase::InspectForRemoval { left, failure } => {
                let rest: usize = if left == 0 {
                    0
                } else {
                    left - 1
                };
                match reply {
                    Reply::Found(entry) => if 0 < left && left <= made.len() && entry.identity
                        == made[left - 1].identity {
                        ManagedPhase::Remove { left, failure }
                    } else {
                        undo(rest, failure)
                    },
                    _ => undo(rest, failure),
                }
            },
            ManagedPhase::Remove { left, failure } => {
                let rest: usize = if left == 0 {
                    0
                } else {
                    left - 1
                };
                undo(rest, failure)
            },
            ManagedPhase::Completed => ManagedPhase::Completed,
            ManagedPhase::Failed(failure) => ManagedPhase::Failed(failure),
        };
        ManagedDirectories { levels, made, phase }
    }

    /// The directories that were created, in order.
    pub fn created(&self) -> (paths: Vec<Vec<u8>>)
        ensures
            paths@.len() == self.made@.len(),
            forall|i: int|
                0 <= i < paths@.len() ==> #[trigger] paths@[i]@ == at_level(
                    views(self.levels@),
                    self.made@[i].level,
                ),
    {
        let mut paths: Vec<Vec<u8>> = Vec::new();
        let mut index: usize = 0;
        while index < self.made.len()
            invariant
                index <= self.made.len(),
                paths@.len() == index,
                forall|i: int|
                    0 <= i < paths@.len() ==> #[trigger] paths@[i]@ == at_level(
                        views(self.levels@),
                        self.made@[i].level,
                    ),
            decreases self.made.len() - index,
        {
            paths.push(copy_level(&self.levels, self.made[index].level));
            index = index + 1;
        }
        paths
    }

    /// Whether the failure is what is said of it.
    pub open spec fn tells(&self, problem: ManagedFailure, failure: Failure) -> bool {
        let levels = views(self.levels@);
        match problem {
            ManagedFailure::NoAncestor => failure.says(
                about("install path has no existing ancestor: "@, at_level(levels, 0)),
            ),
            ManagedFailure::Inspect { level, fault } => failure.blames(
                about("failed to inspect install directory: "@, at_level(levels, level)),
                fault.text@,
            ),
            ManagedFailure::InspectMade { level, fault } => failure.blames(
                about("failed to inspect created install directory: "@, at_level(levels, level)),
                fault.text@,
            ),
            ManagedFailure::Create { level, fault } => failure.blames(
                about("failed to create install directory: "@, at_level(levels, level)),
                fault.text@,
            ),
            ManagedFailure::SetMode { level, fault } => failure.blames(
                about("failed to set install directory permissions: "@, at_level(levels, level)),
                fault.text@,
            ),
            ManagedFailure::NotDirectory { level } => failure.says(
                about("install path must be a non-symlink directory: "@, at_level(levels, level)),
            ),
            ManagedFailure::Unanswered => failure.says("unexpected reply"@),
        }
    }

    /// What came of the creation; nothing while it is under way.
    pub fn outcome(&self) -> (outcome: Option<Result<(), Failure>>)
        ensures
            match self.phase {
                ManagedPhase::Completed => outcome == Some(Ok::<(), Failure>(())),
                ManagedPhase::Failed(problem) => outcome is Some && outcome->0 is Err && self.tells(
                    problem,
                    outcome->0->Err_0,
                ),
                _ => outcome is None,
            },
    {
        match &self.phase {
            ManagedPhase::Completed => Some(Ok(())),
            ManagedPhase::Failed(problem) => {
                let failure = match problem {
                    ManagedFailure::NoAncestor => Failure::at(
                        "install path has no existing ancestor: ",
                        &copy_level(&self.levels, 0),
                    ),
                    ManagedFailure::Inspect { level, fault } => Failure::caused_at(
                        "failed to inspect install directory: ",
                        &copy_level(&self.levels, *level),
                        &fault.text,
                    ),
                    ManagedFailure::InspectMade { level, fault } => Failure::caused_at(
                        "failed to inspect created install directory: ",
                        &copy_level(&self.levels, *level),
                        &fault.text,
                    ),
                    ManagedFailure::Create { level, fault } => Failure::caused_at(
                        "failed to create install directory: ",
                        &copy_level(&self.levels, *level),
                        &fault.text,
                    ),
                    ManagedFailure::SetMode { level, fault } => Failure::caused_at(
                        "failed to set install directory permissions: ",
                        &copy_level(&self.levels, *level),
                        &fault.text,
                    ),
                    ManagedFailure::NotDirectory { level } => Failure::at(
                        "install path must be a non-symlink directory: ",
                        &copy_level(&self.levels, *level),
                    ),
                    ManagedFailure::Unanswered => Failure::plain("unexpected reply"),
                };
                Some(Err(failure))
            },
            _ => None,
        }
    }
}

/// Where the creation stands after it was given these replies.
pub open spec fn managed_after(count: nat, replies: Seq<Reply>) -> (ManagedPhase, Seq<Made>)
    decreases replies.len(),
{
    if replies.len() == 0 {
        (ManagedPhase::Search { level: 0 }, Seq::empty())
    } else {
        let (phase, made) = managed_after(count, replies.drop_last());
        (managed_next(count, made, phase, replies.last()), made_next(made, phase, replies.last()))
    }
}

/// Whether the levels of the created directories go down towards the path, and the
/// phase stays within what exists.
pub open spec fn managed_sound(count: nat, phase: ManagedPhase, made: Seq<Made>) -> bool {
    &&& forall|i: int, j: int| 0 <= i < j < made.len() ==> made[i].level > made[j].level
    &&& forall|i: int| 0 <= i < made.len() ==> (#[trigger] made[i]).level < count
    &&& match phase {
        ManagedPhase::Search { level } => level < count && made.len() == 0,
        ManagedPhase::Make { level } => level < count && (made.len() > 0 ==> level
            < made.last().level),
        ManagedPhase::InspectMade { level } => level < count && (made.len() > 0 ==> level
            < made.last().level),
        ManagedPhase::SetMode { level } => level < count && made.len() > 0 && made.last().level
            == level,
        ManagedPhase::Verify { level } => level < count && (made.len() > 0 ==> level
            < made.last().level),
        ManagedPhase::InspectForRemoval { left, .. } => 0 < left <= made.len(),
        ManagedPhase::Remove { left, .. } => 0 < left <= made.len(),
        _ => true,
    }
}

/// Whatever comes back, directories are created from above downwards, none twice,
/// and only levels of the path are touched.
pub proof fn directories_are_made_downwards(count: nat, replies: Seq<Reply>)
    requires
        0 < count <= usize::MAX,
    ensures
        managed_sound(count, managed_after(count, replies).0, managed_after(count, replies).1),
        managed_after(count, replies).1.len() <= count,
    decreases replies.len(),
{
    if replies.len() > 0 {
        directories_are_made_downwards(count, replies.drop_last());
        let (phase, made) = managed_after(count, replies.drop_last());
        let after = made_next(made, phase, replies.last());
        assert forall|i: int, j: int| 0 <= i < j < after.len() implies after[i].level > after[j].level by {
            if j == made.len() && i < made.len() - 1 {
                assert(made[i].level > made[made.len() - 1].level);
            }
        }
    }
    lemma_levels_bound(count, managed_after(count, replies).1);
}

proof fn lemma_levels_bound(count: nat, made: Seq<Made>)
    requires
        forall|i: int, j: int| 0 <= i < j < made.len() ==> made[i].level > made[j].level,
        forall|i: int| 0 <= i < made.len() ==> (#[trigger] made[i]).level < count,
    ensures
        made.len() <= count,
    decreases made.len(),
{
    if made.len() > 0 {
        let rest = made.drop_first();
        let lower = made[0].level as nat;
        assert forall|i: int| 0 <= i < rest.len() implies (#[trigger] rest[i]).level < lower by {
            assert(rest[i] == made[i + 1]);
        }
        assert forall|i: int, j: int| 0 <= i < j < rest.len() implies rest[i].level > rest[j].level by {
            assert(rest[i] == made[i + 1] && rest[j] == made[j + 1]);
        }
        lemma_levels_bound(lower, rest);
    }
}

/// A directory is removed only after an inspection has found the very directory
/// that was created there, and the latest is removed first.
pub proof fn only_made_directories_are_removed(
    count: nat,
    made: Seq<Made>,
    phase: ManagedPhase,
    reply: Reply,
)
    requires
        !(phase is Remove),
        managed_next(count, made, phase, reply) is Remove,
    ensures
        phase is InspectForRemoval,
        ({
            let left = phase->InspectForRemoval_left;
            &&& 0 < left <= made.len()
            &&& managed_next(count, made, phase, reply)->Remove_left == left
            &&& reply matches Reply::Found(entry) && entry.identity == made[left - 1].identity
        }),
{
}

// --------------------------------------------------
// Chains of directories below a base
// --------------------------------------------------

/// What a chain of directories is for.
#[derive(Clone, Copy, Debug, PartialEq, Eq, Structural)]
pub enum ChainUse {
    /// The directories of a backup below the state directory.
    Backup,
    /// The directories of a restored entry below the home directory.
    Restore,
}

/// How many of the components are names, up to the first that is not.
pub open spec fn leading_names(parts: Seq<Part>) -> nat
    decreases parts.len(),
{
    if parts.len() == 0 {
        0
    } else if parts[0] is Name {
        1 + leading_names(parts.drop_first())
    } else {
        0
    }
}

/// The path below `base` with the first `count` of the components.
pub open spec fn chain_path(base: Seq<u8>, parts: Seq<Part>, count: int) -> Seq<u8>
    decreases count,
{
    if count <= 0 {
        base
    } else {
        joined(chain_path(base, parts, count - 1), part_bytes(parts[count - 1]))
    }
}

/// Why a chain of directories was not created.
#[derive(Debug)]
pub enum ChainFailure {
    /// A request failed.
    Host(Fault),
    /// The base could not be inspected.
    BaseHidden(Fault),
    /// The base is not a directory.
    BaseNotDirectory,
    /// A directory that exists could not be inspected.
    Hidden { at: usize, fault: Fault },
    /// Something else than a directory stands there.
    NotDirectory { at: usize },
    /// A component is not a name.
    NotNormal,
    /// A reply did not answer the request.
    Unanswered,
}

/// How far the creation of a chain has come.
#[derive(Debug)]
pub enum ChainPhase {
    InspectBase,
    Make { at: usize },
    SetMode { at: usize },
    Inspect { at: usize },
    Completed,
    Failed(ChainFailure),
}

/// A chain of directories, each created where it is missing.
#[derive(Debug)]
pub struct DirectoryChain {
    pub purpose: ChainUse,
    pub base: Vec<u8>,
    pub path: Vec<u8>,
    /// The directories below the base, from above downwards.
    pub directories: Vec<Vec<u8>>,
    /// Whether a component follows that is not a name.
    pub broken: bool,
    pub phase: ChainPhase,
}

/// What follows when the directories before this place exist.
pub open spec fn chain_place(count: nat, broken: bool, at: nat) -> ChainPhase {
    if at < count {
        ChainPhase::Make { at: at as usize }
    } else if broken {
        ChainPhase::Failed(ChainFailure::NotNormal)
    } else {
        ChainPhase::Completed
    }
}

/// The phase that follows a reply.
pub open spec fn chain_next(count: nat, broken: bool, phase: ChainPhase, reply: Reply) -> ChainPhase {
    match phase {
        ChainPhase::InspectBase => match reply {
            Reply::Found(entry) => if entry.kind == FileKind::Directory {
                chain_place(count, broken, 0)
            } else {
                ChainPhase::Failed(ChainFailure::BaseNotDirectory)
            },
            Reply::Failed(fault) => ChainPhase::Failed(ChainFailure::BaseHidden(fault)),
            _ => ChainPhase::Failed(ChainFailure::Unanswered),
        },
        ChainPhase::Make { at } => match reply {
            Reply::Done => ChainPhase::SetMode { at },
            Reply::Failed(fault) => if fault.kind == FaultKind::AlreadyExists {
                ChainPhase::Inspect { at }
            } else {
                ChainPhase::Failed(ChainFailure::Host(fault))
            },
            _ => ChainPhase::Failed(ChainFailure::Unanswered),
        },
        ChainPhase::SetMode { at } => match reply {
            Reply::Done => chain_place(count, broken, (at + 1) as nat),
            Reply::Failed(fault) => ChainPhase::Failed(ChainFailure::Host(fault)),
            _ => ChainPhase::Failed(ChainFailure::Unanswered),
        },
        ChainPhase::Inspect { at } => match reply {
            Reply::Found(entry) => if entry.kind == FileKind::Directory {
                chain_place(count, broken, (at + 1) as nat)
            } else {
                ChainPhase::Failed(ChainFailure::NotDirectory { at })
            },
            Reply::Failed(fault) => ChainPhase::Failed(ChainFailure::Hidden { at, fault }),
            _ => ChainPhase::Failed(ChainFailure::Unanswered),
        },
        ChainPhase::Completed => ChainPhase::Completed,
        ChainPhase::Failed(failure) => ChainPhase::Failed(failure),
    }
}

/// The permission bits of the directories of a chain.
pub open spec fn chain_mode(purpose: ChainUse) -> u32 {
    match purpose {
        ChainUse::Backup => BACKUP_DIRECTORY_MODE,
        ChainUse::Restore => INSTALL_DIRECTORY_MODE,
    }
}

/// What a directory of a chain is called.
pub open spec fn chain_label(purpose: ChainUse) -> Seq<char> {
    match purpose {
        ChainUse::Backup => "backup directory"@,
        ChainUse::Restore => "restore parent"@,
    }
}

fn mode_of(purpose: ChainUse) -> (mode: u32)
    ensures
        mode == chain_mode(purpose),
{
    match purpose {
        ChainUse::Backup => BACKUP_DIRECTORY_MODE,
        ChainUse::Restore => INSTALL_DIRECTORY_MODE,
    }
}

fn label_of(purpose: ChainUse) -> (label: String)
    ensures
        label@ == chain_label(purpose),
{
    match purpose {
        ChainUse::Backup => "backup directory".to_owned(),
        ChainUse::Restore => "restore parent".to_owned(),
    }
}

fn next_place(count: usize, broken: bool, done: usize) -> (phase: ChainPhase)
    ensures
        done < usize::MAX ==> phase == chain_place(count as nat, broken, (done + 1) as nat),
        done == usize::MAX ==> phase == chain_place(count as nat, broken, done as nat + 1),
{
    if done < count && done + 1 < count {
        ChainPhase::Make { at: done + 1 }
    } else if broken {
        ChainPhase::Failed(ChainFailure::NotNormal)
    } else {
        ChainPhase::Completed
    }
}

/// Whether the chain leads from the base along the names of the path.
pub open spec fn is_chain(chain: DirectoryChain, base: Seq<u8>, path: Seq<u8>) -> bool {
    let parts = components_of(path).skip(components_of(base).len() as int);
    &&& chain.base@ == base
    &&& chain.path@ == path
    &&& chain.directories@.len() == leading_names(parts)
    &&& forall|i: int|
        0 <= i < chain.directories@.len() ==> #[trigger] chain.directories@[i]@ == chain_path(
            base,
            parts,
            i + 1,
        )
    &&& chain.broken == (leading_names(parts) < parts.len())
}

proof fn lemma_leading_names(parts: Seq<Part>, count: int)
    requires
        0 <= count <= parts.len(),
        forall|i: int| 0 <= i < count ==> #[trigger] parts[i] is Name,
        count < parts.len() ==> !(parts[count] is Name),
    ensures
        leading_names(parts) == count,
    decreases count,
{
    if count > 0 {
        assert(parts[0] is Name);
        let rest = parts.drop_first();
        assert forall|i: int| 0 <= i < count - 1 implies #[trigger] rest[i] is Name by {
            assert(parts[i + 1] is Name);
        }
        lemma_leading_names(rest, count - 1);
    }
}

fn build_chain(purpose: ChainUse, base: &[u8], path: &[u8], first: ChainPhase) -> (chain: Option<
    DirectoryChain,
>)
    ensures
        chain is Some <==> components_of(base@).is_prefix_of(components_of(path@)),
        chain is Some ==> chain->0.purpose == purpose && is_chain(chain->0, base@, path@)
            && chain->0.phase == first,
{
    let rest = match strip_prefix(path, base) {
        None => {
            return None;
        },
        Some(rest) => rest,
    };
    let ghost parts = components_of(path@).skip(components_of(base@).len() as int);
    assert(rest@.len() == part_views(rest@).len());
    let mut directories: Vec<Vec<u8>> = Vec::new();
    let mut current = copy_bytes(base);
    let mut index: usize = 0;
    let mut named = true;
    while index < rest.len() && named
        invariant
            index <= rest.len(),
            rest@.len() == parts.len(),
            part_views(rest@) == parts,
            directories@.len() == index,
            current@ == chain_path(base@, parts, index as int),
            forall|i: int| 0 <= i < index ==> #[trigger] parts[i] is Name,
            forall|i: int|
                0 <= i < directories@.len() ==> #[trigger] directories@[i]@ == chain_path(
                    base@,
                    parts,
                    i + 1,
                ),
            !named ==> index < rest.len() && !(parts[index as int] is Name),
        decreases
            rest.len() - index,
            if named {
                1int
            } else {
                0int
            },
    {
        assert(part_views(rest@)[index as int] == rest@[index as int]@);
        match &rest[index] {
            Component::Name(_) => {
                current = push_component(&current, &rest[index]);
                directories.push(copy_bytes(&current));
                index = index + 1;
            },
            _ => {
                named = false;
            },
        }
    }
    proof {
        lemma_leading_names(parts, index as int);
    }
    let broken = index < rest.len();
    Some(
        DirectoryChain {
            purpose,
            base: copy_bytes(base),
            path: copy_bytes(path),
            directories,
            broken,
            phase: first,
        },
    )
}

impl DirectoryChain {
    /// Whether the directories of a backup are prepared, and nothing was done yet.
    pub open spec fn begins_backup(&self, state_home: Seq<u8>, path: Seq<u8>) -> bool {
        &&& self.purpose == ChainUse::Backup
        &&& is_chain(*self, state_home, path)
        &&& self.phase == chain_place(self.directories@.len(), self.broken, 0)
    }

    /// What follows a reply.
    pub open spec fn follows(&self, reply: Reply, next: DirectoryChain) -> bool {
        &&& next.purpose == self.purpose
        &&& next.base == self.base
        &&& next.path == self.path
        &&& next.directories == self.directories
        &&& next.broken == self.broken
        &&& next.phase == chain_next(self.directories@.len(), self.broken, self.phase, reply)
    }
}

/// Prepares the directories of a backup.
pub fn create_backup_directories(state_home: &[u8], path: &[u8]) -> (result: Result<
    DirectoryChain,
    Failure,
>)
    ensures
        result is Ok <==> components_of(state_home@).is_prefix_of(components_of(path@)),
        result is Ok ==> result->Ok_0.begins_backup(state_home@, path@),
        result is Err ==> result->Err_0.blames(
            about("backup directory must be under state home: "@, path@),
            "prefix not found"@,
        ),
{
    match build_chain(ChainUse::Backup, state_home, path, ChainPhase::InspectBase) {
        None => Err(
            Failure::caused_at(
                "backup directory must be under state home: ",
                path,
                "prefix not found",
            ),
        ),
        Some(chain) => {
            let phase = if chain.directories.len() > 0 {
                ChainPhase::Make { at: 0 }
            } else if chain.broken {
                ChainPhase::Failed(ChainFailure::NotNormal)
            } else {
                ChainPhase::Completed
            };
            Ok(
                DirectoryChain {
                    purpose: chain.purpose,
                    base: chain.base,
                    path: chain.path,
                    directories: chain.directories,
                    broken: chain.broken,
                    phase,
                },
            )
        },
    }
}

/// Prepares the directory of all backups.
pub fn prepare_backup_root(state_home: &[u8]) -> (result: Result<DirectoryChain, Failure>)
    ensures
        result is Ok,
        result->Ok_0.begins_backup(state_home@, under(state_home@, "eiyah/backup/home"@)),
{
    let root = join_text(state_home, "eiyah/backup/home");
    proof {
        reveal_strlit("eiyah/backup/home");
        lemma_ascii_bytes("eiyah/backup/home"@);
        if state_home@.len() == 0 {
            reveal_with_fuel(named_parts, 2);
            assert(split_seq(state_home@, 0x2fu8) =~= seq![Seq::<u8>::empty()]);
            assert(components_of(state_home@) =~= Seq::<Part>::empty());
        } else {
            lemma_join_keeps_base(state_home@, encode_utf8("eiyah/backup/home"@));
        }
    }
    create_backup_directories(state_home, &root)
}

/// Prepares the directories of a restored entry. The home directory is inspected
/// first.
pub fn create_restore_directories(home: &[u8], path: &[u8]) -> (result: Result<
    DirectoryChain,
    Failure,
>)
    ensures
        result is Ok <==> components_of(home@).is_prefix_of(components_of(path@)),
        result is Ok ==> {
            &&& result->Ok_0.purpose == ChainUse::Restore
            &&& is_chain(result->Ok_0, home@, path@)
            &&& result->Ok_0.phase == ChainPhase::InspectBase
        },
        result is Err ==> result->Err_0.blames(
            about("restore parent must be under HOME: "@, path@),
            "prefix not found"@,
        ),
{
    match build_chain(ChainUse::Restore, home, path, ChainPhase::InspectBase) {
        None => Err(
            Failure::caused_at("restore parent must be under HOME: ", path, "prefix not found"),
        ),
        Some(chain) => Ok(chain),
    }
}

impl DirectoryChain {
    /// The request that the creation waits for.
    pub open spec fn asks(&self) -> Ask {
        let directories = views(self.directories@);
        match self.phase {
            ChainPhase::InspectBase => Ask::Inspect(self.base@),
            ChainPhase::Make { at } => Ask::MakeDirectory {
                path: at_level(directories, at),
                mode: chain_mode(self.purpose),
            },
            ChainPhase::SetMode { at } => Ask::SetMode {
                path: at_level(directories, at),
                mode: chain_mode(self.purpose),
            },
            ChainPhase::Inspect { at } => Ask::Inspect(at_level(directories, at)),
            ChainPhase::Completed => Ask::Nothing,
            ChainPhase::Failed(_) => Ask::Nothing,
        }
    }

    /// The request that the creation waits for.
    pub fn request(&self) -> (request: Request)
        ensures
            request@ == self.asks(),
    {
        match &self.phase {
            ChainPhase::InspectBase => Request::Inspect(copy_bytes(&self.base)),
            ChainPhase::Make { at } => Request::MakeDirectory {
                path: copy_level(&self.directories, *at),
                mode: mode_of(self.purpose),
            },
            ChainPhase::SetMode { at } => Request::SetMode {
                path: copy_level(&self.directories, *at),
                mode: mode_of(self.purpose),
            },
            ChainPhase::Inspect { at } => Request::Inspect(copy_level(&self.directories, *at)),
            ChainPhase::Completed => Request::Nothing,
            ChainPhase::Failed(_) => Request::Nothing,
        }
    }

    /// Goes on with the reply to the request.
    pub fn advance(self, reply: Reply) -> (next: DirectoryChain)
        ensures
            self.follows(reply, next),
    {
        let count: usize = self.directories.len();
        let broken = self.broken;
        let phase = match self.phase {
            ChainPhase::InspectBase => match reply {
                Reply::Found(entry) => if entry.kind == FileKind::Directory {
                    if count > 0 {
                        ChainPhase::Make { at: 0 }
                    } else if broken {
                        ChainPhase::Failed(ChainFailure::NotNormal)
                    } else {
                        ChainPhase::Completed
                    }
                } else {
                    ChainPhase::Failed(ChainFailure::BaseNotDirectory)
                },
                Reply::Failed(fault) => ChainPhase::Failed(ChainFailure::BaseHidden(fault)),
                _ => ChainPhase::Failed(ChainFailure::Unanswered),
            },
            ChainPhase::Make { at } => match reply {
                Reply::Done => ChainPhase::SetMode { at },
                Reply::Failed(fault) => if fault.kind == FaultKind::AlreadyExists {
                    ChainPhase::Inspect { at }
                } else {
                    ChainPhase::Failed(ChainFailure::Host(fault))
                },
                _ => ChainPhase::Failed(ChainFailure::Unanswered),
            },
            ChainPhase::SetMode { at } => match reply {
                Reply::Done => next_place(count, broken, at),
                Reply::Failed(fault) => ChainPhase::Failed(ChainFailure::Host(fault)),
                _ => ChainPhase::Failed(ChainFailure::Unanswered),
            },
            ChainPhase::Inspect { at } => match reply {
                Reply::Found(entry) => if entry.kind == FileKind::Directory {
                    next_place(count, broken, at)
                } else {
                    ChainPhase::Failed(ChainFailure::NotDirectory { at })
                },
                Reply::Failed(fault) => ChainPhase::Failed(ChainFailure::Hidden { at, fault }),
                _ => ChainPhase::Failed(ChainFailure::Unanswered),
            },
            ChainPhase::Completed => ChainPhase::Completed,
            ChainPhase::Failed(failure) => ChainPhase::Failed(failure),
        };
        DirectoryChain {
            purpose: self.purpose,
            base: self.base,
            path: self.path,
            directories: self.directories,
            broken,
            phase,
        }
    }

    /// Whether the failure is what is said of it.
    pub open spec fn tells(&self, problem: ChainFailure, failure: Failure) -> bool {
        let directories = views(self.directories@);
        match problem {
            ChainFailure::Host(fault) => failure.says(fault.text@),
            ChainFailure::BaseHidden(fault) => failure.blames(
                about("HOME is unavailable: "@, self.base@),
                fault.text@,
            ),
            ChainFailure::BaseNotDirectory => failure.says(
                about("HOME must be a non-symlink directory: "@, self.base@),
            ),
            ChainFailure::Hidden { at, fault } => failure.blames(
                about(chain_label(self.purpose) + " is unavailable: "@, at_level(directories, at)),
                fault.text@,
            ),
            ChainFailure::NotDirectory { at } => failure.says(
                about(
                    chain_label(self.purpose) + " must be a non-symlink directory: "@,
                    at_level(directories, at),
                ),
            ),
            ChainFailure::NotNormal => match self.purpose {
                ChainUse::Backup => failure.says(
                    about("backup directory has an invalid path: "@, self.path@),
                ),
                ChainUse::Restore => failure.says("restore parent has an invalid component"@),
            },
            ChainFailure::Unanswered => failure.says("unexpected reply"@),
        }
    }

    /// What came of the creation; nothing while it is under way.
    pub fn outcome(&self) -> (outcome: Option<Result<(), Failure>>)
        ensures
            match self.phase {
                ChainPhase::Completed => outcome == Some(Ok::<(), Failure>(())),
                ChainPhase::Failed(problem) => outcome is Some && outcome->0 is Err && self.tells(
                    problem,
                    outcome->0->Err_0,
                ),
                _ => outcome is None,
            },
    {
        match &self.phase {
            ChainPhase::Completed => Some(Ok(())),
            ChainPhase::Failed(problem) => {
                let failure = match problem {
                    ChainFailure::Host(fault) => Failure::plain(&fault.text),
                    ChainFailure::BaseHidden(fault) => Failure::caused_at(
                        "HOME is unavailable: ",
                        &self.base,
                        &fault.text,
                    ),
                    ChainFailure::BaseNotDirectory => Failure::at(
                        "HOME must be a non-symlink directory: ",
                        &self.base,
                    ),
                    ChainFailure::Hidden { at, fault } => {
                        let mut label = label_of(self.purpose);
                        label.append(" is unavailable: ");
                        Failure::caused_at(&label, &copy_level(&self.directories, *at), &fault.text)
                    },
                    ChainFailure::NotDirectory { at } => {
                        let mut label = label_of(self.purpose);
                        label.append(" must be a non-symlink directory: ");
                        Failure::at(&label, &copy_level(&self.directories, *at))
                    },
                    ChainFailure::NotNormal => match self.purpose {
                        ChainUse::Backup => Failure::at(
                            "backup directory has an invalid path: ",
                            &self.path,
                        ),
                        ChainUse::Restore => Failure::plain(
                            "restore parent has an invalid component",
                        ),
                    },
                    ChainFailure::Unanswered => Failure::plain("unexpected reply"),
                };
                Some(Err(failure))
            },
            _ => None,
        }
    }
}

/// A chain is complete only when its last directory was created or found to be a
/// directory, and its permissions are set only where it was created.
pub proof fn chains_end_in_a_directory(count: nat, broken: bool, phase: ChainPhase, reply: Reply)
    ensures
        (!(phase is Completed) && chain_next(count, broken, phase, reply) is Completed) ==> {
            &&& !broken
            &&& match phase {
                ChainPhase::InspectBase => count == 0,
                ChainPhase::SetMode { at } => at + 1 >= count && reply == Reply::Done,
                ChainPhase::Inspect { at } => at + 1 >= count && (reply matches Reply::Found(entry)
                    && entry.kind == FileKind::Directory),
                _ => false,
            }
        },
        (!(phase is SetMode) && chain_next(count, broken, phase, reply) is SetMode) ==> phase is Make
            && reply == Reply::Done,
{
}

/// The directories of a chain are the base with the names of the path, one more each.
pub proof fn a_chain_follows_the_path(base: Seq<u8>, parts: Seq<Part>, count: int)
    requires
        base.len() > 0,
        0 <= count <= parts.len(),
        forall|i: int| 0 <= i < parts.len() ==> #[trigger] parts[i] is Name && follows(parts[i]),
    ensures
        components_of(chain_path(base, parts, count)) == components_of(base) + parts.take(count),
        chain_path(base, parts, count).len() > 0,
    decreases count,
{
    if count > 0 {
        a_chain_follows_the_path(base, parts, count - 1);
        let above = chain_path(base, parts, count - 1);
        let part = parts[count - 1];
        let name = part->Name_0;
        assert(follows(part));
        assert(!absolute(name)) by {
            if absolute(name) {
                assert(name[0] == 0x2f);
                assert(name.contains(0x2f));
            }
        }
        lemma_join_components(above, name);
        lemma_split_single(name, 0x2fu8);
        reveal_with_fuel(named_parts, 3);
        assert(seq![name].drop_last() =~= Seq::<Seq<u8>>::empty());
        assert(named_parts(seq![name]) =~= seq![part]);
        assert(parts.take(count) =~= parts.take(count - 1) + seq![part]);
        assert(components_of(chain_path(base, parts, count)) =~= components_of(base) + parts.take(
            count,
        ));
    } else {
        assert(components_of(base) + parts.take(0) =~= components_of(base));
    }
}

/// A chain goes on exactly where the directory that it is at was created and has its
/// permissions, or is there already as a directory; behind the last one it is complete
/// exactly where every component of the path is a name.
pub proof fn a_chain_goes_on_exactly_if(
    count: nat,
    broken: bool,
    at: usize,
    reply: Reply,
)
    requires
        at < count <= usize::MAX,
    ensures
        ({
            let made = chain_next(count, broken, ChainPhase::Make { at }, reply);
            &&& made is SetMode <==> reply is Done
            &&& made is Inspect <==> reply is Failed && reply->Failed_0.kind
                == FaultKind::AlreadyExists
            &&& made is SetMode ==> made->SetMode_at == at
            &&& made is Inspect ==> made->Inspect_at == at
        }),
        ({
            let set = chain_next(count, broken, ChainPhase::SetMode { at }, reply);
            &&& set is Make <==> reply is Done && at + 1 < count
            &&& set is Make ==> set->Make_at == at + 1
            &&& set is Completed <==> reply is Done && at + 1 == count && !broken
        }),
        ({
            let seen = chain_next(count, broken, ChainPhase::Inspect { at }, reply);
            let stands = reply is Found && reply->Found_0.kind == FileKind::Directory;
            &&& seen is Make <==> stands && at + 1 < count
            &&& seen is Make ==> seen->Make_at == at + 1
            &&& seen is Completed <==> stands && at + 1 == count && !broken
        }),
        ({
            let based = chain_next(count, broken, ChainPhase::InspectBase, reply);
            let stands = reply is Found && reply->Found_0.kind == FileKind::Directory;
            &&& based is Make <==> stands
            &&& based is Make ==> based->Make_at == 0
        }),
{
}

} // verus!
