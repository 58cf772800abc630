//! The removal of directories that are left empty when backups were put back.

use crate::bytes::{copy_bytes, views};
use crate::failure::{about, Failure};
use crate::host::{Ask, FaultKind, FileKind, Reply, Request};
use crate::paths::{join, joined};
use crate::script::unanswered;
use vstd::prelude::*;

verus! {

/// A directory that is being looked through.
#[derive(Debug)]
pub struct Level {
    pub directory: Vec<u8>,
    pub names: Vec<Vec<u8>>,
    /// How many of the names were looked at.
    pub index: usize,
    /// Whether nothing stays in it, as far as is known.
    pub empty: bool,
}

/// A directory that is being looked through.
#[verifier::ext_equal]
pub struct Floor {
    pub directory: Seq<u8>,
    pub names: Seq<Seq<u8>>,
    pub index: int,
    pub empty: bool,
}

impl View for Level {
    type V = Floor;

    open spec fn view(&self) -> Floor {
        Floor {
            directory: self.directory@,
            names: views(self.names@),
            index: self.index as int,
            empty: self.empty,
        }
    }
}

/// The directories that are being looked through, the innermost last.
pub open spec fn floors(levels: Seq<Level>) -> Seq<Floor> {
    levels.map_values(|level: Level| level@)
}

/// How far the removal has come.
#[derive(Debug)]
pub enum ScaffoldPhase {
    /// The outermost directory is looked at.
    Root,
    /// A directory is listed.
    Listing(Vec<u8>),
    /// The next entry of the innermost directory is looked at; where there is none, the
    /// directory is removed.
    Walking,
    Completed,
    Failed(Failure),
}

/// How far the removal has come.
pub enum Stand {
    Root,
    Listing(Seq<u8>),
    Walking,
    Completed,
    Failed(Seq<char>),
}

/// The removal of empty directories.
#[derive(Debug)]
pub struct ScaffoldCleanup {
    pub root: Vec<u8>,
    pub levels: Vec<Level>,
    pub phase: ScaffoldPhase,
}

/// The state of the removal.
#[verifier::ext_equal]
pub struct Scaffold {
    pub root: Seq<u8>,
    pub floors: Seq<Floor>,
    pub stand: Stand,
}

impl View for ScaffoldCleanup {
    type V = Scaffold;

    open spec fn view(&self) -> Scaffold {
        Scaffold {
            root: self.root@,
            floors: floors(self.levels@),
            stand: match self.phase {
                ScaffoldPhase::Root => Stand::Root,
                ScaffoldPhase::Listing(path) => Stand::Listing(path@),
                ScaffoldPhase::Walking => Stand::Walking,
                ScaffoldPhase::Completed => Stand::Completed,
                ScaffoldPhase::Failed(failure) => Stand::Failed(failure.line()),
            },
        }
    }
}

/// Whether every entry of the directory was looked at.
pub open spec fn is_through(floor: Floor) -> bool {
    floor.index >= floor.names.len()
}

/// The directory with its next entry looked at, which may stay in it.
pub open spec fn passed(floor: Floor, stays: bool) -> Floor {
    Floor { index: floor.index + 1, empty: floor.empty && !stays, ..floor }
}

/// The directories with the next entry of the innermost one looked at.
pub open spec fn step_on(floors: Seq<Floor>, stays: bool) -> Seq<Floor> {
    floors.drop_last().push(passed(floors.last(), stays))
}

/// The directories without those innermost ones in which something stays.
pub open spec fn settled(floors: Seq<Floor>) -> Seq<Floor>
    decreases floors.len(),
{
    if floors.len() > 0 && is_through(floors.last()) && !floors.last().empty {
        if floors.len() > 1 {
            settled(floors.drop_last().drop_last().push(keeps(floors[floors.len() - 2])))
        } else {
            Seq::empty()
        }
    } else {
        floors
    }
}

/// The directory, in which something stays.
pub open spec fn keeps(floor: Floor) -> Floor {
    Floor { empty: false, ..floor }
}

impl Scaffold {
    pub open spec fn failed(self, words: Seq<char>) -> Scaffold {
        Scaffold { stand: Stand::Failed(words), ..self }
    }

    /// The removal goes on with these directories.
    pub open spec fn goes_on(self, floors: Seq<Floor>) -> Scaffold {
        let left = settled(floors);
        Scaffold {
            floors: left,
            stand: if left.len() == 0 {
                Stand::Completed
            } else {
                Stand::Walking
            },
            ..self
        }
    }

    pub open spec fn asks(self) -> Ask {
        match self.stand {
            Stand::Root => Ask::Inspect(self.root),
            Stand::Listing(path) => Ask::List(path),
            Stand::Walking => if self.floors.len() == 0 {
                Ask::Nothing
            } else if is_through(self.floors.last()) {
                Ask::RemoveDirectory(self.floors.last().directory)
            } else {
                Ask::Inspect(
                    joined(
                        self.floors.last().directory,
                        self.floors.last().names[self.floors.last().index],
                    ),
                )
            },
            _ => Ask::Nothing,
        }
    }

    /// The removal after a reply. A link ends it; what is not a directory stays, and with
    /// it every directory above.
    pub open spec fn after(self, reply: Reply) -> Scaffold {
        match self.stand {
            Stand::Root => match reply {
                Reply::Failed(fault) => if fault.kind == FaultKind::NotFound {
                    Scaffold { stand: Stand::Completed, ..self }
                } else {
                    self.failed(fault.text@)
                },
                Reply::Found(entry) => if entry.kind == FileKind::Directory {
                    Scaffold { stand: Stand::Listing(self.root), ..self }
                } else {
                    self.failed(about("backup scaffold must be a directory: "@, self.root))
                },
                _ => self.failed(unanswered()),
            },
            Stand::Listing(path) => match reply {
                Reply::Names(names) => self.goes_on(
                    self.floors.push(
                        Floor { directory: path, names: views(names@), index: 0, empty: true },
                    ),
                ),
                Reply::Failed(fault) => self.failed(fault.text@),
                _ => self.failed(unanswered()),
            },
            Stand::Walking => if self.floors.len() == 0 {
                Scaffold { stand: Stand::Completed, ..self }
            } else if is_through(self.floors.last()) {
                match reply {
                    Reply::Done => self.goes_on(self.floors.drop_last()),
                    Reply::Failed(fault) => self.failed(fault.text@),
                    _ => self.failed(unanswered()),
                }
            } else {
                let floor = self.floors.last();
                let path = joined(floor.directory, floor.names[floor.index]);
                match reply {
                    Reply::Found(entry) => if entry.kind == FileKind::Symlink {
                        self.failed(about("backup scaffold contains a symlink: "@, path))
                    } else if entry.kind == FileKind::Directory {
                        Scaffold {
                            floors: step_on(self.floors, false),
                            stand: Stand::Listing(path),
                            ..self
                        }
                    } else {
                        self.goes_on(step_on(self.floors, true))
                    },
                    Reply::Failed(fault) => self.failed(fault.text@),
                    _ => self.failed(unanswered()),
                }
            },
            _ => self,
        }
    }
}

/// Begins to remove the empty directories below a directory, and the directory itself
/// where nothing stays in it.
pub fn cleanup_backup_scaffold(root: &[u8]) -> (cleanup: ScaffoldCleanup)
    ensures
        cleanup@ == (Scaffold { root: root@, floors: Seq::empty(), stand: Stand::Root }),
{
    let cleanup = ScaffoldCleanup {
        root: copy_bytes(root),
        levels: Vec::new(),
        phase: ScaffoldPhase::Root,
    };
    assert(floors(cleanup.levels@) =~= Seq::<Floor>::empty());
    cleanup
}

proof fn lemma_floors_push(levels: Seq<Level>, level: Level)
    ensures
        floors(levels.push(level)) == floors(levels).push(level@),
{
    assert(floors(levels.push(level)) =~= floors(levels).push(level@));
}

proof fn lemma_floors_pop(levels: Seq<Level>)
    requires
        levels.len() > 0,
    ensures
        floors(levels.drop_last()) == floors(levels).drop_last(),
        floors(levels).last() == levels.last()@,
        floors(levels).len() == levels.len(),
{
    assert(floors(levels.drop_last()) =~= floors(levels).drop_last());
}

/// Leaves the directories in which something stays.
fn settle(levels: Vec<Level>) -> (left: Vec<Level>)
    ensures
        floors(left@) == settled(floors(levels@)),
{
    let mut levels = levels;
    let ghost goal = settled(floors(levels@));
    loop
        invariant
            settled(floors(levels@)) == goal,
        ensures
            floors(levels@) == goal,
        decreases levels@.len(),
    {
        let ghost now = floors(levels@);
        let count: usize = levels.len();
        assert(now.len() == levels@.len());
        if count == 0 {
            break;
        }
        let through = levels[count - 1].index >= levels[count - 1].names.len();
        let empty = levels[count - 1].empty;
        assert(now.last() == levels@[count - 1]@);
        assert(through == is_through(now.last()));
        if !through || empty {
            break;
        }
        let ghost before = levels@;
        levels.pop();
        proof {
            lemma_floors_pop(before);
            assert(levels@ =~= before.drop_last());
        }
        match levels.pop() {
            None => {
                assert(floors(levels@) =~= Seq::<Floor>::empty());
            },
            Some(above) => {
                let ghost rest = before.drop_last();
                proof {
                    lemma_floors_pop(rest);
                    assert(levels@ =~= rest.drop_last());
                }
                let above = Level {
                    directory: above.directory,
                    names: above.names,
                    index: above.index,
                    empty: false,
                };
                proof {
                    lemma_floors_push(levels@, above);
                    assert(now[now.len() - 2] == rest.last()@);
                    assert(above@ =~= keeps(now[now.len() - 2]));
                }
                levels.push(above);
            },
        }
    }
    levels
}

impl ScaffoldCleanup {
    /// What has to be done next.
    pub fn request(&self) -> (request: Request)
        ensures
            request@ == self@.asks(),
    {
        match &self.phase {
            ScaffoldPhase::Root => Request::Inspect(copy_bytes(&self.root)),
            ScaffoldPhase::Listing(path) => Request::List(copy_bytes(path)),
            ScaffoldPhase::Walking => {
                if self.levels.len() == 0 {
                    return Request::Nothing;
                }
                proof {
                    lemma_floors_pop(self.levels@);
                }
                let level = &self.levels[self.levels.len() - 1];
                if level.index >= level.names.len() {
                    Request::RemoveDirectory(copy_bytes(&level.directory))
                } else {
                    Request::Inspect(join(&level.directory, &level.names[level.index]))
                }
            },
            ScaffoldPhase::Completed => Request::Nothing,
            ScaffoldPhase::Failed(_) => Request::Nothing,
        }
    }

    /// Goes on with a reply.
    pub fn advance(self, reply: Reply) -> (next: ScaffoldCleanup)
        ensures
            next@ == self@.after(reply),
    {
        let ghost state = self@;
        let ScaffoldCleanup { root, levels, phase } = self;
        match phase {
            ScaffoldPhase::Root => {
                let phase = match reply {
                    Reply::Failed(fault) => if fault.kind == FaultKind::NotFound {
                        ScaffoldPhase::Completed
                    } else {
                        ScaffoldPhase::Failed(Failure::plain(&fault.text))
                    },
                    Reply::Found(entry) => if entry.kind == FileKind::Directory {
                        ScaffoldPhase::Listing(copy_bytes(&root))
                    } else {
                        ScaffoldPhase::Failed(
                            Failure::at("backup scaffold must be a directory: ", &root),
                        )
                    },
                    _ => ScaffoldPhase::Failed(Failure::plain("unexpected reply")),
                };
                ScaffoldCleanup { root, levels, phase }
            },
            ScaffoldPhase::Listing(path) => match reply {
                Reply::Names(names) => {
                    let mut levels = levels;
                    let level = Level { directory: path, names, index: 0, empty: true };
                    proof {
                        lemma_floors_push(levels@, level);
                    }
                    levels.push(level);
                    go_on(root, levels, Ghost(state))
                },
                Reply::Failed(fault) => ScaffoldCleanup {
                    root,
                    levels,
                    phase: ScaffoldPhase::Failed(Failure::plain(&fault.text)),
                },
                _ => ScaffoldCleanup {
                    root,
                    levels,
                    phase: ScaffoldPhase::Failed(Failure::plain("unexpected reply")),
                },
            },
            ScaffoldPhase::Walking => walk(root, levels, reply, Ghost(state)),
            ScaffoldPhase::Completed => ScaffoldCleanup {
                root,
                levels,
                phase: ScaffoldPhase::Completed,
            },
            ScaffoldPhase::Failed(failure) => ScaffoldCleanup {
                root,
                levels,
                phase: ScaffoldPhase::Failed(failure),
            },
        }
    }
}

fn go_on(root: Vec<u8>, levels: Vec<Level>, Ghost(state): Ghost<Scaffold>) -> (next:
    ScaffoldCleanup)
    requires
        state.root == root@,
    ensures
        next@ == state.goes_on(floors(levels@)),
{
    let left = settle(levels);
    assert(floors(left@).len() == left@.len());
    let phase = if left.len() == 0 {
        ScaffoldPhase::Completed
    } else {
        ScaffoldPhase::Walking
    };
    ScaffoldCleanup { root, levels: left, phase }
}

fn walk(root: Vec<u8>, levels: Vec<Level>, reply: Reply, Ghost(state): Ghost<Scaffold>) -> (next:
    ScaffoldCleanup)
    requires
        state == (Scaffold { root: root@, floors: floors(levels@), stand: Stand::Walking }),
    ensures
        next@ == state.after(reply),
{
    let count: usize = levels.len();
    assert(state.floors.len() == levels@.len());
    if count == 0 {
        return ScaffoldCleanup { root, levels, phase: ScaffoldPhase::Completed };
    }
    proof {
        lemma_floors_pop(levels@);
    }
    let through = levels[count - 1].index >= levels[count - 1].names.len();
    match reply {
        Reply::Failed(fault) => {
            let phase = ScaffoldPhase::Failed(Failure::plain(&fault.text));
            ScaffoldCleanup { root, levels, phase }
        },
        Reply::Done => if through {
            let mut levels = levels;
            let ghost before = levels@;
            levels.pop();
            assert(levels@ =~= before.drop_last());
            go_on(root, levels, Ghost(state))
        } else {
            ScaffoldCleanup {
                root,
                levels,
                phase: ScaffoldPhase::Failed(Failure::plain("unexpected reply")),
            }
        },
        Reply::Found(entry) => {
            if through {
                return ScaffoldCleanup {
                    root,
                    levels,
                    phase: ScaffoldPhase::Failed(Failure::plain("unexpected reply")),
                };
            }
            let path = join(
                &levels[count - 1].directory,
                &levels[count - 1].names[levels[count - 1].index],
            );
            if entry.kind == FileKind::Symlink {
                let failure = Failure::at("backup scaffold contains a symlink: ", &path);
                return ScaffoldCleanup { root, levels, phase: ScaffoldPhase::Failed(failure) };
            }
            let stays = entry.kind != FileKind::Directory;
            let mut levels = levels;
            let ghost before = levels@;
            match levels.pop() {
                None => {},
                Some(level) => {
                    assert(levels@ =~= before.drop_last());
                    let moved = Level {
                        directory: level.directory,
                        names: level.names,
                        index: level.index + 1,
                        empty: level.empty && !stays,
                    };
                    proof {
                        lemma_floors_push(levels@, moved);
                        assert(moved@ =~= passed(before.last()@, stays));
                    }
                    levels.push(moved);
                },
            }
            if stays {
                go_on(root, levels, Ghost(state))
            } else {
                ScaffoldCleanup { root, levels, phase: ScaffoldPhase::Listing(path) }
            }
        },
        _ => ScaffoldCleanup {
            root,
            levels,
            phase: ScaffoldPhase::Failed(Failure::plain("unexpected reply")),
        },
    }
}

proof fn lemma_settled_stops(floors: Seq<Floor>)
    ensures
        settled(floors).len() > 0 && is_through(settled(floors).last()) ==> settled(
            floors,
        ).last().empty,
    decreases floors.len(),
{
    if floors.len() > 1 && is_through(floors.last()) && !floors.last().empty {
        lemma_settled_stops(floors.drop_last().drop_last().push(keeps(floors[floors.len() - 2])));
    }
}

/// Nothing but directories is removed, and each only when all of its entries were looked
/// at and none of them stays.
pub proof fn only_empty_directories_are_removed(state: Scaffold, reply: Reply)
    ensures
        state.asks() is Inspect || state.asks() is List || state.asks() is Nothing
            || state.asks() is RemoveDirectory,
        state.after(reply).asks() is RemoveDirectory && state.after(reply) != state ==> {
            let floor = state.after(reply).floors.last();
            &&& is_through(floor)
            &&& floor.empty
            &&& state.after(reply).asks() == Ask::RemoveDirectory(floor.directory)
        },
{
    match state.stand {
        Stand::Listing(path) => match reply {
            Reply::Names(names) => lemma_settled_stops(
                state.floors.push(
                    Floor { directory: path, names: views(names@), index: 0, empty: true },
                ),
            ),
            _ => {},
        },
        Stand::Walking => {
            if state.floors.len() > 0 {
                lemma_settled_stops(state.floors.drop_last());
                lemma_settled_stops(step_on(state.floors, true));
            }
        },
        _ => {},
    }
}

/// A file that is found below stays, and no directory above it is removed.
pub proof fn what_is_found_stays(floors: Seq<Floor>)
    requires
        floors.len() > 0,
        !floors.last().empty,
    ensures
        settled(floors).len() < floors.len() || settled(floors) == floors,
        settled(floors).len() > 0 ==> !settled(floors).last().empty,
    decreases floors.len(),
{
    if floors.len() > 1 && is_through(floors.last()) {
        what_is_found_stays(floors.drop_last().drop_last().push(keeps(floors[floors.len() - 2])));
    }
}

proof fn lemma_settled(floors: Seq<Floor>)
    requires
        floors.len() > 0,
        !floors.last().empty,
    ensures
        settled(floors).len() <= floors.len(),
        settled(floors).len() > 0 ==> {
            let left = settled(floors);
            let top = left.last();
            let former = floors[left.len() - 1];
            &&& !top.empty
            &&& top.index < top.names.len()
            &&& top.directory == former.directory
            &&& top.names == former.names
            &&& top.index == former.index
            &&& left.drop_last() == floors.take(left.len() - 1)
        },
        !is_through(floors.last()) ==> settled(floors) == floors,
    decreases floors.len(),
{
    if is_through(floors.last()) {
        if floors.len() > 1 {
            let below = floors.drop_last().drop_last().push(keeps(floors[floors.len() - 2]));
            lemma_settled(below);
            let left = settled(below);
            if left.len() > 0 {
                assert(below.take(left.len() - 1) =~= floors.take(left.len() - 1));
                if left.len() < below.len() {
                    assert(below[left.len() - 1] == floors[left.len() - 1]);
                }
            }
        }
    } else {
        assert(floors.drop_last() =~= floors.take(floors.len() - 1));
    }
}

/// A file keeps the directory that holds it and every directory above that one: none
/// of them is removed next, the directory that is looked through further is marked as
/// one that stays, and it is looked through from where it was left.
pub proof fn a_file_keeps_the_directories_above_it(state: Scaffold, reply: Reply)
    requires
        state.stand is Walking,
        state.floors.len() > 0,
        state.floors.last().index < state.floors.last().names.len(),
        reply is Found,
        reply->Found_0.kind != FileKind::Symlink,
        reply->Found_0.kind != FileKind::Directory,
    ensures
        ({
            let next = state.after(reply);
            &&& next.stand is Completed || next.stand is Walking
            &&& next.stand is Walking ==> {
                let top = next.floors.last();
                let former = state.floors[next.floors.len() - 1];
                &&& 0 < next.floors.len() <= state.floors.len()
                &&& !top.empty
                &&& top.directory == former.directory && top.names == former.names
                &&& next.floors.len() == state.floors.len() ==> top.index == former.index + 1
                &&& next.floors.len() < state.floors.len() ==> top.index == former.index
                &&& next.asks() == Ask::Inspect(joined(top.directory, top.names[top.index]))
            }
        }),
{
    let walked = step_on(state.floors, true);
    assert(walked.len() == state.floors.len());
    lemma_settled(walked);
    let left = settled(walked);
    if left.len() > 0 && left.len() < walked.len() {
        assert(walked[left.len() - 1] == state.floors[left.len() - 1]);
    }
}

/// A directory without entries is removed, a directory is looked through before the
/// next entry is looked at, and a link ends the work.
pub proof fn an_empty_directory_is_removed(state: Scaffold, reply: Reply)
    ensures
        state.stand is Listing && reply is Names && reply->Names_0@.len() == 0 ==> state.after(
            reply,
        ).asks() == Ask::RemoveDirectory(state.stand->Listing_0),
        state.stand is Listing && reply is Names && reply->Names_0@.len() > 0 ==> state.after(
            reply,
        ).asks() == Ask::Inspect(joined(state.stand->Listing_0, reply->Names_0@[0]@)),
        state.stand is Walking && state.floors.len() > 0 && state.floors.last().index
            < state.floors.last().names.len() && reply is Found && reply->Found_0.kind
            == FileKind::Directory ==> state.after(reply).asks() == Ask::List(
            joined(
                state.floors.last().directory,
                state.floors.last().names[state.floors.last().index],
            ),
        ) && state.after(reply).floors.len() == state.floors.len() && state.after(
            reply,
        ).floors.last().empty == state.floors.last().empty,
        state.stand is Walking && state.floors.len() > 0 && state.floors.last().index
            < state.floors.last().names.len() && reply is Found && reply->Found_0.kind
            == FileKind::Symlink ==> state.after(reply).stand is Failed,
{
    if state.stand is Listing && reply is Names {
        let pushed = state.floors.push(
            Floor {
                directory: state.stand->Listing_0,
                names: views(reply->Names_0@),
                index: 0,
                empty: true,
            },
        );
        assert(settled(pushed) == pushed);
        assert(pushed.last().names.len() == reply->Names_0@.len());
    }
}

/// Once a directory was removed the one above it goes on: it is removed too where all
/// of its entries were looked at and none stays, and otherwise its next entry is looked
/// at.
pub proof fn a_removed_directory_leaves_the_one_above(state: Scaffold, reply: Reply)
    requires
        state.stand is Walking,
        state.floors.len() > 1,
        state.floors.last().index >= state.floors.last().names.len(),
        reply is Done,
    ensures
        ({
            let above = state.floors[state.floors.len() - 2];
            let next = state.after(reply);
            &&& above.index >= above.names.len() && above.empty ==> next.asks()
                == Ask::RemoveDirectory(above.directory)
            &&& above.index < above.names.len() ==> next.asks() == Ask::Inspect(
                joined(above.directory, above.names[above.index]),
            ) && next.floors.last() == above
        }),
{
    let left = state.floors.drop_last();
    let above = state.floors[state.floors.len() - 2];
    assert(left.last() == above);
    if above.index < above.names.len() || above.empty {
        assert(settled(left) == left);
    }
}

/// The work begins with the directory itself: where it is not there nothing is done,
/// and something else than a directory is refused.
pub proof fn only_a_directory_is_looked_through(state: Scaffold, reply: Reply)
    requires
        state.stand is Root,
    ensures
        state.asks() == Ask::Inspect(state.root),
        state.after(reply).stand == Stand::Listing(state.root) <==> reply is Found
            && reply->Found_0.kind == FileKind::Directory,
        state.after(reply).stand is Completed <==> reply is Failed && reply->Failed_0.kind
            == FaultKind::NotFound,
{
}

} // verus!
