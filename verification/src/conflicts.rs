//! The search for conflicts as a whole: what it has found when it is complete.
//!
//! A fixed disk answers every question of the search. The entries that a package
//! holds are named by trails: the names that lead from the package to the entry.

use crate::bytes::{bytes_at_most, views};
use crate::host::{Ask, FaultKind, FileKind, Reply};
use crate::paths::{components_of, joined, lemma_join_keeps_base};
use crate::stow::{conflicts_lie_in_the_home, fresh_search, has_path, leads_to_source};
use crate::stow::{package_errands, paths_ascend, paths_stay_in_order, search_is_sound, visits};
use crate::stow::{with_path, Errand, PackagePhase, PackageScan, Search, Stage};
use vstd::prelude::*;

verus! {

/// What stands on a disk: the kind of each entry, the names in each directory that
/// can be listed, and the text of each link that can be read.
pub struct Disk {
    pub kinds: Map<Seq<u8>, FileKind>,
    pub names: Map<Seq<u8>, Seq<Seq<u8>>>,
    pub links: Map<Seq<u8>, Seq<u8>>,
}

/// Whether a reply tells what stands on the disk. A question may also fail; that
/// nothing is found is said only of what is not there.
pub open spec fn is_told(disk: Disk, ask: Ask, reply: Reply) -> bool {
    match (ask, reply) {
        (Ask::List(path), Reply::Names(names)) => disk.names.dom().contains(path)
            && disk.names[path] == views(names@),
        (Ask::Inspect(path), Reply::Found(entry)) => disk.kinds.dom().contains(path)
            && disk.kinds[path] == entry.kind,
        (Ask::Inspect(path), Reply::Failed(fault)) => fault.kind == FaultKind::NotFound
            ==> !disk.kinds.dom().contains(path),
        (Ask::ReadLink(path), Reply::Contents(link)) => disk.links.dom().contains(path)
            && disk.links[path] == link@,
        _ => true,
    }
}

/// Whether these are the states of a search for conflicts of these packages, each of
/// which follows from the one before and a reply that tells what stands on the disk.
pub open spec fn is_search(
    disk: Disk,
    dotfiles: Seq<u8>,
    home: Seq<u8>,
    packages: Seq<Seq<u8>>,
    states: Seq<Search>,
    replies: Seq<Reply>,
) -> bool {
    &&& states.len() == replies.len() + 1
    &&& states[0] == fresh_search(dotfiles, home, packages)
    &&& forall|i: int|
        0 <= i < replies.len() ==> is_told(disk, states[i].asks(), #[trigger] replies[i]) && states[i
            + 1] == states[i].after(replies[i])
}

/// Where a trail leads from a directory.
pub open spec fn place(base: Seq<u8>, trail: Seq<Seq<u8>>) -> Seq<u8>
    decreases trail.len(),
{
    if trail.len() == 0 {
        base
    } else {
        joined(place(base, trail.drop_last()), trail.last())
    }
}

/// Whether a directory stands there.
pub open spec fn is_directory(disk: Disk, path: Seq<u8>) -> bool {
    disk.kinds.dom().contains(path) && disk.kinds[path] == FileKind::Directory
}

/// Whether a package holds an entry at the trail and every directory above the entry
/// is a directory in the home too.
pub open spec fn reaches(disk: Disk, package: Seq<u8>, home: Seq<u8>, trail: Seq<Seq<u8>>) -> bool {
    &&& forall|k: int|
        #![trigger trail.take(k)]
        0 <= k < trail.len() ==> disk.names.dom().contains(place(package, trail.take(k)))
            && disk.names[place(package, trail.take(k))].contains(trail[k])
    &&& forall|k: int|
        #![trigger trail.take(k)]
        0 < k < trail.len() ==> is_directory(disk, place(package, trail.take(k))) && is_directory(
            disk,
            place(home, trail.take(k)),
        )
}

/// Whether what stands at `target` keeps `source` from being linked there: something
/// stands there that is neither a directory for a directory nor a link to the source.
pub open spec fn is_in_the_way(disk: Disk, source: Seq<u8>, target: Seq<u8>) -> bool {
    &&& disk.kinds.dom().contains(target)
    &&& if is_directory(disk, source) {
        disk.kinds[target] != FileKind::Directory
    } else {
        !(disk.kinds[target] == FileKind::Symlink && disk.links.dom().contains(target)
            && leads_to_source(target, disk.links[target], source))
    }
}

// --------------------------------------------------
// What is still to be looked at
// --------------------------------------------------

/// Whether something is still to be looked at.
spec fn has_errand(search: Search, errand: Errand) -> bool {
    search.pending.contains(errand) || match search.stage {
        Stage::Listing { source, target } => errand == (Errand::List { source, target }),
        Stage::Source { source, target } => errand == (Errand::Visit { source, target }),
        Stage::Target { source, target, .. } => errand == (Errand::Visit { source, target }),
        Stage::Linking { source, target } => errand == (Errand::Visit { source, target }),
        _ => false,
    }
}

/// Whether the search will come to the trail by what is to be looked at after its
/// first `count` names.
spec fn covers_at(
    search: Search,
    package: Seq<u8>,
    home: Seq<u8>,
    trail: Seq<Seq<u8>>,
    count: int,
) -> bool {
    let source = place(package, trail.take(count));
    let target = place(home, trail.take(count));
    ||| 0 <= count < trail.len() && has_errand(search, Errand::List { source, target })
    ||| 0 < count <= trail.len() && has_errand(search, Errand::Visit { source, target })
}

spec fn accounts_for(
    disk: Disk,
    search: Search,
    package: Seq<u8>,
    home: Seq<u8>,
    trail: Seq<Seq<u8>>,
) -> bool {
    ||| exists|count: int| #[trigger] covers_at(search, package, home, trail, count)
    ||| !is_in_the_way(disk, place(package, trail), place(home, trail))
    ||| has_path(search.conflicts, place(home, trail))
}

/// Whether an errand is about the entry, or the directory, at this trail.
spec fn is_about(
    disk: Disk,
    dotfiles: Seq<u8>,
    home: Seq<u8>,
    packages: Seq<Seq<u8>>,
    errand: Errand,
    package: int,
    trail: Seq<Seq<u8>>,
) -> bool {
    &&& 0 <= package < packages.len()
    &&& reaches(disk, joined(dotfiles, packages[package]), home, trail)
    &&& match errand {
        Errand::List { source, target } => {
            &&& source == place(joined(dotfiles, packages[package]), trail)
            &&& target == place(home, trail)
            &&& trail.len() > 0 ==> is_directory(disk, source) && is_directory(disk, target)
        },
        Errand::Visit { source, target } => {
            &&& source == place(joined(dotfiles, packages[package]), trail)
            &&& target == place(home, trail)
            &&& trail.len() > 0
        },
    }
}

/// Whether a path is that of an entry of a package that stands in the way.
pub open spec fn is_fair(
    disk: Disk,
    dotfiles: Seq<u8>,
    home: Seq<u8>,
    packages: Seq<Seq<u8>>,
    conflict: Seq<u8>,
) -> bool {
    exists|package: int, trail: Seq<Seq<u8>>| #[trigger]
        is_found(disk, dotfiles, home, packages, conflict, package, trail)
}

/// Whether the path is that of the entry at this trail, which stands in the way.
pub open spec fn is_found(
    disk: Disk,
    dotfiles: Seq<u8>,
    home: Seq<u8>,
    packages: Seq<Seq<u8>>,
    conflict: Seq<u8>,
    package: int,
    trail: Seq<Seq<u8>>,
) -> bool {
    &&& 0 <= package < packages.len()
    &&& trail.len() > 0
    &&& reaches(disk, joined(dotfiles, packages[package]), home, trail)
    &&& is_in_the_way(disk, place(joined(dotfiles, packages[package]), trail), place(home, trail))
    &&& components_of(conflict) == components_of(place(home, trail))
}

/// What holds of a search that has not failed.
spec fn is_kept(
    disk: Disk,
    dotfiles: Seq<u8>,
    home: Seq<u8>,
    packages: Seq<Seq<u8>>,
    search: Search,
) -> bool {
    &&& search_is_sound(search)
    &&& forall|package: int, trail: Seq<Seq<u8>>|
        0 <= package < packages.len() && trail.len() > 0 && #[trigger] reaches(
            disk,
            joined(dotfiles, packages[package]),
            home,
            trail,
        ) ==> accounts_for(disk, search, joined(dotfiles, packages[package]), home, trail)
    &&& forall|errand: Errand| #[trigger]
        has_errand(search, errand) ==> exists|package: int, trail: Seq<Seq<u8>>| #[trigger]
            is_about(disk, dotfiles, home, packages, errand, package, trail)
    &&& forall|i: int|
        0 <= i < search.conflicts.len() ==> is_fair(
            disk,
            dotfiles,
            home,
            packages,
            #[trigger] search.conflicts[i],
        )
    &&& match search.stage {
        Stage::Target { source, kind, .. } => disk.kinds.dom().contains(source)
            && disk.kinds[source] == kind,
        Stage::Linking { source, target } => !is_directory(disk, source)
            && disk.kinds.dom().contains(target) && disk.kinds[target] == FileKind::Symlink,
        _ => true,
    }
}

spec fn put_down(search: Search) -> Search {
    Search { stage: Stage::Completed, ..search }
}

/// A search that goes on keeps what holds of it.
proof fn lemma_resumes(
    disk: Disk,
    dotfiles: Seq<u8>,
    home: Seq<u8>,
    packages: Seq<Seq<u8>>,
    search: Search,
)
    requires
        is_kept(disk, dotfiles, home, packages, put_down(search)),
        !(search.resumed().stage is Failed),
    ensures
        is_kept(disk, dotfiles, home, packages, search.resumed()),
{
    let before = put_down(search);
    let after = search.resumed();
    assert forall|errand: Errand| #[trigger] has_errand(after, errand) == has_errand(before, errand) by {
        if search.pending.len() > 0 {
            let rest = search.pending.drop_last();
            let last = search.pending.last();
            assert(search.pending =~= rest.push(last));
            if rest.contains(errand) {
                let i = choose|i: int| 0 <= i < rest.len() && rest[i] == errand;
                assert(search.pending[i] == errand);
            }
            if search.pending.contains(errand) && errand != last {
                let i = choose|i: int| 0 <= i < search.pending.len() && search.pending[i] == errand;
                assert(rest[i] == errand);
            }
            assert(search.pending[search.pending.len() - 1] == last);
        }
    }
    assert forall|package: int, trail: Seq<Seq<u8>>|
        0 <= package < packages.len() && trail.len() > 0 && #[trigger] reaches(
            disk,
            joined(dotfiles, packages[package]),
            home,
            trail,
        ) implies accounts_for(disk, after, joined(dotfiles, packages[package]), home, trail) by {
        let source = joined(dotfiles, packages[package]);
        assert(accounts_for(disk, before, source, home, trail));
        if exists|count: int| #[trigger] covers_at(before, source, home, trail, count) {
            let count = choose|count: int| #[trigger] covers_at(before, source, home, trail, count);
            assert(covers_at(after, source, home, trail, count));
        }
    }
}

proof fn lemma_place_push(base: Seq<u8>, trail: Seq<Seq<u8>>, name: Seq<u8>)
    ensures
        place(base, trail.push(name)) == joined(place(base, trail), name),
{
    assert(trail.push(name).drop_last() =~= trail);
}

proof fn lemma_place_take(base: Seq<u8>, trail: Seq<Seq<u8>>, count: int)
    requires
        0 <= count < trail.len(),
    ensures
        place(base, trail.take(count + 1)) == joined(place(base, trail.take(count)), trail[count]),
{
    assert(trail.take(count + 1) =~= trail.take(count).push(trail[count]));
    lemma_place_push(base, trail.take(count), trail[count]);
}

/// The entries of a listed directory are reached.
proof fn lemma_reaches_push(
    disk: Disk,
    package: Seq<u8>,
    home: Seq<u8>,
    trail: Seq<Seq<u8>>,
    name: Seq<u8>,
)
    requires
        reaches(disk, package, home, trail),
        trail.len() > 0 ==> is_directory(disk, place(package, trail)) && is_directory(
            disk,
            place(home, trail),
        ),
        disk.names.dom().contains(place(package, trail)),
        disk.names[place(package, trail)].contains(name),
    ensures
        reaches(disk, package, home, trail.push(name)),
{
    let longer = trail.push(name);
    assert forall|k: int|
        #![trigger longer.take(k)]
        0 <= k < longer.len() implies disk.names.dom().contains(place(package, longer.take(k)))
        && disk.names[place(package, longer.take(k))].contains(longer[k]) by {
        assert(longer.take(k) =~= trail.take(k));
        if k < trail.len() {
            assert(longer[k] == trail[k]);
        } else {
            assert(trail.take(k) =~= trail);
        }
    }
    assert forall|k: int|
        #![trigger longer.take(k)]
        0 < k < longer.len() implies is_directory(disk, place(package, longer.take(k)))
        && is_directory(disk, place(home, longer.take(k))) by {
        assert(longer.take(k) =~= trail.take(k));
        if k == trail.len() {
            assert(trail.take(k) =~= trail);
        } else {
            assert(is_directory(disk, place(package, trail.take(k))));
        }
    }
    assert(reaches(disk, package, home, longer));
}

/// The entries of a directory are what its names call for.
proof fn lemma_visits(source: Seq<u8>, target: Seq<u8>, names: Seq<Seq<u8>>)
    ensures
        forall|name: Seq<u8>|
            names.contains(name) ==> #[trigger] visits(source, target, names).contains(
                (Errand::Visit { source: joined(source, name), target: joined(target, name) }),
            ),
        forall|errand: Errand| #[trigger]
            visits(source, target, names).contains(errand) ==> exists|name: Seq<u8>|
                names.contains(name) && errand == (Errand::Visit {
                    source: joined(source, name),
                    target: #[trigger] joined(target, name),
                }),
    decreases names.len(),
{
    let all = visits(source, target, names);
    if names.len() > 0 {
        let rest = names.drop_first();
        let others = visits(source, target, rest);
        let first = Errand::Visit {
            source: joined(source, names[0]),
            target: joined(target, names[0]),
        };
        lemma_visits(source, target, rest);
        assert(all == others.push(first));
        assert forall|name: Seq<u8>| names.contains(name) implies #[trigger] all.contains(
            (Errand::Visit { source: joined(source, name), target: joined(target, name) }),
        ) by {
            let errand = Errand::Visit {
                source: joined(source, name),
                target: joined(target, name),
            };
            let i = choose|i: int| 0 <= i < names.len() && names[i] == name;
            if i == 0 {
                assert(all[others.len() as int] == errand);
            } else {
                assert(rest[i - 1] == name);
                assert(rest.contains(name));
                assert(others.contains(errand));
                let k = choose|k: int| 0 <= k < others.len() && others[k] == errand;
                assert(all[k] == errand);
            }
        }
        assert forall|errand: Errand| #[trigger] all.contains(errand) implies exists|name: Seq<u8>|
            names.contains(name) && errand == (Errand::Visit {
                source: joined(source, name),
                target: #[trigger] joined(target, name),
            }) by {
            let i = choose|i: int| 0 <= i < all.len() && all[i] == errand;
            if i == others.len() {
                assert(names.contains(names[0]));
                assert(errand == (Errand::Visit {
                    source: joined(source, names[0]),
                    target: joined(target, names[0]),
                }));
            } else {
                assert(others[i] == errand);
                assert(others.contains(errand));
                let name = choose|name: Seq<u8>|
                    rest.contains(name) && errand == (Errand::Visit {
                        source: joined(source, name),
                        target: #[trigger] joined(target, name),
                    });
                let k = choose|k: int| 0 <= k < rest.len() && rest[k] == name;
                assert(names[k + 1] == name);
            }
        }
    }
}

proof fn lemma_packages(dotfiles: Seq<u8>, home: Seq<u8>, packages: Seq<Seq<u8>>)
    ensures
        forall|package: int|
            0 <= package < packages.len() ==> package_errands(dotfiles, home, packages).contains(
                (Errand::List { source: joined(dotfiles, #[trigger] packages[package]), target: home }),
            ),
        forall|errand: Errand| #[trigger]
            package_errands(dotfiles, home, packages).contains(errand) ==> exists|package: int|
                0 <= package < packages.len() && errand == (Errand::List {
                    source: joined(dotfiles, #[trigger] packages[package]),
                    target: home,
                }),
    decreases packages.len(),
{
    let all = package_errands(dotfiles, home, packages);
    if packages.len() > 0 {
        let rest = packages.drop_first();
        let others = package_errands(dotfiles, home, rest);
        lemma_packages(dotfiles, home, rest);
        let first = Errand::List { source: joined(dotfiles, packages[0]), target: home };
        assert(all == others.push(first));
        assert forall|package: int| 0 <= package < packages.len() implies all.contains(
            (Errand::List { source: joined(dotfiles, #[trigger] packages[package]), target: home }),
        ) by {
            let errand = Errand::List {
                source: joined(dotfiles, packages[package]),
                target: home,
            };
            if package == 0 {
                assert(all[others.len() as int] == errand);
            } else {
                assert(rest[package - 1] == packages[package]);
                assert(others.contains(errand));
                let k = choose|k: int| 0 <= k < others.len() && others[k] == errand;
                assert(all[k] == errand);
            }
        }
        assert forall|errand: Errand| #[trigger] all.contains(errand) implies exists|package: int|
            0 <= package < packages.len() && errand == (Errand::List {
                source: joined(dotfiles, #[trigger] packages[package]),
                target: home,
            }) by {
            let i = choose|i: int| 0 <= i < all.len() && all[i] == errand;
            if i == others.len() {
                assert(errand == (Errand::List {
                    source: joined(dotfiles, packages[0]),
                    target: home,
                }));
            } else {
                assert(others[i] == errand);
                assert(others.contains(errand));
                let k = choose|k: int|
                    0 <= k < rest.len() && errand == (Errand::List {
                        source: joined(dotfiles, #[trigger] rest[k]),
                        target: home,
                    });
                assert(packages[k + 1] == rest[k]);
            }
        }
    }
}

// --------------------------------------------------
// Each step
// --------------------------------------------------

proof fn lemma_begins(disk: Disk, dotfiles: Seq<u8>, home: Seq<u8>, packages: Seq<Seq<u8>>)
    requires
        !(fresh_search(dotfiles, home, packages).stage is Failed),
    ensures
        is_kept(disk, dotfiles, home, packages, fresh_search(dotfiles, home, packages)),
{
    let search = Search {
        home,
        pending: package_errands(dotfiles, home, packages),
        conflicts: Seq::empty(),
        stage: Stage::Completed,
    };
    lemma_packages(dotfiles, home, packages);
    let none = Seq::<Seq<u8>>::empty();
    assert forall|package: int, trail: Seq<Seq<u8>>|
        0 <= package < packages.len() && trail.len() > 0 && #[trigger] reaches(
            disk,
            joined(dotfiles, packages[package]),
            home,
            trail,
        ) implies accounts_for(disk, search, joined(dotfiles, packages[package]), home, trail) by {
        let source = joined(dotfiles, packages[package]);
        assert(trail.take(0) =~= none);
        assert(place(source, trail.take(0)) == source && place(home, trail.take(0)) == home);
        assert(has_errand(search, Errand::List { source, target: home }));
        assert(covers_at(search, source, home, trail, 0));
    }
    assert forall|errand: Errand| #[trigger] has_errand(search, errand) implies exists|
        package: int,
        trail: Seq<Seq<u8>>,
    | #[trigger] is_about(disk, dotfiles, home, packages, errand, package, trail) by {
        let package = choose|package: int|
            0 <= package < packages.len() && errand == (Errand::List {
                source: joined(dotfiles, #[trigger] packages[package]),
                target: home,
            });
        assert(is_about(disk, dotfiles, home, packages, errand, package, none));
    }
    lemma_resumes(disk, dotfiles, home, packages, search);
}

/// The names of a listed directory are all to be looked at.
proof fn lemma_lists(
    disk: Disk,
    dotfiles: Seq<u8>,
    home: Seq<u8>,
    packages: Seq<Seq<u8>>,
    search: Search,
    names: Seq<Seq<u8>>,
)
    requires
        is_kept(disk, dotfiles, home, packages, search),
        search.stage is Listing,
        disk.names.dom().contains(search.stage->Listing_source),
        disk.names[search.stage->Listing_source] == names,
    ensures
        is_kept(
            disk,
            dotfiles,
            home,
            packages,
            Search {
                pending: search.pending + visits(
                    search.stage->Listing_source,
                    search.stage->Listing_target,
                    names,
                ),
                stage: Stage::Completed,
                ..search
            },
        ),
{
    let source = search.stage->Listing_source;
    let target = search.stage->Listing_target;
    let added = visits(source, target, names);
    let next = Search {
        pending: search.pending + added,
        stage: Stage::Completed,
        ..search
    };
    lemma_visits(source, target, names);
    let listed = Errand::List { source, target };
    assert(has_errand(search, listed));
    assert forall|errand: Errand|
        search.pending.contains(errand) || added.contains(errand) implies #[trigger] has_errand(
        next,
        errand,
    ) by {
        if search.pending.contains(errand) {
            let i = choose|i: int| 0 <= i < search.pending.len() && search.pending[i] == errand;
            assert(next.pending[i] == errand);
        } else {
            let i = choose|i: int| 0 <= i < added.len() && added[i] == errand;
            assert(next.pending[search.pending.len() + i] == errand);
        }
    }
    assert forall|package: int, trail: Seq<Seq<u8>>|
        0 <= package < packages.len() && trail.len() > 0 && #[trigger] reaches(
            disk,
            joined(dotfiles, packages[package]),
            home,
            trail,
        ) implies accounts_for(disk, next, joined(dotfiles, packages[package]), home, trail) by {
        let base = joined(dotfiles, packages[package]);
        assert(accounts_for(disk, search, base, home, trail));
        if exists|count: int| #[trigger] covers_at(search, base, home, trail, count) {
            let count = choose|count: int| #[trigger] covers_at(search, base, home, trail, count);
            let from = place(base, trail.take(count));
            let to = place(home, trail.take(count));
            let list = Errand::List { source: from, target: to };
            let visit = Errand::Visit { source: from, target: to };
            if 0 < count <= trail.len() && has_errand(search, visit) {
                assert(search.pending.contains(visit));
                assert(has_errand(next, visit));
                assert(covers_at(next, base, home, trail, count));
            } else if search.pending.contains(list) {
                assert(has_errand(next, list));
                assert(covers_at(next, base, home, trail, count));
            } else {
                assert(list == listed);
                assert(names.contains(trail[count]));
                lemma_place_take(base, trail, count);
                lemma_place_take(home, trail, count);
                let entry = Errand::Visit {
                    source: joined(source, trail[count]),
                    target: joined(target, trail[count]),
                };
                assert(added.contains(entry));
                assert(has_errand(next, entry));
                assert(covers_at(next, base, home, trail, count + 1));
            }
        }
    }
    assert forall|errand: Errand| #[trigger] has_errand(next, errand) implies exists|
        package: int,
        trail: Seq<Seq<u8>>,
    | #[trigger] is_about(disk, dotfiles, home, packages, errand, package, trail) by {
        let i = choose|i: int| 0 <= i < next.pending.len() && next.pending[i] == errand;
        if i < search.pending.len() {
            assert(search.pending[i] == errand);
            assert(has_errand(search, errand));
        } else {
            assert(added[i - search.pending.len()] == errand);
            assert(added.contains(errand));
            let name = choose|name: Seq<u8>|
                names.contains(name) && errand == (Errand::Visit {
                    source: joined(source, name),
                    target: #[trigger] joined(target, name),
                });
            let (package, trail) = choose|package: int, trail: Seq<Seq<u8>>| #[trigger]
                is_about(disk, dotfiles, home, packages, listed, package, trail);
            let base = joined(dotfiles, packages[package]);
            lemma_reaches_push(disk, base, home, trail, name);
            lemma_place_push(base, trail, name);
            lemma_place_push(home, trail, name);
            assert(is_about(disk, dotfiles, home, packages, errand, package, trail.push(name)));
        }
    }
}

/// What is looked at stays to be looked at while nothing is decided.
proof fn lemma_looks(
    disk: Disk,
    dotfiles: Seq<u8>,
    home: Seq<u8>,
    packages: Seq<Seq<u8>>,
    search: Search,
    next: Search,
)
    requires
        is_kept(disk, dotfiles, home, packages, search),
        next.home == search.home,
        next.pending == search.pending,
        next.conflicts == search.conflicts,
        search_is_sound(next),
        forall|errand: Errand| #[trigger] has_errand(next, errand) == has_errand(search, errand),
        match next.stage {
            Stage::Target { source, kind, .. } => disk.kinds.dom().contains(source)
                && disk.kinds[source] == kind,
            Stage::Linking { source, target } => !is_directory(disk, source)
                && disk.kinds.dom().contains(target) && disk.kinds[target] == FileKind::Symlink,
            _ => true,
        },
    ensures
        is_kept(disk, dotfiles, home, packages, next),
{
    assert forall|package: int, trail: Seq<Seq<u8>>|
        0 <= package < packages.len() && trail.len() > 0 && #[trigger] reaches(
            disk,
            joined(dotfiles, packages[package]),
            home,
            trail,
        ) implies accounts_for(disk, next, joined(dotfiles, packages[package]), home, trail) by {
        let base = joined(dotfiles, packages[package]);
        assert(accounts_for(disk, search, base, home, trail));
        if exists|count: int| #[trigger] covers_at(search, base, home, trail, count) {
            let count = choose|count: int| #[trigger] covers_at(search, base, home, trail, count);
            assert(covers_at(next, base, home, trail, count));
        }
    }
}

/// A directory that stands in the place of a directory is listed.
proof fn lemma_descends(
    disk: Disk,
    dotfiles: Seq<u8>,
    home: Seq<u8>,
    packages: Seq<Seq<u8>>,
    search: Search,
)
    requires
        is_kept(disk, dotfiles, home, packages, search),
        search.stage is Target,
        search.stage->kind == FileKind::Directory,
        is_directory(disk, search.stage->Target_target),
    ensures
        is_kept(
            disk,
            dotfiles,
            home,
            packages,
            Search {
                stage: Stage::Listing {
                    source: search.stage->Target_source,
                    target: search.stage->Target_target,
                },
                ..search
            },
        ),
{
    let source = search.stage->Target_source;
    let target = search.stage->Target_target;
    let next = Search { stage: Stage::Listing { source, target }, ..search };
    let seen = Errand::Visit { source, target };
    let list = Errand::List { source, target };
    assert(has_errand(search, seen));
    assert forall|package: int, trail: Seq<Seq<u8>>|
        0 <= package < packages.len() && trail.len() > 0 && #[trigger] reaches(
            disk,
            joined(dotfiles, packages[package]),
            home,
            trail,
        ) implies accounts_for(disk, next, joined(dotfiles, packages[package]), home, trail) by {
        let base = joined(dotfiles, packages[package]);
        assert(accounts_for(disk, search, base, home, trail));
        if exists|count: int| #[trigger] covers_at(search, base, home, trail, count) {
            let count = choose|count: int| #[trigger] covers_at(search, base, home, trail, count);
            let from = place(base, trail.take(count));
            let to = place(home, trail.take(count));
            let other = Errand::List { source: from, target: to };
            let visit = Errand::Visit { source: from, target: to };
            if 0 <= count < trail.len() && has_errand(search, other) {
                assert(has_errand(next, other));
                assert(covers_at(next, base, home, trail, count));
            } else if search.pending.contains(visit) {
                assert(has_errand(next, visit));
                assert(covers_at(next, base, home, trail, count));
            } else {
                assert(visit == seen);
                if count < trail.len() {
                    assert(has_errand(next, list));
                    assert(covers_at(next, base, home, trail, count));
                } else {
                    assert(trail.take(count) =~= trail);
                    assert(!is_in_the_way(disk, place(base, trail), place(home, trail)));
                }
            }
        }
    }
    assert forall|errand: Errand| #[trigger] has_errand(next, errand) implies exists|
        package: int,
        trail: Seq<Seq<u8>>,
    | #[trigger] is_about(disk, dotfiles, home, packages, errand, package, trail) by {
        if search.pending.contains(errand) {
            assert(has_errand(search, errand));
        } else {
            let (package, trail) = choose|package: int, trail: Seq<Seq<u8>>| #[trigger]
                is_about(disk, dotfiles, home, packages, seen, package, trail);
            assert(is_about(disk, dotfiles, home, packages, errand, package, trail));
        }
    }
}

/// What a look decides is put down: as a conflict where something stands in the way,
/// and as nothing otherwise.
proof fn lemma_decides(
    disk: Disk,
    dotfiles: Seq<u8>,
    home: Seq<u8>,
    packages: Seq<Seq<u8>>,
    search: Search,
    source: Seq<u8>,
    target: Seq<u8>,
    conflict: bool,
)
    requires
        is_kept(disk, dotfiles, home, packages, search),
        search.stage is Target && search.stage->Target_source == source
            && search.stage->Target_target == target || search.stage == (Stage::Linking {
            source,
            target,
        }),
        conflict == is_in_the_way(disk, source, target),
        !(is_directory(disk, source) && is_directory(disk, target)),
    ensures
        conflict ==> is_kept(
            disk,
            dotfiles,
            home,
            packages,
            Search {
                conflicts: with_path(search.conflicts, target),
                stage: Stage::Completed,
                ..search
            },
        ),
        !conflict ==> is_kept(disk, dotfiles, home, packages, put_down(search)),
{
    let conflicts = if conflict {
        with_path(search.conflicts, target)
    } else {
        search.conflicts
    };
    let next = Search { conflicts, stage: Stage::Completed, ..search };
    let seen = Errand::Visit { source, target };
    assert(has_errand(search, seen));
    let (at, way) = choose|package: int, trail: Seq<Seq<u8>>| #[trigger]
        is_about(disk, dotfiles, home, packages, seen, package, trail);
    assert(is_about(disk, dotfiles, home, packages, seen, at, way));
    assert(components_of(search.home).is_prefix_of(components_of(target)));
    paths_stay_in_order(search.conflicts, target, target);
    assert forall|i: int| 0 <= i < conflicts.len() implies is_fair(
        disk,
        dotfiles,
        home,
        packages,
        #[trigger] conflicts[i],
    ) && components_of(search.home).is_prefix_of(components_of(conflicts[i])) by {
        if conflict {
            paths_stay_in_order(search.conflicts, target, conflicts[i]);
            assert(has_path(conflicts, conflicts[i]));
            if has_path(search.conflicts, conflicts[i]) {
                let k = choose|k: int|
                    0 <= k < search.conflicts.len() && components_of(
                        #[trigger] search.conflicts[k],
                    ) == components_of(conflicts[i]);
                let former = search.conflicts[k];
                assert(is_fair(disk, dotfiles, home, packages, former));
                let (package, trail) = choose|package: int, trail: Seq<Seq<u8>>| #[trigger]
                    is_found(disk, dotfiles, home, packages, former, package, trail);
                assert(is_found(disk, dotfiles, home, packages, conflicts[i], package, trail));
            } else {
                assert(is_found(disk, dotfiles, home, packages, conflicts[i], at, way));
            }
        }
    }
    assert(search_is_sound(next));
    assert forall|package: int, trail: Seq<Seq<u8>>|
        0 <= package < packages.len() && trail.len() > 0 && #[trigger] reaches(
            disk,
            joined(dotfiles, packages[package]),
            home,
            trail,
        ) implies accounts_for(disk, next, joined(dotfiles, packages[package]), home, trail) by {
        let base = joined(dotfiles, packages[package]);
        assert(accounts_for(disk, search, base, home, trail));
        if has_path(search.conflicts, place(home, trail)) {
            paths_stay_in_order(search.conflicts, target, place(home, trail));
        } else if exists|count: int| #[trigger] covers_at(search, base, home, trail, count) {
            let count = choose|count: int| #[trigger] covers_at(search, base, home, trail, count);
            let from = place(base, trail.take(count));
            let to = place(home, trail.take(count));
            let other = Errand::List { source: from, target: to };
            let visit = Errand::Visit { source: from, target: to };
            if 0 <= count < trail.len() && has_errand(search, other) {
                assert(has_errand(next, other));
                assert(covers_at(next, base, home, trail, count));
            } else if search.pending.contains(visit) {
                assert(has_errand(next, visit));
                assert(covers_at(next, base, home, trail, count));
            } else {
                assert(visit == seen);
                if count < trail.len() {
                    assert(is_directory(disk, from) && is_directory(disk, to));
                    assert(false);
                } else {
                    assert(trail.take(count) =~= trail);
                    if conflict {
                        paths_stay_in_order(search.conflicts, target, place(home, trail));
                    }
                }
            }
        }
    }
    assert forall|errand: Errand| #[trigger] has_errand(next, errand) implies exists|
        package: int,
        trail: Seq<Seq<u8>>,
    | #[trigger] is_about(disk, dotfiles, home, packages, errand, package, trail) by {
        assert(has_errand(search, errand));
    }
}

proof fn lemma_step(
    disk: Disk,
    dotfiles: Seq<u8>,
    home: Seq<u8>,
    packages: Seq<Seq<u8>>,
    search: Search,
    reply: Reply,
)
    requires
        is_kept(disk, dotfiles, home, packages, search),
        is_told(disk, search.asks(), reply),
        !(search.after(reply).stage is Failed),
    ensures
        is_kept(disk, dotfiles, home, packages, search.after(reply)),
{
    let next = search.after(reply);
    conflicts_lie_in_the_home(search, reply);
    match search.stage {
        Stage::Listing { source, target } => {
            let names = views(reply->Names_0@);
            lemma_lists(disk, dotfiles, home, packages, search, names);
            let longer = Search { pending: search.pending + visits(source, target, names), ..search };
            lemma_resumes(disk, dotfiles, home, packages, longer);
        },
        Stage::Source { source, target } => {
            assert forall|errand: Errand| #[trigger] has_errand(next, errand) == has_errand(
                search,
                errand,
            ) by {}
            lemma_looks(disk, dotfiles, home, packages, search, next);
        },
        Stage::Target { source, target, kind } => match reply {
            Reply::Found(entry) => {
                if kind == FileKind::Directory && entry.kind == FileKind::Directory {
                    lemma_descends(disk, dotfiles, home, packages, search);
                } else if kind != FileKind::Directory && entry.kind == FileKind::Symlink {
                    assert forall|errand: Errand| #[trigger] has_errand(next, errand)
                        == has_errand(search, errand) by {}
                    lemma_looks(disk, dotfiles, home, packages, search, next);
                } else {
                    lemma_decides(disk, dotfiles, home, packages, search, source, target, true);
                    let longer = Search { conflicts: with_path(search.conflicts, target), ..search };
                    lemma_resumes(disk, dotfiles, home, packages, longer);
                }
            },
            _ => {
                lemma_decides(disk, dotfiles, home, packages, search, source, target, false);
                lemma_resumes(disk, dotfiles, home, packages, search);
            },
        },
        Stage::Linking { source, target } => {
            let leads = leads_to_source(target, reply->Contents_0@, source);
            lemma_decides(disk, dotfiles, home, packages, search, source, target, !leads);
            if leads {
                lemma_resumes(disk, dotfiles, home, packages, search);
            } else {
                let longer = Search { conflicts: with_path(search.conflicts, target), ..search };
                lemma_resumes(disk, dotfiles, home, packages, longer);
            }
        },
        _ => {},
    }
}

proof fn lemma_run(
    disk: Disk,
    dotfiles: Seq<u8>,
    home: Seq<u8>,
    packages: Seq<Seq<u8>>,
    states: Seq<Search>,
    replies: Seq<Reply>,
    index: int,
)
    requires
        is_search(disk, dotfiles, home, packages, states, replies),
        0 <= index < states.len(),
        !(states[index].stage is Failed),
    ensures
        is_kept(disk, dotfiles, home, packages, states[index]),
    decreases index,
{
    if index == 0 {
        lemma_begins(disk, dotfiles, home, packages);
    } else {
        let reply = replies[index - 1];
        assert(states[index] == states[index - 1].after(reply));
        if !(states[index - 1].stage is Failed) {
            lemma_run(disk, dotfiles, home, packages, states, replies, index - 1);
            lemma_step(disk, dotfiles, home, packages, states[index - 1], reply);
        }
    }
}

// --------------------------------------------------
// Laws
// --------------------------------------------------

/// On a fixed disk a complete search has as its conflicts exactly the counterparts of
/// those entries, at any depth of a package, under directories that are directories in
/// the home too, in whose place something stands that is neither a directory for a
/// directory nor a link to the entry. The conflicts are in order and none occurs twice.
pub proof fn a_complete_search_finds_every_conflict(
    disk: Disk,
    dotfiles: Seq<u8>,
    home: Seq<u8>,
    packages: Seq<Seq<u8>>,
    states: Seq<Search>,
    replies: Seq<Reply>,
)
    requires
        is_search(disk, dotfiles, home, packages, states, replies),
        states.last().stage is Completed,
    ensures
        forall|package: int, trail: Seq<Seq<u8>>|
            0 <= package < packages.len() && trail.len() > 0 && #[trigger] reaches(
                disk,
                joined(dotfiles, packages[package]),
                home,
                trail,
            ) && is_in_the_way(
                disk,
                place(joined(dotfiles, packages[package]), trail),
                place(home, trail),
            ) ==> exists|i: int|
                0 <= i < states.last().conflicts.len() && components_of(
                    #[trigger] states.last().conflicts[i],
                ) == components_of(place(home, trail)),
        forall|i: int|
            0 <= i < states.last().conflicts.len() ==> is_fair(
                disk,
                dotfiles,
                home,
                packages,
                #[trigger] states.last().conflicts[i],
            ),
        forall|i: int, j: int|
            0 <= i < j < states.last().conflicts.len() ==> components_of(
                #[trigger] states.last().conflicts[i],
            ) != components_of(#[trigger] states.last().conflicts[j]),
{
    let last = states.last();
    lemma_run(disk, dotfiles, home, packages, states, replies, states.len() - 1);
    assert(last.pending.len() == 0) by {
        lemma_complete(disk, dotfiles, home, packages, states, replies, states.len() - 1);
    }
    assert forall|package: int, trail: Seq<Seq<u8>>|
        0 <= package < packages.len() && trail.len() > 0 && #[trigger] reaches(
            disk,
            joined(dotfiles, packages[package]),
            home,
            trail,
        ) && is_in_the_way(
            disk,
            place(joined(dotfiles, packages[package]), trail),
            place(home, trail),
        ) implies exists|i: int|
        0 <= i < last.conflicts.len() && components_of(#[trigger] last.conflicts[i])
            == components_of(place(home, trail)) by {
        let base = joined(dotfiles, packages[package]);
        assert(accounts_for(disk, last, base, home, trail));
        if exists|count: int| #[trigger] covers_at(last, base, home, trail, count) {
            assert(false);
        }
    }
    assert forall|i: int, j: int| 0 <= i < j < last.conflicts.len() implies components_of(
        #[trigger] last.conflicts[i],
    ) != components_of(#[trigger] last.conflicts[j]) by {
        assert(paths_ascend(last.conflicts));
        assert(crate::paths::path_at_most(last.conflicts[i], last.conflicts[j]));
    }
}

/// A complete search has nothing left to look at.
proof fn lemma_complete(
    disk: Disk,
    dotfiles: Seq<u8>,
    home: Seq<u8>,
    packages: Seq<Seq<u8>>,
    states: Seq<Search>,
    replies: Seq<Reply>,
    index: int,
)
    requires
        is_search(disk, dotfiles, home, packages, states, replies),
        0 <= index < states.len(),
    ensures
        states[index].stage is Completed ==> states[index].pending.len() == 0,
    decreases index,
{
    if index > 0 {
        lemma_complete(disk, dotfiles, home, packages, states, replies, index - 1);
        assert(states[index] == states[index - 1].after(replies[index - 1]));
    }
}

/// A search does not fail while its questions are answered, the entries of the
/// packages are directories, files or links, and their names lead down from the home
/// directory.
pub proof fn an_answered_search_does_not_fail(search: Search, reply: Reply)
    requires
        forall|i: int|
            0 <= i < search.pending.len() && #[trigger] search.pending[i] is Visit
                ==> components_of(search.home).is_prefix_of(
                components_of(search.pending[i]->Visit_target),
            ),
        match search.stage {
            Stage::Listing { target, .. } => {
                &&& reply is Names
                &&& target.len() > 0
                &&& components_of(search.home).is_prefix_of(components_of(target))
                &&& forall|k: int|
                    0 <= k < reply->Names_0@.len() ==> {
                        let name = #[trigger] reply->Names_0@[k]@;
                        name.len() > 0 && name[0] != 0x2f
                    }
            },
            Stage::Source { .. } => reply is Found && reply->Found_0.kind != FileKind::Other,
            Stage::Target { .. } => reply is Found || (reply is Failed && reply->Failed_0.kind
                == FaultKind::NotFound),
            Stage::Linking { .. } => reply is Contents,
            Stage::Completed => true,
            Stage::Failed(_) => false,
        },
    ensures
        !(search.after(reply).stage is Failed),
{
    match search.stage {
        Stage::Listing { source, target } => {
            let names = views(reply->Names_0@);
            let added = visits(source, target, names);
            let all = search.pending + added;
            lemma_visits(source, target, names);
            if all.len() > 0 && all.last() is Visit && added.len() > 0 {
                assert(all.last() == added.last());
                assert(added[added.len() - 1] == added.last());
                assert(added.contains(added.last()));
                let name = choose|name: Seq<u8>|
                    names.contains(name) && added.last() == (Errand::Visit {
                        source: joined(source, name),
                        target: #[trigger] joined(target, name),
                    });
                let k = choose|k: int| 0 <= k < names.len() && names[k] == name;
                assert(reply->Names_0@[k]@ == name);
                lemma_join_keeps_base(target, name);
                assert(components_of(search.home).is_prefix_of(
                    components_of(joined(target, name)),
                ));
            } else if all.len() > 0 {
                assert(added.len() == 0 ==> all =~= search.pending);
                assert(added.len() == 0 ==> search.pending[search.pending.len() - 1] == all.last());
            }
        },
        _ => {
            if search.pending.len() > 0 {
                assert(search.pending[search.pending.len() - 1] == search.pending.last());
            }
        },
    }
}

// --------------------------------------------------
// Packages
// --------------------------------------------------

/// Whether, of the first names, exactly those were found at which a directory stands.
pub open spec fn are_the_directories(
    disk: Disk,
    dotfiles: Seq<u8>,
    names: Seq<Seq<u8>>,
    count: int,
    found: Seq<Seq<u8>>,
) -> bool {
    &&& forall|i: int|
        0 <= i < count && is_directory(disk, joined(dotfiles, #[trigger] names[i]))
            ==> found.contains(names[i])
    &&& forall|k: int|
        0 <= k < found.len() ==> is_directory(disk, joined(dotfiles, #[trigger] found[k]))
            && names.contains(found[k])
}

/// While the entries of the dotfiles are looked at, those found are the directories
/// among them, and once all were looked at the packages are all the directories, in the
/// order of their bytes.
pub proof fn packages_are_the_directories(
    disk: Disk,
    scan: PackageScan,
    reply: Reply,
    next: PackagePhase,
)
    requires
        scan.phase is Inspecting,
        scan.phase->index < scan.phase->names@.len(),
        is_told(disk, scan.asks(), reply),
        scan.follows(reply, next),
        are_the_directories(
            disk,
            scan.dotfiles@,
            views(scan.phase->names@),
            scan.phase->index as int,
            views(scan.phase->found@),
        ),
    ensures
        next is Inspecting ==> views(next->names@) == views(scan.phase->names@) && next->index
            == scan.phase->index + 1 && are_the_directories(
            disk,
            scan.dotfiles@,
            views(scan.phase->names@),
            next->index as int,
            views(next->found@),
        ),
        next is Completed ==> {
            &&& scan.phase->index + 1 == scan.phase->names@.len()
            &&& are_the_directories(
                disk,
                scan.dotfiles@,
                views(scan.phase->names@),
                scan.phase->names@.len() as int,
                views(next->Completed_0@),
            )
            &&& forall|i: int, j: int|
                0 <= i < j < next->Completed_0@.len() ==> #[trigger] bytes_at_most(
                    next->Completed_0@[i]@,
                    next->Completed_0@[j]@,
                )
        },
        reply is Found && scan.phase->index + 1 < scan.phase->names@.len() ==> next is Inspecting,
{
    let names = views(scan.phase->names@);
    let index = scan.phase->index as int;
    let found = views(scan.phase->found@);
    let name = names[index];
    if reply is Found {
        let longer = if reply->Found_0.kind == FileKind::Directory {
            found.push(name)
        } else {
            found
        };
        assert(are_the_directories(disk, scan.dotfiles@, names, index + 1, longer)) by {
            assert forall|i: int|
                0 <= i < index + 1 && is_directory(
                    disk,
                    joined(scan.dotfiles@, #[trigger] names[i]),
                ) implies longer.contains(names[i]) by {
                if i < index {
                    let k = choose|k: int| 0 <= k < found.len() && found[k] == names[i];
                    assert(longer[k] == names[i]);
                } else {
                    assert(longer[found.len() as int] == name);
                }
            }
            assert forall|k: int| 0 <= k < longer.len() implies is_directory(
                disk,
                joined(scan.dotfiles@, #[trigger] longer[k]),
            ) && names.contains(longer[k]) by {
                if k < found.len() {
                    assert(longer[k] == found[k]);
                } else {
                    assert(longer[k] == names[index]);
                }
            }
        }
        if next is Completed {
            let sorted = views(next->Completed_0@);
            sorted.to_multiset_ensures();
            longer.to_multiset_ensures();
            assert forall|i: int|
                0 <= i < names.len() && is_directory(
                    disk,
                    joined(scan.dotfiles@, #[trigger] names[i]),
                ) implies sorted.contains(names[i]) by {
                assert(longer.contains(names[i]));
                assert(longer.to_multiset().contains(names[i]));
                assert(sorted.to_multiset().contains(names[i]));
            }
            assert forall|k: int| 0 <= k < sorted.len() implies is_directory(
                disk,
                joined(scan.dotfiles@, #[trigger] sorted[k]),
            ) && names.contains(sorted[k]) by {
                assert(sorted.to_multiset().contains(sorted[k]));
                assert(longer.contains(sorted[k]));
                let i = choose|i: int| 0 <= i < longer.len() && longer[i] == sorted[k];
                assert(is_directory(disk, joined(scan.dotfiles@, longer[i])));
            }
            assert forall|i: int, j: int| 0 <= i < j < next->Completed_0@.len() implies #[trigger] bytes_at_most(
                next->Completed_0@[i]@,
                next->Completed_0@[j]@,
            ) by {
                assert(bytes_at_most(sorted[i], sorted[j]));
            }
        }
    }
}

} // verus!
