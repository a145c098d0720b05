//! Choosing the process whose audio is captured, among the processes that a
//! `sysinfo::System` holds.

use vstd::prelude::*;
use vstd::multiset::Multiset;

verus! {

/// One running process, as far as target selection reads it.
#[derive(Clone, Debug)]
pub struct ProcessEntry {
    /// The process identifier.
    pub pid: u32,
    /// The process name, with anything that is not Unicode replaced.
    pub name: String,
}

/// `sysinfo::System`, the snapshot of the machine that holds the running
/// processes. Nothing inside it is visible here.
#[verifier::external_type_specification]
#[verifier::external_body]
pub struct ExSystem(sysinfo::System);

/// The processes that a `System` holds: for each, its identifier and its
/// name, with anything in the name that is not Unicode replaced.
pub uninterp spec fn processes_of(system: sysinfo::System) -> Multiset<(u32, Seq<char>)>;

/// The identifier and name of a listed process.
pub open spec fn entry_key(entry: ProcessEntry) -> (u32, Seq<char>) {
    (entry.pid, entry.name@)
}

/// The identifiers and names of a listing, in its order.
pub open spec fn listing_keys(procs: Seq<ProcessEntry>) -> Seq<(u32, Seq<char>)> {
    procs.map_values(|entry: ProcessEntry| entry_key(entry))
}

/// `System::processes` gives the map of the processes that the `System`
/// holds; `Process::pid` with `Pid::as_u32`, and `Process::name`, give each
/// one's identifier and name. The listing holds every process of the map
/// once. Its order is that in which the map is walked, of which nothing is
/// claimed.
#[verifier::external_body]
fn process_listing(system: &sysinfo::System) -> (r: Vec<ProcessEntry>)
    ensures
        listing_keys(r@).to_multiset() == processes_of(*system),
{
    system.processes().values().map(
        |process| ProcessEntry {
            pid: process.pid().as_u32(),
            name: process.name().to_string_lossy().into_owned(),
        },
    ).collect()
}

/// The lower-case form that `str::to_lowercase` gives for a text.
pub uninterp spec fn lowercase_of(s: Seq<char>) -> Seq<char>;

/// `str::to_lowercase` maps a text to its Unicode lower-case form, which
/// depends on the text alone.
pub assume_specification[ str::to_lowercase ](s: &str) -> (r: String)
    ensures
        r@ == lowercase_of(s@),
;

/// Whether `needle` stands somewhere in `hay` as a run of consecutive
/// characters.
pub open spec fn occurs_in(needle: Seq<char>, hay: Seq<char>) -> bool {
    exists|i: int|
        0 <= i && i + needle.len() <= hay.len() && #[trigger] hay.subrange(
            i,
            i + needle.len(),
        ) == needle
}

/// `str::contains` with a text as the pattern: whether the pattern matches a
/// part of the text it is called on.
#[verifier::external_body]
fn contains_text(hay: &str, needle: &str) -> (r: bool)
    ensures
        r == occurs_in(needle@, hay@),
{
    hay.contains(needle)
}

/// The marker that a target's name holds once lower-cased.
pub open spec fn target_marker() -> Seq<char> {
    "fivem"@
}

/// The first of the names that select a target outright.
pub open spec fn exact_name_first() -> Seq<char> {
    "FiveM.exe"@
}

/// The second of the names that select a target outright.
pub open spec fn exact_name_second() -> Seq<char> {
    "FiveM_b2545_GTAProcess.exe"@
}

/// The third of the names that select a target outright.
pub open spec fn exact_name_third() -> Seq<char> {
    "FiveM_GTAProcess.exe"@
}

/// Whether a process name marks a target loosely: its lower-case form holds
/// the marker.
pub open spec fn is_loose_match(name: Seq<char>) -> bool {
    occurs_in(target_marker(), lowercase_of(name))
}

/// The identifier of the first listed process that is named `name`.
pub open spec fn first_named(procs: Seq<ProcessEntry>, name: Seq<char>) -> Option<u32>
    decreases procs.len(),
{
    if procs.len() == 0 {
        None
    } else if procs[0].name@ == name {
        Some(procs[0].pid)
    } else {
        first_named(procs.drop_first(), name)
    }
}

/// The identifier of the first listed process whose name matches loosely.
pub open spec fn first_loose(procs: Seq<ProcessEntry>) -> Option<u32>
    decreases procs.len(),
{
    if procs.len() == 0 {
        None
    } else if is_loose_match(procs[0].name@) {
        Some(procs[0].pid)
    } else {
        first_loose(procs.drop_first())
    }
}

/// The target among the listed processes.
///
/// A process with the first exact name wins over one with the second, that
/// over one with the third, and any of them over a loose match; among equals
/// the one listed first wins.
pub open spec fn target_of(procs: Seq<ProcessEntry>) -> Option<u32> {
    if first_named(procs, exact_name_first()).is_some() {
        first_named(procs, exact_name_first())
    } else if first_named(procs, exact_name_second()).is_some() {
        first_named(procs, exact_name_second())
    } else if first_named(procs, exact_name_third()).is_some() {
        first_named(procs, exact_name_third())
    } else {
        first_loose(procs)
    }
}

/// Finds the first listed process with exactly the given name.
pub fn find_by_exact_name(procs: &Vec<ProcessEntry>, name: &str) -> (r: Option<u32>)
    ensures
        r == first_named(procs@, name@),
{
    let wanted: String = name.to_owned();
    let mut i: usize = 0;
    assert(procs@.skip(0) =~= procs@);
    while i < procs.len()
        invariant
            i <= procs.len(),
            wanted@ == name@,
            first_named(procs@, name@) == first_named(procs@.skip(i as int), name@),
        decreases procs.len() - i,
    {
        let ghost rest = procs@.skip(i as int);
        assert(rest[0] == procs@[i as int]);
        assert(rest.drop_first() =~= procs@.skip(i + 1));
        if procs[i].name == wanted {
            return Some(procs[i].pid);
        }
        i += 1;
    }
    None
}

/// Finds the first listed process whose lower-cased name holds the marker.
pub fn find_by_marker(procs: &Vec<ProcessEntry>) -> (r: Option<u32>)
    ensures
        r == first_loose(procs@),
{
    let mut i: usize = 0;
    assert(procs@.skip(0) =~= procs@);
    while i < procs.len()
        invariant
            i <= procs.len(),
            first_loose(procs@) == first_loose(procs@.skip(i as int)),
        decreases procs.len() - i,
    {
        let ghost rest = procs@.skip(i as int);
        assert(rest[0] == procs@[i as int]);
        assert(rest.drop_first() =~= procs@.skip(i + 1));
        let lower: String = procs[i].name.as_str().to_lowercase();
        if contains_text(lower.as_str(), "fivem") {
            return Some(procs[i].pid);
        }
        i += 1;
    }
    None
}

/// Picks the capture target from a listing of the running processes, or
/// `None` when no listed process qualifies.
pub fn select_target(procs: &Vec<ProcessEntry>) -> (r: Option<u32>)
    ensures
        r == target_of(procs@),
{
    let first = find_by_exact_name(procs, "FiveM.exe");
    if first.is_some() {
        return first;
    }
    let second = find_by_exact_name(procs, "FiveM_b2545_GTAProcess.exe");
    if second.is_some() {
        return second;
    }
    let third = find_by_exact_name(procs, "FiveM_GTAProcess.exe");
    if third.is_some() {
        return third;
    }
    find_by_marker(procs)
}

/// How well a process name marks a target: 0, 1 and 2 for the three exact
/// names in their order, 3 for a loose match, 4 for a name that marks none.
pub open spec fn rank(name: Seq<char>) -> nat {
    if name == exact_name_first() {
        0
    } else if name == exact_name_second() {
        1
    } else if name == exact_name_third() {
        2
    } else if is_loose_match(name) {
        3
    } else {
        4
    }
}

/// Whether `found` is a right answer to the search among `running`: a
/// process whose name marks a target, and marks it at least as well as the
/// name of every other running process; or nothing, when no running process
/// is marked.
pub open spec fn is_target_among(running: Multiset<(u32, Seq<char>)>, found: Option<u32>) -> bool {
    match found {
        Some(pid) => exists|name: Seq<char>|
            {
                &&& #[trigger] running.contains((pid, name))
                &&& rank(name) < 4
                &&& forall|other: (u32, Seq<char>)| #[trigger]
                    running.contains(other) ==> rank(name) <= rank(other.1)
            },
        None => forall|other: (u32, Seq<char>)| #[trigger]
            running.contains(other) ==> rank(other.1) == 4,
    }
}

/// Picks the capture target among the processes that `system` holds.
///
/// Where several processes are marked equally well, which of them is picked
/// depends on the order in which `system` hands its processes out.
pub fn find_fivem_pid(system: &sysinfo::System) -> (r: Option<u32>)
    ensures
        is_target_among(processes_of(*system), r),
{
    let procs = process_listing(system);
    let found = select_target(&procs);
    proof {
        lemma_target_is_best(procs@);
    }
    found
}

/// What the search for an exact name finds is a listed process of that name,
/// and it finds one whenever one is listed.
pub proof fn lemma_first_named(procs: Seq<ProcessEntry>, name: Seq<char>)
    ensures
        first_named(procs, name) matches Some(pid) ==> exists|i: int|
            0 <= i < procs.len() && (#[trigger] procs[i]).pid == pid && procs[i].name@ == name,
        first_named(procs, name) is None ==> forall|i: int|
            0 <= i < procs.len() ==> (#[trigger] procs[i]).name@ != name,
    decreases procs.len(),
{
    if procs.len() > 0 && procs[0].name@ != name {
        let rest = procs.drop_first();
        lemma_first_named(rest, name);
        if let Some(pid) = first_named(rest, name) {
            let i = choose|i: int|
                0 <= i < rest.len() && (#[trigger] rest[i]).pid == pid && rest[i].name@ == name;
            assert(procs[i + 1] == rest[i]);
        } else {
            assert forall|i: int| 0 <= i < procs.len() implies (#[trigger] procs[i]).name@
                != name by {
                if i > 0 {
                    assert(procs[i] == rest[i - 1]);
                }
            }
        }
    } else if procs.len() > 0 {
        assert(procs[0].pid == first_named(procs, name).unwrap());
    }
}

/// What the loose search finds is a listed process whose name matches
/// loosely, and it finds one whenever one is listed.
pub proof fn lemma_first_loose(procs: Seq<ProcessEntry>)
    ensures
        first_loose(procs) matches Some(pid) ==> exists|i: int|
            0 <= i < procs.len() && (#[trigger] procs[i]).pid == pid && is_loose_match(
                procs[i].name@,
            ),
        first_loose(procs) is None ==> forall|i: int|
            0 <= i < procs.len() ==> !is_loose_match((#[trigger] procs[i]).name@),
    decreases procs.len(),
{
    if procs.len() > 0 && !is_loose_match(procs[0].name@) {
        let rest = procs.drop_first();
        lemma_first_loose(rest);
        if let Some(pid) = first_loose(rest) {
            let i = choose|i: int|
                0 <= i < rest.len() && (#[trigger] rest[i]).pid == pid && is_loose_match(
                    rest[i].name@,
                );
            assert(procs[i + 1] == rest[i]);
        } else {
            assert forall|i: int| 0 <= i < procs.len() implies !is_loose_match(
                (#[trigger] procs[i]).name@,
            ) by {
                if i > 0 {
                    assert(procs[i] == rest[i - 1]);
                }
            }
        }
    } else if procs.len() > 0 {
        assert(procs[0].pid == first_loose(procs).unwrap());
    }
}

/// The target picked from a listing is a right answer to the search among
/// the listed processes, in whatever order they are listed.
pub proof fn lemma_target_is_best(procs: Seq<ProcessEntry>)
    ensures
        is_target_among(listing_keys(procs).to_multiset(), target_of(procs)),
{
    let keys = listing_keys(procs);
    let running = keys.to_multiset();
    keys.to_multiset_ensures();
    lemma_first_named(procs, exact_name_first());
    lemma_first_named(procs, exact_name_second());
    lemma_first_named(procs, exact_name_third());
    lemma_first_loose(procs);
    assert forall|other: (u32, Seq<char>)| #[trigger] running.contains(other) implies exists|
        i: int,
    |
        0 <= i < procs.len() && (#[trigger] procs[i]).pid == other.0 && procs[i].name@
            == other.1 by {
        assert(keys.contains(other));
        let i = choose|i: int| 0 <= i < keys.len() && keys[i] == other;
        assert(keys[i] == entry_key(procs[i]));
    }
    match target_of(procs) {
        Some(pid) => {
            let i = choose|i: int|
                0 <= i < procs.len() && (#[trigger] procs[i]).pid == pid && rank(procs[i].name@)
                    < 4 && (forall|j: int|
                    0 <= j < procs.len() ==> rank(procs[i].name@) <= rank(
                        (#[trigger] procs[j]).name@,
                    ));
            let name = procs[i].name@;
            assert(keys[i] == (pid, name));
            assert(keys.contains((pid, name)));
            assert(running.contains((pid, name)));
            assert forall|other: (u32, Seq<char>)| #[trigger]
                running.contains(other) implies rank(name) <= rank(other.1) by {
                let j = choose|j: int|
                    0 <= j < procs.len() && (#[trigger] procs[j]).pid == other.0 && procs[j].name@
                        == other.1;
                assert(rank(name) <= rank(procs[j].name@));
            }
        },
        None => {
            assert forall|other: (u32, Seq<char>)| #[trigger]
                running.contains(other) implies rank(other.1) == 4 by {
                let j = choose|j: int|
                    0 <= j < procs.len() && (#[trigger] procs[j]).pid == other.0 && procs[j].name@
                        == other.1;
                assert(rank(procs[j].name@) == 4);
            }
        },
    }
}

} // verus!
