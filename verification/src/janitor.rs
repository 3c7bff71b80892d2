//! Which staged directories are in use, and which may be reclaimed.

use std::collections::hash_map::RandomState;

use vstd::prelude::*;
use vstd::string::*;

use crate::text::begins_with;
use crate::uploads::{
    joined_path, uploaded_input_proof_uuid_from_path, uploaded_input_work_dir, work_dir_name,
};

verus! {

/// A concurrent set of `dashmap`.
#[verifier::external_type_specification]
#[verifier::external_body]
#[verifier::reject_recursive_types(K)]
#[verifier::reject_recursive_types(S)]
pub struct ExDashSet<K, S>(dashmap::DashSet<K, S>);

/// The texts in a set.
pub uninterp spec fn set_texts(set: dashmap::DashSet<String, RandomState>) -> Set<Seq<char>>;

/// Calls `dashmap::DashSet::new`: a set that holds nothing.
#[verifier::external_body]
fn new_set() -> (r: dashmap::DashSet<String, RandomState>)
    ensures
        set_texts(r) == Set::<Seq<char>>::empty(),
{
    dashmap::DashSet::new()
}

/// Calls `dashmap::DashSet::insert`: the set then holds the text too, and says
/// whether it was new.
#[verifier::external_body]
fn insert_text(set: &mut dashmap::DashSet<String, RandomState>, text: String) -> (r: bool)
    ensures
        set_texts(*final(set)) == set_texts(*old(set)).insert(text@),
        r == !set_texts(*old(set)).contains(text@),
{
    set.insert(text)
}

/// Calls `dashmap::DashSet::remove`: the set then no longer holds the text, and says
/// whether it did.
#[verifier::external_body]
fn remove_text(set: &mut dashmap::DashSet<String, RandomState>, text: &str) -> (r: bool)
    ensures
        set_texts(*final(set)) == set_texts(*old(set)).remove(text@),
        r == set_texts(*old(set)).contains(text@),
{
    set.remove(text).is_some()
}

/// Calls `dashmap::DashSet::contains`: whether the set holds the text.
#[verifier::external_body]
fn holds_text(set: &dashmap::DashSet<String, RandomState>, text: &str) -> (r: bool)
    ensures
        r == set_texts(*set).contains(text@),
{
    set.contains(text)
}

/// The proofs whose staged inputs are in use.
pub struct ActiveUploads {
    proofs: dashmap::DashSet<String, RandomState>,
}

impl View for ActiveUploads {
    type V = Set<Seq<char>>;

    closed spec fn view(&self) -> Set<Seq<char>> {
        set_texts(self.proofs)
    }
}

impl ActiveUploads {
    pub fn new() -> (r: Self)
        ensures
            r@ == Set::<Seq<char>>::empty(),
    {
        ActiveUploads { proofs: new_set() }
    }

    /// The staged inputs of a proof are in use from now on.
    pub fn activate(&mut self, proof_uuid: &str)
        ensures
            final(self)@ == old(self)@.insert(proof_uuid@),
    {
        let _ = insert_text(&mut self.proofs, proof_uuid.to_owned());
    }

    /// Whether the staged inputs of a proof are in use.
    pub fn is_active(&self, proof_uuid: &str) -> (r: bool)
        ensures
            r == self@.contains(proof_uuid@),
    {
        holds_text(&self.proofs, proof_uuid)
    }

    /// The staged inputs of a proof are no longer in use. Returns the directory under
    /// `root` that can be removed.
    pub fn release(&mut self, root: &str, proof_uuid: &str) -> (r: String)
        ensures
            final(self)@ == old(self)@.remove(proof_uuid@),
            r@ == joined_path(root@, work_dir_name(proof_uuid@)),
    {
        let _ = remove_text(&mut self.proofs, proof_uuid);
        uploaded_input_work_dir(root, proof_uuid)
    }
}

/// What is known of an entry of the upload root once it was looked at.
#[derive(Debug, Clone, Copy, PartialEq, Eq, Structural)]
pub enum EntryFacts {
    /// The entry, or its modification time, could not be read.
    Unreadable,
    NotADirectory,
    /// A directory of this age. One that was modified in the future has age zero.
    Directory { age_nanos: u128 },
}

/// The proof whose directory an entry of the upload root is, if that proof does not
/// use it: only then is the entry looked at.
pub fn reclaim_candidate(file_name: &str, active: &ActiveUploads) -> (r: Option<String>)
    ensures
        r matches Some(uuid) ==> file_name@ == work_dir_name(uuid@) && !active@.contains(uuid@),
        r is None ==> !begins_with(file_name@, "edge_"@) || exists|used: Seq<char>|
            file_name@ == #[trigger] work_dir_name(used) && active@.contains(used),
{
    match uploaded_input_proof_uuid_from_path(file_name) {
        None => None,
        Some(uuid) => {
            if active.is_active(uuid.as_str()) {
                assert(file_name@ == work_dir_name(uuid@));
                return None;
            }
            Some(uuid)
        },
    }
}

/// Whether a directory is to be removed: it is one, it is old enough, and no proof has
/// come to use it since it was found.
pub fn is_reclaimed(
    proof_uuid: &str,
    facts: EntryFacts,
    stale_after_nanos: u128,
    active: &ActiveUploads,
) -> (r: bool)
    ensures
        r == (facts matches EntryFacts::Directory { age_nanos } && age_nanos >= stale_after_nanos
            && !active@.contains(proof_uuid@)),
{
    match facts {
        EntryFacts::Directory { age_nanos } => {
            age_nanos >= stale_after_nanos && !active.is_active(proof_uuid)
        },
        _ => false,
    }
}

/// One entry of the upload root, as a sweep sees it.
pub struct SweptEntry {
    pub file_name: String,
    pub facts: EntryFacts,
}

/// Whether a sweep removes an entry.
pub open spec fn sweeps(entry: SweptEntry, active: Set<Seq<char>>, stale_after_nanos: u128) -> bool {
    begins_with(entry.file_name@, "edge_"@) && !active.contains(
        entry.file_name@.skip("edge_"@.len() as int),
    ) && (entry.facts matches EntryFacts::Directory { age_nanos } && age_nanos
        >= stale_after_nanos)
}

/// Decide over one entry in a single step, where nothing becomes active meanwhile.
pub fn sweep_entry(entry: &SweptEntry, active: &ActiveUploads, stale_after_nanos: u128) -> (r: bool)
    ensures
        r == sweeps(*entry, active@, stale_after_nanos),
{
    match reclaim_candidate(entry.file_name.as_str(), active) {
        None => {
            proof {
                if begins_with(entry.file_name@, "edge_"@) {
                    let uuid = choose|uuid: Seq<char>|
                        entry.file_name@ == #[trigger] work_dir_name(uuid) && active@.contains(
                            uuid,
                        );
                    crate::uploads::work_dir_is_recognized(uuid);
                }
            }
            false
        },
        Some(uuid) => {
            proof {
                crate::uploads::work_dir_is_recognized(uuid@);
            }
            is_reclaimed(uuid.as_str(), entry.facts, stale_after_nanos, active)
        },
    }
}

/// Decide over all entries of the upload root, where nothing becomes active meanwhile.
/// Returns where among them the entries to be removed stand, in order.
pub fn sweep(entries: &Vec<SweptEntry>, active: &ActiveUploads, stale_after_nanos: u128) -> (r: Vec<
    usize,
>)
    ensures
        forall|i: int, j: int| 0 <= i < j < r@.len() ==> #[trigger] r@[i] < #[trigger] r@[j],
        forall|i: int|
            0 <= i < r@.len() ==> #[trigger] r@[i] < entries@.len() && sweeps(
                entries@[r@[i] as int],
                active@,
                stale_after_nanos,
            ),
        forall|k: usize|
            k < entries@.len() && sweeps(entries@[k as int], active@, stale_after_nanos)
                ==> #[trigger] r@.contains(k),
{
    let mut out: Vec<usize> = Vec::new();
    let mut k: usize = 0;
    while k < entries.len()
        invariant
            k <= entries@.len(),
            forall|i: int, j: int|
                0 <= i < j < out@.len() ==> #[trigger] out@[i] < #[trigger] out@[j],
            forall|i: int|
                0 <= i < out@.len() ==> #[trigger] out@[i] < k && sweeps(
                    entries@[out@[i] as int],
                    active@,
                    stale_after_nanos,
                ),
            forall|n: usize|
                n < k && sweeps(entries@[n as int], active@, stale_after_nanos)
                    ==> #[trigger] out@.contains(n),
        decreases entries@.len() - k,
    {
        let ghost before = out@;
        if sweep_entry(&entries[k], active, stale_after_nanos) {
            out.push(k);
            proof {
                assert(out@[before.len() as int] == k);
                assert forall|n: usize|
                    n <= k && sweeps(
                        entries@[n as int],
                        active@,
                        stale_after_nanos,
                    ) implies #[trigger] out@.contains(n) by {
                    if n < k {
                        assert(before.contains(n));
                        let at = choose|at: int| 0 <= at < before.len() && before[at] == n;
                        assert(out@[at] == n);
                    }
                }
            }
        }
        k = k + 1;
    }
    out
}

/// A directory of an active proof is never reclaimed, whatever its age, nor anything
/// that is not a proof's directory, and a stale directory of an inactive proof is.
pub proof fn only_stale_inactive_dirs_are_reclaimed(
    proof_uuid: Seq<char>,
    facts: EntryFacts,
    entry: SweptEntry,
    active: Set<Seq<char>>,
    stale_after_nanos: u128,
)
    requires
        entry.facts == facts,
    ensures
        entry.file_name@ == work_dir_name(proof_uuid) && active.contains(proof_uuid) ==> !sweeps(
            entry,
            active,
            stale_after_nanos,
        ),
        !begins_with(entry.file_name@, "edge_"@) ==> !sweeps(entry, active, stale_after_nanos),
        entry.file_name@ == work_dir_name(proof_uuid) && !active.contains(proof_uuid) && (
        facts matches EntryFacts::Directory { age_nanos } && age_nanos >= stale_after_nanos)
            ==> sweeps(entry, active, stale_after_nanos),
{
    crate::uploads::work_dir_is_recognized(proof_uuid);
}

/// The directory `edge_` and a proof's uuid is removed exactly if that proof does not use
/// it and it is a directory of the given age or more. Nothing else is.
pub proof fn sweeps_follow_the_names(
    entry: &SweptEntry,
    active: &ActiveUploads,
    stale_after_nanos: u128,
    r: bool,
    proof_uuid: Seq<char>,
)
    requires
        call_ensures(sweep_entry, (entry, active, stale_after_nanos), r),
    ensures
        entry.file_name@ == "edge_"@ + proof_uuid ==> (r <==> !active@.contains(proof_uuid)
            && entry.facts is Directory && entry.facts->age_nanos >= stale_after_nanos),
        (forall|uuid: Seq<char>| entry.file_name@ != #[trigger] ("edge_"@ + uuid)) ==> !r,
{
    crate::uploads::work_dir_is_recognized(proof_uuid);
    if begins_with(entry.file_name@, "edge_"@) {
        let uuid = entry.file_name@.skip("edge_"@.len() as int);
        assert(entry.file_name@ =~= "edge_"@ + uuid);
    }
}

/// A sweep removes exactly the entries that are to go, each once and in order.
pub proof fn sweeps_decide_each_entry(
    entries: &Vec<SweptEntry>,
    active: &ActiveUploads,
    stale_after_nanos: u128,
    r: Vec<usize>,
    k: usize,
    proof_uuid: Seq<char>,
)
    requires
        call_ensures(sweep, (entries, active, stale_after_nanos), r),
        k < entries@.len(),
        entries@[k as int].file_name@ == "edge_"@ + proof_uuid,
    ensures
        r@.contains(k) <==> !active@.contains(proof_uuid) && entries@[k as int].facts is Directory
            && entries@[k as int].facts->age_nanos >= stale_after_nanos,
        forall|i: int, j: int| 0 <= i < j < r@.len() ==> #[trigger] r@[i] < #[trigger] r@[j],
        forall|i: int| 0 <= i < r@.len() ==> #[trigger] r@[i] < entries@.len(),
{
    crate::uploads::work_dir_is_recognized(proof_uuid);
    if r@.contains(k) {
        let i = choose|i: int| 0 <= i < r@.len() && r@[i] == k;
        assert(sweeps(entries@[r@[i] as int], active@, stale_after_nanos));
    }
}

/// A directory that became active after it was found stays; one that did not goes if it
/// is old enough.
pub proof fn reclaimed_dirs_are_not_in_use(
    proof_uuid: &str,
    facts: EntryFacts,
    stale_after_nanos: u128,
    active: &ActiveUploads,
    r: bool,
)
    requires
        call_ensures(is_reclaimed, (proof_uuid, facts, stale_after_nanos, active), r),
    ensures
        active@.contains(proof_uuid@) ==> !r,
        facts is Unreadable || facts is NotADirectory ==> !r,
        facts is Directory && facts->age_nanos < stale_after_nanos ==> !r,
        facts is Directory && facts->age_nanos >= stale_after_nanos && !active@.contains(
            proof_uuid@,
        ) ==> r,
{
}

/// The directory of a proof that is not in use is a candidate under that proof's uuid,
/// and that of a proof in use is none.
pub proof fn candidates_are_not_in_use(
    file_name: &str,
    active: &ActiveUploads,
    r: Option<String>,
    proof_uuid: Seq<char>,
)
    requires
        call_ensures(reclaim_candidate, (file_name, active), r),
        file_name@ == "edge_"@ + proof_uuid,
    ensures
        r is Some <==> !active@.contains(proof_uuid),
        r is Some ==> r->0@ == proof_uuid,
{
    crate::uploads::work_dir_is_recognized(proof_uuid);
    match r {
        Some(uuid) => {
            crate::uploads::work_dir_is_recognized(uuid@);
            assert(uuid@ =~= proof_uuid);
        },
        None => {
            assert(file_name@ =~= work_dir_name(proof_uuid));
            let uuid = choose|uuid: Seq<char>|
                file_name@ == #[trigger] work_dir_name(uuid) && active@.contains(uuid);
            crate::uploads::work_dir_is_recognized(uuid);
            assert(uuid =~= proof_uuid);
        },
    }
}

/// A proof is in use from when it is activated until it is released, and the use of
/// other proofs does not change meanwhile.
pub proof fn uploads_are_in_use_until_released(
    activated: &mut ActiveUploads,
    proof_uuid: &str,
    released: &mut ActiveUploads,
    root: &str,
    dir: String,
    other: Seq<char>,
)
    requires
        call_ensures(ActiveUploads::activate, (activated, proof_uuid), ()),
        call_ensures(ActiveUploads::release, (released, root, proof_uuid), dir),
        *final(activated) == *old(released),
    ensures
        final(activated)@.contains(proof_uuid@),
        !final(released)@.contains(proof_uuid@),
        dir@ == joined_path(root@, "edge_"@ + proof_uuid@),
        other != proof_uuid@ ==> final(activated)@.contains(other) == old(activated)@.contains(
            other,
        ) && final(released)@.contains(other) == old(activated)@.contains(other),
{
}

/// A proof that was activated is in use, and one that was released is not.
pub proof fn use_is_seen(
    activated: &mut ActiveUploads,
    released: &mut ActiveUploads,
    root: &str,
    proof_uuid: &str,
    dir: String,
    before: bool,
    after: bool,
)
    requires
        call_ensures(ActiveUploads::activate, (activated, proof_uuid), ()),
        call_ensures(ActiveUploads::release, (released, root, proof_uuid), dir),
        call_ensures(ActiveUploads::is_active, (&*final(activated), proof_uuid), before),
        call_ensures(ActiveUploads::is_active, (&*final(released), proof_uuid), after),
    ensures
        before,
        !after,
{
}

} // verus!
