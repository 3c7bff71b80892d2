//! Cancellation of proofs already dispatched to this worker.
//!
//! Canceling drops the proof from the manager's state at once, but the jobs it
//! already dispatched keep running here. Recording the cancellation lets the
//! proving loops stop at their next segment instead of running the whole job out.

use std::collections::VecDeque;

use vstd::prelude::*;

use crate::text::same_text;

verus! {

/// How many canceled proofs to remember. This only has to outlive the jobs still
/// running for them.
pub const REMEMBERED_CANCELLATIONS: usize = 64;

/// The most recent cancellations, oldest first.
pub struct Cancellations {
    order: VecDeque<String>,
}

/// Whether no text occurs twice in `s`.
pub open spec fn no_repeats(s: Seq<Seq<char>>) -> bool {
    forall|i: int, j: int| 0 <= i < j < s.len() ==> #[trigger] s[i] != #[trigger] s[j]
}

/// The record after one more cancellation: a proof already recorded changes
/// nothing, a new one goes to the end, and the oldest goes once the record is full.
pub open spec fn recorded(s: Seq<Seq<char>>, proof_uuid: Seq<char>) -> Seq<Seq<char>> {
    if s.contains(proof_uuid) {
        s
    } else if s.len() < REMEMBERED_CANCELLATIONS {
        s.push(proof_uuid)
    } else {
        s.drop_first().push(proof_uuid)
    }
}

/// The record after the cancellations `uuids`, in order.
pub open spec fn recorded_all(s: Seq<Seq<char>>, uuids: Seq<Seq<char>>) -> Seq<Seq<char>>
    decreases uuids.len(),
{
    if uuids.len() == 0 {
        s
    } else {
        recorded(recorded_all(s, uuids.drop_last()), uuids.last())
    }
}

spec fn texts(order: Seq<String>) -> Seq<Seq<char>> {
    Seq::new(order.len(), |i: int| order[i]@)
}

impl View for Cancellations {
    type V = Seq<Seq<char>>;

    closed spec fn view(&self) -> Seq<Seq<char>> {
        texts(self.order@)
    }
}

impl Cancellations {
    /// Each proof is recorded once, and no more than the bound of them.
    #[verifier::type_invariant]
    spec fn inv(self) -> bool {
        &&& self@.len() <= REMEMBERED_CANCELLATIONS
        &&& no_repeats(self@)
    }

    pub fn new() -> (r: Self)
        ensures
            r@ == Seq::<Seq<char>>::empty(),
    {
        let r = Cancellations { order: VecDeque::new() };
        assert(r@ =~= Seq::<Seq<char>>::empty());
        r
    }

    /// The record holds each proof once and stays within its bound.
    pub fn len(&self) -> (n: usize)
        ensures
            n == self@.len(),
            n <= REMEMBERED_CANCELLATIONS,
            no_repeats(self@),
    {
        proof {
            use_type_invariant(self);
        }
        self.order.len()
    }
}

/// Record in `cancellations` that `proof_uuid` is canceled.
pub fn cancel(cancellations: &mut Cancellations, proof_uuid: String)
    ensures
        final(cancellations)@ == recorded(old(cancellations)@, proof_uuid@),
{
    proof {
        use_type_invariant(&*cancellations);
    }
    if is_cancelled(cancellations, proof_uuid.as_str()) {
        return;
    }
    let ghost before = cancellations@;
    let ghost uuid = proof_uuid@;
    let mut order: VecDeque<String> = VecDeque::new();
    std::mem::swap(&mut order, &mut cancellations.order);
    let ghost kept = texts(order@);
    assert(kept =~= before);
    order.push_back(proof_uuid);
    assert(texts(order@) =~= before.push(uuid));
    if order.len() > REMEMBERED_CANCELLATIONS {
        let _ = order.pop_front();
        assert(texts(order@) =~= before.drop_first().push(uuid));
    }
    proof {
        assert(texts(order@) =~= recorded(before, uuid));
        recorded_keeps_bound(before, uuid);
    }
    cancellations.order = order;
}

/// Recording a cancellation keeps each proof recorded once, within the bound.
pub proof fn recorded_keeps_bound(s: Seq<Seq<char>>, proof_uuid: Seq<char>)
    requires
        s.len() <= REMEMBERED_CANCELLATIONS,
        no_repeats(s),
    ensures
        recorded(s, proof_uuid).len() <= REMEMBERED_CANCELLATIONS,
        no_repeats(recorded(s, proof_uuid)),
        recorded(s, proof_uuid).contains(proof_uuid),
{
    let r = recorded(s, proof_uuid);
    if !s.contains(proof_uuid) {
        assert(r.last() == proof_uuid);
        assert(r[r.len() - 1] == proof_uuid);
        assert forall|i: int, j: int| 0 <= i < j < r.len() implies #[trigger] r[i]
            != #[trigger] r[j] by {
            let off: int = if s.len() < REMEMBERED_CANCELLATIONS {
                0
            } else {
                1
            };
            assert(r[i] == s[i + off]);
            if j < r.len() - 1 {
                assert(r[j] == s[j + off]);
            }
        }
    }
}

/// Canceling a proof twice in a row is canceling it once.
pub proof fn cancel_is_idempotent(s: Seq<Seq<char>>, proof_uuid: Seq<char>)
    requires
        s.len() <= REMEMBERED_CANCELLATIONS,
        no_repeats(s),
    ensures
        recorded(recorded(s, proof_uuid), proof_uuid) == recorded(s, proof_uuid),
{
    recorded_keeps_bound(s, proof_uuid);
}

/// How many cancellations among `uuids` name a proof that is new to the record at
/// that point.
pub open spec fn fresh_count(s: Seq<Seq<char>>, uuids: Seq<Seq<char>>) -> nat
    decreases uuids.len(),
{
    if uuids.len() == 0 {
        0
    } else {
        let rest = uuids.drop_last();
        fresh_count(s, rest) + if recorded_all(s, rest).contains(uuids.last()) {
            0nat
        } else {
            1nat
        }
    }
}

/// A canceled proof stays canceled for as long as fewer than the bound of other
/// proofs are newly canceled after it; with the bound of them it is forgotten, if
/// it is not canceled again.
pub proof fn canceled_until_the_bound(
    s: Seq<Seq<char>>,
    proof_uuid: Seq<char>,
    uuids: Seq<Seq<char>>,
)
    requires
        s.len() <= REMEMBERED_CANCELLATIONS,
        no_repeats(s),
        !s.contains(proof_uuid),
        !uuids.contains(proof_uuid),
    ensures
        ({
            let after = recorded_all(recorded(s, proof_uuid), uuids);
            let fresh = fresh_count(recorded(s, proof_uuid), uuids);
            &&& after.len() <= REMEMBERED_CANCELLATIONS
            &&& no_repeats(after)
            &&& after.contains(proof_uuid) <==> fresh < REMEMBERED_CANCELLATIONS
            &&& fresh < REMEMBERED_CANCELLATIONS ==> after.len() > fresh && after[after.len() - 1
                - fresh] == proof_uuid
        }),
    decreases uuids.len(),
{
    let start = recorded(s, proof_uuid);
    recorded_keeps_bound(s, proof_uuid);
    if uuids.len() == 0 {
        assert(start[start.len() - 1] == proof_uuid);
    } else {
        let rest = uuids.drop_last();
        assert(!rest.contains(proof_uuid)) by {
            if rest.contains(proof_uuid) {
                let i = choose|i: int| 0 <= i < rest.len() && rest[i] == proof_uuid;
                assert(uuids[i] == proof_uuid);
            }
        }
        canceled_until_the_bound(s, proof_uuid, rest);
        let before = recorded_all(start, rest);
        let fresh = fresh_count(start, rest);
        let last = uuids.last();
        assert(last != proof_uuid) by {
            assert(uuids[uuids.len() - 1] == last);
        }
        recorded_keeps_bound(before, last);
        let after = recorded(before, last);
        if !before.contains(last) {
            let off: int = if before.len() < REMEMBERED_CANCELLATIONS {
                0
            } else {
                1
            };
            assert forall|i: int| 0 <= i < after.len() - 1 implies after[i] == before[i
                + off] by {}
            if fresh < REMEMBERED_CANCELLATIONS {
                let at = before.len() - 1 - fresh;
                if at >= off {
                    assert(after[at - off] == proof_uuid);
                } else {
                    assert(fresh + 1 == REMEMBERED_CANCELLATIONS);
                    if after.contains(proof_uuid) {
                        let i = choose|i: int| 0 <= i < after.len() && after[i] == proof_uuid;
                        assert(i < after.len() - 1);
                        assert(before[i + off] == proof_uuid);
                        assert(before[at] == proof_uuid);
                    }
                }
            } else {
                if after.contains(proof_uuid) {
                    let i = choose|i: int| 0 <= i < after.len() && after[i] == proof_uuid;
                    assert(i < after.len() - 1);
                    assert(before[i + off] == proof_uuid);
                    assert(before.contains(proof_uuid));
                }
            }
        }
    }
}

/// Whether `proof_uuid` is canceled. Read once per segment.
pub fn is_cancelled(cancellations: &Cancellations, proof_uuid: &str) -> (r: bool)
    ensures
        r == cancellations@.contains(proof_uuid@),
{
    let mut i: usize = 0;
    let n = cancellations.order.len();
    while i < n
        invariant
            n == cancellations.order@.len(),
            i <= n,
            forall|j: int| 0 <= j < i ==> #[trigger] cancellations@[j] != proof_uuid@,
        decreases n - i,
    {
        if same_text(cancellations.order[i].as_str(), proof_uuid) {
            assert(cancellations@[i as int] == proof_uuid@);
            return true;
        }
        i = i + 1;
    }
    false
}

/// A cancellation that is new is the newest on record. Up to sixty-four are remembered:
/// with fewer none is lost, and otherwise the oldest, and no other, goes. One that is
/// already on record changes nothing.
pub proof fn cancellations_are_remembered(
    record: &mut Cancellations,
    proof_uuid: String,
    before: Seq<Seq<char>>,
    after: Seq<Seq<char>>,
    earlier: Seq<char>,
)
    requires
        call_ensures(cancel, (record, proof_uuid), ()),
        before == old(record)@,
        after == final(record)@,
    ensures
        after.contains(proof_uuid@),
        before.contains(proof_uuid@) ==> after == before,
        !before.contains(proof_uuid@) ==> after.len() > 0 && after[after.len() - 1] == proof_uuid@,
        before.len() < 64 && before.contains(earlier) ==> after.contains(earlier),
        !before.contains(proof_uuid@) && before.len() < 64 ==> after.len() == before.len() + 1,
        !before.contains(proof_uuid@) && before.len() >= 64 ==> after.len() == before.len()
            && forall|i: int|
            0 <= i < before.len() - 1 ==> #[trigger] after[i] == before[i + 1],
{
    if !before.contains(proof_uuid@) {
        assert(after[after.len() - 1] == proof_uuid@);
    }
    if before.len() < 64 && before.contains(earlier) {
        let i = choose|i: int| 0 <= i < before.len() && before[i] == earlier;
        assert(after[i] == earlier);
    }
}

/// A proof is canceled exactly if it is somewhere on record.
pub proof fn canceled_proofs_are_on_record(
    cancellations: &Cancellations,
    proof_uuid: &str,
    r: bool,
)
    requires
        call_ensures(is_cancelled, (cancellations, proof_uuid), r),
    ensures
        r <==> exists|i: int|
            0 <= i < cancellations@.len() && #[trigger] cancellations@[i] == proof_uuid@,
{
}

} // verus!
