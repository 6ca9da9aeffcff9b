//! Finding and applying the highest limit on open file descriptors that the
//! operating system grants.

use vstd::prelude::*;

verus! {

/// The smallest limit that is ever requested. It is taken as granted without
/// being asked for.
pub const LOWEST_LIMIT: u64 = 1;

/// The largest limit that is ever requested.
pub const HIGHEST_LIMIT: u64 = 65536;

/// The soft limit that a request left in force: the value that the operating
/// system reported, or zero where the request failed.
pub open spec fn granted(outcome: Option<u64>) -> u64 {
    match outcome {
        Some(limit) => limit,
        None => 0,
    }
}

/// A request is accepted when the limit then in force is at least the one
/// asked for. A failed request counts as zero granted.
pub open spec fn accepted(requested: u64, outcome: Option<u64>) -> bool {
    granted(outcome) >= requested
}

/// Classifies the outcome of one request to raise the limit to `requested`.
pub fn probe_accepted(requested: u64, outcome: Option<u64>) -> (ok: bool)
    ensures
        ok == accepted(requested, outcome),
{
    match outcome {
        Some(limit) => limit >= requested,
        None => 0 >= requested,
    }
}

/// `accepts` is what `probe` computes: whatever `probe` answers about a
/// candidate is the value of `accepts` there.
pub open spec fn decided_by<F: Fn(u64) -> bool>(probe: F, accepts: spec_fn(u64) -> bool) -> bool {
    forall|n: u64, answer: bool| #[trigger] call_ensures(probe, (n,), answer) ==> answer == accepts(n)
}

/// Over the candidates, whatever lies below an accepted limit is accepted too.
pub open spec fn monotone(accepts: spec_fn(u64) -> bool) -> bool {
    forall|m: u64, n: u64|
        LOWEST_LIMIT <= m <= n <= HIGHEST_LIMIT && #[trigger] accepts(n) ==> #[trigger] accepts(m)
}

/// `boundary` is a candidate that `accepts` holds of, unless it is the lowest
/// one, and `accepts` does not hold of its successor, unless it is the
/// highest one.
pub open spec fn is_boundary(accepts: spec_fn(u64) -> bool, boundary: u64) -> bool {
    &&& LOWEST_LIMIT <= boundary <= HIGHEST_LIMIT
    &&& boundary == LOWEST_LIMIT || accepts(boundary)
    &&& boundary == HIGHEST_LIMIT || !accepts((boundary + 1) as u64)
}

/// `largest` is the largest candidate that `accepts` holds of, or
/// `LOWEST_LIMIT` where it holds of no candidate above that.
pub open spec fn is_largest_accepted(accepts: spec_fn(u64) -> bool, largest: u64) -> bool {
    &&& LOWEST_LIMIT <= largest <= HIGHEST_LIMIT
    &&& largest == LOWEST_LIMIT || accepts(largest)
    &&& forall|n: u64| largest < n <= HIGHEST_LIMIT ==> !#[trigger] accepts(n)
}

/// For a monotone predicate, a boundary is the largest accepted candidate.
pub proof fn lemma_boundary_is_largest(accepts: spec_fn(u64) -> bool, boundary: u64)
    requires
        monotone(accepts),
        is_boundary(accepts, boundary),
    ensures
        is_largest_accepted(accepts, boundary),
{
    assert forall|n: u64| boundary < n <= HIGHEST_LIMIT implies !#[trigger] accepts(n) by {
        if accepts(n) {
            assert(accepts((boundary + 1) as u64));
        }
    }
}

/// No predicate has two largest accepted candidates.
pub proof fn lemma_largest_accepted_unique(accepts: spec_fn(u64) -> bool, a: u64, b: u64)
    requires
        is_largest_accepted(accepts, a),
        is_largest_accepted(accepts, b),
    ensures
        a == b,
{
}

/// Where every candidate is rejected, the only boundary is the lowest
/// candidate.
pub proof fn lemma_all_rejected(accepts: spec_fn(u64) -> bool, boundary: u64)
    requires
        is_boundary(accepts, boundary),
        forall|n: u64| LOWEST_LIMIT <= n <= HIGHEST_LIMIT ==> !#[trigger] accepts(n),
    ensures
        boundary == LOWEST_LIMIT,
{
}

/// Where every candidate is accepted, the only boundary is the highest
/// candidate.
pub proof fn lemma_all_accepted(accepts: spec_fn(u64) -> bool, boundary: u64)
    requires
        is_boundary(accepts, boundary),
        forall|n: u64| LOWEST_LIMIT <= n <= HIGHEST_LIMIT ==> #[trigger] accepts(n),
    ensures
        boundary == HIGHEST_LIMIT,
{
    if boundary < HIGHEST_LIMIT {
        assert(accepts((boundary + 1) as u64));
    }
}

/// `rlimit::utils::increase_nofile_limit`: asks the operating system to raise
/// the soft limit on open file descriptors to `limit`, and gives what that
/// function reports as the soft limit then in force, or `None` where a system
/// call failed.
///
/// Trusted. Nothing is claimed of the answer: it is the operating system's.
#[verifier::external_body]
fn raise_nofile_limit(limit: u64) -> (outcome: Option<u64>)
{
    rlimit::utils::increase_nofile_limit(limit).ok()
}

/// The number of times that a distance between two bounds can be halved,
/// rounding up, before the bounds are neighbours.
spec fn halvings(distance: nat) -> nat
    decreases distance,
{
    if distance <= 1 {
        0
    } else {
        1 + halvings((distance + 1) / 2)
    }
}

/// A probe together with the number of times that it has been asked.
struct Counted<F> {
    probe: F,
    asked: u64,
}

impl<F: Fn(u64) -> bool> Counted<F> {
    /// Asks the probe about `candidate`, and counts the question.
    fn ask(&mut self, candidate: u64) -> (answer: bool)
        requires
            call_requires(old(self).probe, (candidate,)),
            old(self).asked < u64::MAX,
        ensures
            call_ensures(old(self).probe, (candidate,), answer),
            final(self).probe == old(self).probe,
            final(self).asked == old(self).asked + 1,
    {
        self.asked = self.asked + 1;
        (self.probe)(candidate)
    }
}

/// `binary_search::binary_search` on `u64` candidates, with `counted`
/// deciding for each candidate whether it is still low (`true`) or already
/// high (`false`).
///
/// Trusted. The claim: the search asks only about candidates strictly
/// between `low` and `high`, and ends with two neighbouring candidates; the
/// lower one is `low` itself or one that was called low, the upper one is
/// `high` itself or one that was called high. Each question leaves at most
/// half of the distance between the bounds, rounded up, so there are at most
/// `halvings(high - low)` questions.
#[verifier::external_body]
fn bisect<F: Fn(u64) -> bool>(low: u64, high: u64, counted: &mut Counted<F>) -> (bounds: (
    u64,
    u64,
))
    requires
        low < high,
        forall|n: u64| low < n < high ==> call_requires(old(counted).probe, (n,)),
        old(counted).asked + halvings((high - low) as nat) <= u64::MAX,
    ensures
        low <= bounds.0,
        bounds.1 <= high,
        bounds.1 == bounds.0 + 1,
        bounds.0 == low || call_ensures(old(counted).probe, (bounds.0,), true),
        bounds.1 == high || call_ensures(old(counted).probe, (bounds.1,), false),
        final(counted).probe == old(counted).probe,
        old(counted).asked <= final(counted).asked <= old(counted).asked + halvings(
            (high - low) as nat,
        ),
{
    let ((largest_low, _), (smallest_high, _)) =
        binary_search::binary_search((low, ()), (high, ()), |n| {
            if counted.ask(n) {
                binary_search::Direction::Low(())
            } else {
                binary_search::Direction::High(())
            }
        });
    (largest_low, smallest_high)
}

/// The most probes that a search over the candidates makes.
pub const MOST_PROBES: u64 = 16;

/// The distance from the lowest candidate to the first value above the
/// highest one is halved `MOST_PROBES` times.
proof fn lemma_most_probes()
    ensures
        halvings((HIGHEST_LIMIT + 1 - LOWEST_LIMIT) as nat) == MOST_PROBES,
{
    reveal_with_fuel(halvings, 18);
}

/// What a search found: the largest accepted candidate, and the number of
/// probes that it took.
#[derive(Clone, Copy, Debug, PartialEq, Eq, Structural)]
pub struct Found {
    pub largest: u64,
    pub probes: u64,
}

/// Searches the candidates from `LOWEST_LIMIT` to `HIGHEST_LIMIT` for the
/// largest one that `probe` accepts, by bisection, in at most `MOST_PROBES`
/// probes.
///
/// `LOWEST_LIMIT` is never probed: it is the answer when nothing above it is
/// accepted. The result is a boundary of `probe`: it was accepted (or is the
/// lowest candidate), and its successor was rejected (or it is the highest
/// candidate). Where `probe` computes a monotone predicate, that boundary is
/// the largest accepted candidate.
pub fn largest_accepted<F: Fn(u64) -> bool>(probe: F) -> (found: Found)
    requires
        forall|n: u64| LOWEST_LIMIT < n <= HIGHEST_LIMIT ==> call_requires(probe, (n,)),
    ensures
        LOWEST_LIMIT <= found.largest <= HIGHEST_LIMIT,
        found.largest == LOWEST_LIMIT || call_ensures(probe, (found.largest,), true),
        found.largest == HIGHEST_LIMIT || call_ensures(
            probe,
            ((found.largest + 1) as u64,),
            false,
        ),
        forall|accepts: spec_fn(u64) -> bool| #[trigger]
            decided_by(probe, accepts) ==> is_boundary(accepts, found.largest),
        forall|accepts: spec_fn(u64) -> bool|
            #[trigger] decided_by(probe, accepts) && monotone(accepts) ==> is_largest_accepted(
                accepts,
                found.largest,
            ),
        found.probes <= MOST_PROBES,
{
    let mut counted = Counted { probe, asked: 0 };
    proof {
        lemma_most_probes();
    }
    let bounds = bisect(LOWEST_LIMIT, HIGHEST_LIMIT + 1, &mut counted);
    let largest = bounds.0;
    assert forall|accepts: spec_fn(u64) -> bool|
        #[trigger] decided_by(probe, accepts) && monotone(accepts) implies is_largest_accepted(
        accepts,
        largest,
    ) by {
        lemma_boundary_is_largest(accepts, largest);
    }
    Found { largest, probes: counted.asked }
}

/// `outcome` is an answer that the operating system has given to a request
/// to raise the limit to `limit`. Nothing is known of the operating system
/// but what its answers show.
pub closed spec fn answered(limit: u64, outcome: Option<u64>) -> bool {
    call_ensures(raise_nofile_limit, (limit,), outcome)
}

/// The operating system has accepted a request to raise the limit to
/// `limit`.
pub open spec fn was_accepted(limit: u64) -> bool {
    exists|outcome: Option<u64>| #[trigger] answered(limit, outcome) && accepted(limit, outcome)
}

/// The operating system has rejected a request to raise the limit to
/// `limit`.
pub open spec fn was_rejected(limit: u64) -> bool {
    exists|outcome: Option<u64>| #[trigger] answered(limit, outcome) && !accepted(limit, outcome)
}

/// Raises the soft limit on open file descriptors as far as the operating
/// system allows, up to `HIGHEST_LIMIT`, and returns the limit that was
/// applied.
///
/// The limit applied is a boundary of the operating system's answers: a
/// request for it was accepted, unless it is `LOWEST_LIMIT`, which is not
/// asked about, and a request for its successor was rejected, unless it is
/// `HIGHEST_LIMIT`. A last request for the limit applied is made when the
/// search is over; its failure is not an error: the limit then stays where
/// the search left it.
pub fn maximize_fd_limit() -> (applied: u64)
    ensures
        LOWEST_LIMIT <= applied <= HIGHEST_LIMIT,
        applied == LOWEST_LIMIT || was_accepted(applied),
        applied == HIGHEST_LIMIT || was_rejected((applied + 1) as u64),
        exists|last: Option<u64>| answered(applied, last),
{
    let probe = |n: u64| -> (ok: bool)
        ensures
            ok ==> was_accepted(n),
            !ok ==> was_rejected(n),
        {
            let outcome = raise_nofile_limit(n);
            assert(answered(n, outcome));
            probe_accepted(n, outcome)
        };
    let found = largest_accepted(probe);
    let last = raise_nofile_limit(found.largest);
    assert(answered(found.largest, last));
    found.largest
}

} // verus!
