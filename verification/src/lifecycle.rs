//! Release discipline for owned native resources.
//!
//! A voice or waveform resource is exclusively owned: it is live from
//! construction until its owner is destroyed, and the destruction path
//! invokes the engine's free routine exactly once. `release_step` is the
//! decision that destruction path takes, and the trace law below states
//! that following it can neither leak the resource nor free it twice.

use vstd::prelude::*;

verus! {

/// The lifecycle of one owned native resource.
#[derive(Clone, Copy, Debug, PartialEq, Eq, Structural)]
pub enum HandleState {
    /// The resource is owned and usable; it has not been freed.
    Live,
    /// The resource has been handed back to the engine's free routine.
    Released,
}

/// The transitions a resource's lifecycle may take: once released, a
/// resource never becomes live again.
pub open spec fn handle_steps_to(s: HandleState, t: HandleState) -> bool {
    ||| (s is Live)
    ||| (s is Released && t is Released)
}

/// Whether the step from `s` to `t` is the one that invokes the engine's
/// free routine.
pub open spec fn frees(s: HandleState, t: HandleState) -> bool {
    s is Live && t is Released
}

/// A history of one resource's lifecycle states in which each state
/// follows from the one before it by an allowed transition.
pub open spec fn valid_handle_trace(t: Seq<HandleState>) -> bool {
    forall|i: int| 0 <= i && i + 1 < t.len() ==> handle_steps_to(#[trigger] t[i], t[i + 1])
}

/// Decides, on the destruction path, the next lifecycle state and whether
/// the engine's free routine must be invoked now.
pub fn release_step(s: HandleState) -> (r: (HandleState, bool))
    ensures
        r.0 is Released,
        handle_steps_to(s, r.0),
        r.1 <==> (s is Live),
        r.1 <==> frees(s, r.0),
{
    match s {
        HandleState::Live => (HandleState::Released, true),
        HandleState::Released => (HandleState::Released, false),
    }
}

/// Law: along any valid lifecycle trace of one resource that begins live
/// and ends released, the engine's free routine is invoked exactly once —
/// the resource is neither leaked nor freed twice.
pub proof fn lemma_free_exactly_once(t: Seq<HandleState>)
    requires
        valid_handle_trace(t),
        t.len() >= 1,
        t[0] is Live,
        t[t.len() - 1] is Released,
    ensures
        exists|i: int| 0 <= i && i + 1 < t.len() && frees(#[trigger] t[i], t[i + 1]),
        forall|i: int, j: int|
            (0 <= i && i + 1 < t.len() && 0 <= j && j + 1 < t.len() && frees(
                #[trigger] t[i],
                t[i + 1],
            ) && frees(#[trigger] t[j], t[j + 1])) ==> i == j,
{
    lemma_free_reached(t, t.len() - 1);
    assert forall|i: int, j: int|
        (0 <= i && i + 1 < t.len() && 0 <= j && j + 1 < t.len() && frees(#[trigger] t[i], t[i + 1])
            && frees(#[trigger] t[j], t[j + 1])) implies i == j by {
        if i < j {
            lemma_stays_released(t, i + 1, j);
        } else if j < i {
            lemma_stays_released(t, j + 1, i);
        }
    }
}

/// Once released, a resource is still released at every later position of
/// a valid trace.
proof fn lemma_stays_released(t: Seq<HandleState>, i: int, j: int)
    requires
        valid_handle_trace(t),
        0 <= i <= j < t.len(),
        t[i] is Released,
    ensures
        t[j] is Released,
    decreases j - i,
{
    if i < j {
        assert(handle_steps_to(t[i], t[i + 1]));
        lemma_stays_released(t, i + 1, j);
    }
}

/// A valid trace that is released by position `n` after starting live
/// contains a freeing step before `n`.
proof fn lemma_free_reached(t: Seq<HandleState>, n: int)
    requires
        valid_handle_trace(t),
        0 <= n < t.len(),
        t[0] is Live,
        t[n] is Released,
    ensures
        exists|i: int| 0 <= i < n && frees(#[trigger] t[i], t[i + 1]),
    decreases n,
{
    if t[n - 1] is Live {
        assert(frees(t[n - 1], t[n - 1 + 1]));
    } else {
        lemma_free_reached(t, n - 1);
    }
}

} // verus!
