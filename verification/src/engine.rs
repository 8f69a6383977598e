//! One-time engine initialization, modeled as a small state machine.
//!
//! The process-wide engine state moves from `Uninitialized` through
//! `Initializing` to `Initialized` and never back. `init_step` is the
//! decision every caller takes under the initialization barrier: the
//! caller that finds the state `Uninitialized` performs the bootstrap
//! side effects (base engine setup plus the fixed language registrations)
//! and then records completion with `bootstrap_done`; every other caller
//! either waits for that completion or proceeds at once.

use vstd::prelude::*;

verus! {

/// The process-wide lifecycle of the engine's global state.
#[derive(Clone, Copy, Debug, PartialEq, Eq, Structural)]
pub enum EngineState {
    /// No caller has started the bootstrap side effects yet.
    Uninitialized,
    /// One caller is performing the bootstrap side effects.
    Initializing,
    /// The bootstrap side effects have completed.
    Initialized,
}

/// What a caller of the initialization barrier must do next.
#[derive(Clone, Copy, Debug, PartialEq, Eq, Structural)]
pub enum InitAction {
    /// Perform the bootstrap side effects, then call `bootstrap_done`.
    Bootstrap,
    /// Another caller is bootstrapping; wait until the state advances.
    Wait,
    /// Initialization has completed; proceed.
    Ready,
}

/// The decision taken on observing state `s`.
pub open spec fn spec_init_step(s: EngineState) -> (EngineState, InitAction) {
    match s {
        EngineState::Uninitialized => (EngineState::Initializing, InitAction::Bootstrap),
        EngineState::Initializing => (EngineState::Initializing, InitAction::Wait),
        EngineState::Initialized => (EngineState::Initialized, InitAction::Ready),
    }
}

/// The transitions the engine state may take: forward only.
pub open spec fn steps_to(s: EngineState, t: EngineState) -> bool {
    ||| (s is Uninitialized && t is Initializing)
    ||| (s is Initializing && (t is Initializing || t is Initialized))
    ||| (s is Initialized && t is Initialized)
}

/// Whether the step from `s` to `t` is the one that performs the bootstrap
/// side effects.
pub open spec fn bootstraps(s: EngineState, t: EngineState) -> bool {
    s is Uninitialized && t is Initializing
}

/// How far the state has advanced; `steps_to` never decreases it.
pub open spec fn rank(s: EngineState) -> int {
    match s {
        EngineState::Uninitialized => 0,
        EngineState::Initializing => 1,
        EngineState::Initialized => 2,
    }
}

/// A history of observed engine states in which each state follows from
/// the one before it by an allowed transition.
pub open spec fn valid_trace(t: Seq<EngineState>) -> bool {
    forall|i: int| 0 <= i && i + 1 < t.len() ==> steps_to(#[trigger] t[i], t[i + 1])
}

/// Decides, from the state a caller observes, the next state to record and
/// the action the caller must take.
pub fn init_step(s: EngineState) -> (r: (EngineState, InitAction))
    ensures
        r == spec_init_step(s),
        steps_to(s, r.0),
        (r.1 is Bootstrap) <==> (s is Uninitialized),
{
    match s {
        EngineState::Uninitialized => (EngineState::Initializing, InitAction::Bootstrap),
        EngineState::Initializing => (EngineState::Initializing, InitAction::Wait),
        EngineState::Initialized => (EngineState::Initialized, InitAction::Ready),
    }
}

/// Records that the bootstrapping caller has finished its side effects.
pub fn bootstrap_done(s: EngineState) -> (r: EngineState)
    requires
        s is Initializing,
    ensures
        r is Initialized,
        steps_to(s, r),
{
    EngineState::Initialized
}

/// The language names the bootstrap registers, in order: "eng" and
/// "usenglish", each bound to the engine's fixed language-setup and
/// lexicon-setup routines.
pub fn bootstrap_languages() -> (r: Vec<Vec<u8>>)
    ensures
        r@.len() == 2,
        r@[0]@ == seq![101u8, 110u8, 103u8],
        r@[1]@ == seq![
            117u8,
            115u8,
            101u8,
            110u8,
            103u8,
            108u8,
            105u8,
            115u8,
            104u8,
        ],
{
    let eng: Vec<u8> = vec![101u8, 110u8, 103u8];
    let usenglish: Vec<u8> = vec![117u8, 115u8, 101u8, 110u8, 103u8, 108u8, 105u8, 115u8, 104u8];
    let r: Vec<Vec<u8>> = vec![eng, usenglish];
    r
}

/// Along a valid trace the state only advances.
proof fn lemma_rank_monotone(t: Seq<EngineState>, i: int, j: int)
    requires
        valid_trace(t),
        0 <= i <= j < t.len(),
    ensures
        rank(t[i]) <= rank(t[j]),
    decreases j - i,
{
    if i < j {
        lemma_rank_monotone(t, i, j - 1);
        assert(steps_to(t[j - 1], t[j - 1 + 1]));
    }
}

/// A valid trace that has left `Uninitialized` by position `n` contains a
/// bootstrap step before `n`.
proof fn lemma_bootstrap_reached(t: Seq<EngineState>, n: int)
    requires
        valid_trace(t),
        0 <= n < t.len(),
        t[0] is Uninitialized,
        !(t[n] is Uninitialized),
    ensures
        exists|i: int| 0 <= i < n && bootstraps(#[trigger] t[i], t[i + 1]),
    decreases n,
{
    if t[n - 1] is Uninitialized {
        assert(steps_to(t[n - 1], t[n - 1 + 1]));
        assert(bootstraps(t[n - 1], t[n - 1 + 1]));
    } else {
        lemma_bootstrap_reached(t, n - 1);
    }
}

/// Law: along any valid trace of engine states that begins uninitialized
/// and has left the uninitialized state by its end, the bootstrap
/// transition — the one whose caller performs the initialization side
/// effects — occurs exactly once.
pub proof fn lemma_bootstrap_exactly_once(t: Seq<EngineState>)
    requires
        valid_trace(t),
        t.len() >= 1,
        t[0] is Uninitialized,
        !(t[t.len() - 1] is Uninitialized),
    ensures
        exists|i: int| 0 <= i && i + 1 < t.len() && bootstraps(#[trigger] t[i], t[i + 1]),
        forall|i: int, j: int|
            (0 <= i && i + 1 < t.len() && 0 <= j && j + 1 < t.len() && bootstraps(
                #[trigger] t[i],
                t[i + 1],
            ) && bootstraps(#[trigger] t[j], t[j + 1])) ==> i == j,
{
    lemma_bootstrap_reached(t, t.len() - 1);
    assert forall|i: int, j: int|
        (0 <= i && i + 1 < t.len() && 0 <= j && j + 1 < t.len() && bootstraps(
            #[trigger] t[i],
            t[i + 1],
        ) && bootstraps(#[trigger] t[j], t[j + 1])) implies i == j by {
        if i < j {
            lemma_rank_monotone(t, i + 1, j);
        } else if j < i {
            lemma_rank_monotone(t, j + 1, i);
        }
    }
}

} // verus!
