//! The event-loop decisions: from one polled observation to the host
//! actions it demands and to whether the loop keeps running.
//!
//! The loop itself lives with the embedder on a dedicated thread: it
//! polls the session context, hands each observation to [`react`], and
//! performs the returned actions in order. Everything the loop decides
//! — which host calls to make, in what order, when to take the context
//! out of the slot, and when to stop — is decided and proved here.

use crate::slot::{op_step, ContextSlot, SlotOp};
use vstd::prelude::*;

verus! {

/// How long the loop sleeps after a poll that produced no event.
pub const POLL_BACKOFF_MS: u64 = 100;

/// An event produced by the session context's poll operation.
#[derive(Clone, Copy, Debug, PartialEq, Eq, Structural)]
pub enum SessionEvent {
    ClientConnected,
    ClientDisconnected,
    ShutdownPending,
    RestartPending,
}

/// What one poll iteration observed: a session event, no event yet, or
/// a slot already emptied by a concurrent shutdown.
#[derive(Clone, Copy, Debug, PartialEq, Eq, Structural)]
pub enum PollOutcome {
    Event(SessionEvent),
    NoEvent,
    SlotEmpty,
}

/// One imperative action the embedder performs on the bridge's behalf,
/// either on the host runtime or on the session context.
#[derive(Clone, Copy, Debug, PartialEq, Eq, Structural)]
pub enum Action {
    /// Acquire the host client resources, once, at loop entry.
    InitClient,
    /// Reset the default play-area boundary (only ever at loop entry,
    /// and only on the loop's own thread).
    SetDefaultPlayArea,
    /// Start the session context's connection, once, at loop entry.
    StartConnection,
    /// Host call: enable streaming.
    InitializeStreaming,
    /// Host call: request a fresh timing baseline.
    RequestResync,
    /// Host call: tear streaming down.
    DeinitializeStreaming,
    /// Invoke the taken session context's one-shot restart handoff.
    RestartContext,
    /// Host call: shut the host runtime down.
    ShutdownHost,
    /// Sleep for [`POLL_BACKOFF_MS`] before polling again.
    SleepBackoff,
    /// Release the host client resources, once, after the loop ends.
    ShutdownClient,
}

/// The actions one observation demands, in the exact order they must
/// be performed. `active` is whether the slot still held a context
/// when the observation was reacted to.
pub open spec fn step_emits(active: bool, poll: PollOutcome) -> Seq<Action> {
    match poll {
        PollOutcome::Event(event) => match event {
            SessionEvent::ClientConnected => seq![
                Action::InitializeStreaming,
                Action::RequestResync,
            ],
            SessionEvent::ClientDisconnected => seq![Action::DeinitializeStreaming],
            SessionEvent::ShutdownPending => seq![Action::ShutdownHost],
            SessionEvent::RestartPending => if active {
                seq![Action::RestartContext, Action::ShutdownHost]
            } else {
                seq![Action::ShutdownHost]
            },
        },
        PollOutcome::NoEvent => seq![Action::SleepBackoff],
        PollOutcome::SlotEmpty => Seq::empty(),
    }
}

/// Whether an observation ends the loop.
pub open spec fn step_terminates(poll: PollOutcome) -> bool {
    match poll {
        PollOutcome::Event(event) => event is ShutdownPending || event is RestartPending,
        PollOutcome::NoEvent => false,
        PollOutcome::SlotEmpty => true,
    }
}

/// Whether reacting to an observation takes the context out of the
/// slot (the two terminal session events do; nothing else touches it).
pub open spec fn step_takes(poll: PollOutcome) -> bool {
    match poll {
        PollOutcome::Event(event) => event is ShutdownPending || event is RestartPending,
        _ => false,
    }
}

/// Whether the slot still holds a context after one observation is
/// reacted to: the two terminal session events take it out, nothing
/// else changes it.
pub open spec fn step_active_after(active: bool, poll: PollOutcome) -> bool {
    if step_takes(poll) {
        false
    } else {
        active
    }
}

/// The complete action trace of one loop run over the observations in
/// `polls`, starting with the slot active or not: each step's actions
/// in order, cut off at the first terminating observation, always
/// followed by the terminal cleanup.
pub open spec fn loop_trace(active: bool, polls: Seq<PollOutcome>) -> Seq<Action>
    decreases polls.len(),
{
    if polls.len() == 0 {
        seq![Action::ShutdownClient]
    } else if step_terminates(polls[0]) {
        step_emits(active, polls[0]) + seq![Action::ShutdownClient]
    } else {
        step_emits(active, polls[0]) + loop_trace(
            step_active_after(active, polls[0]),
            polls.skip(1),
        )
    }
}

/// Law: once the loop observes the slot empty — say, because a direct
/// shutdown call took the context between two polls — it performs no
/// further host call whatsoever beyond the one terminal cleanup call,
/// whatever observations would otherwise have followed.
pub proof fn lemma_empty_slot_ends_loop(active: bool, later: Seq<PollOutcome>)
    ensures
        loop_trace(active, seq![PollOutcome::SlotEmpty] + later) == seq![Action::ShutdownClient],
{
    let polls = seq![PollOutcome::SlotEmpty] + later;
    assert(step_terminates(polls[0]));
    assert(loop_trace(active, polls) =~= seq![Action::ShutdownClient]);
}

/// Law: in every whole-loop trace, each "initialize streaming" call is
/// immediately followed by a "request resync" call, with no other call
/// interleaved between the two: the host always gets a fresh timing
/// baseline right after streaming is enabled.
#[verifier::rlimit(100)]
pub proof fn lemma_resync_follows_initialize(active: bool, polls: Seq<PollOutcome>)
    ensures
        forall|i: int|
            0 <= i < loop_trace(active, polls).len() && #[trigger] loop_trace(active, polls)[i]
                == Action::InitializeStreaming ==> i + 1 < loop_trace(active, polls).len()
                && loop_trace(active, polls)[i + 1] == Action::RequestResync,
    decreases polls.len(),
{
    let trace = loop_trace(active, polls);
    if polls.len() == 0 || step_terminates(polls[0]) {
        // The empty trace tail and every terminal step emit no
        // "initialize streaming" at all.
    } else {
        let first = step_emits(active, polls[0]);
        let rest = loop_trace(step_active_after(active, polls[0]), polls.skip(1));
        lemma_resync_follows_initialize(step_active_after(active, polls[0]), polls.skip(1));
        assert(trace == first + rest);
        assert forall|i: int|
            0 <= i < trace.len() && #[trigger] trace[i] == Action::InitializeStreaming implies i
            + 1 < trace.len() && trace[i + 1] == Action::RequestResync by {
            if i < first.len() {
                assert(trace[i] == first[i]);
                // Of the non-terminal steps only a client connection
                // emits "initialize streaming", as the first of its
                // fixed pair of actions.
                assert(polls[0] == PollOutcome::Event(SessionEvent::ClientConnected));
                assert(i == 0);
                assert(trace[1] == first[1]);
            } else {
                let j = i - first.len();
                assert(trace[i] == rest[j]);
                assert(rest[j + 1] == Action::RequestResync);
                assert(trace[i + 1] == rest[j + 1]);
            }
        }
    }
}

/// What one loop iteration tells the embedder to do.
pub struct ReactStep<T> {
    /// The actions to perform now, in order.
    pub actions: Vec<Action>,
    /// The session context taken out for a [`Action::RestartContext`]
    /// action; absent in every other case.
    pub taken: Option<T>,
    /// Whether the loop must end after these actions.
    pub terminate: bool,
}

/// Reacts to one polled observation.
///
/// - `ClientConnected`: exactly one "initialize streaming" call
///   immediately followed by exactly one "request resync" call, in
///   that order, with nothing in between; the loop continues.
/// - `ClientDisconnected`: exactly one "deinitialize streaming" call;
///   the loop continues.
/// - `ShutdownPending`: the context is taken from the slot and
///   dropped, then the host is shut down; the loop ends.
/// - `RestartPending`: the context is taken from the slot and handed
///   out for its restart handoff, which comes strictly before the host
///   shutdown call; the loop ends and the slot is empty.
/// - No event yet: sleep one backoff interval, then poll again.
/// - Slot already empty: end the loop at once, with no further host
///   interaction.
pub fn react<T>(slot: &mut ContextSlot<T>, poll: PollOutcome) -> (step: ReactStep<T>)
    ensures
        step.actions@ == step_emits(old(slot).is_active(), poll),
        step.terminate == step_terminates(poll),
        step_takes(poll) ==> final(slot).phase() == op_step(old(slot).phase(), SlotOp::Take),
        !step_takes(poll) ==> *final(slot) == *old(slot),
        poll == PollOutcome::Event(SessionEvent::RestartPending) ==> step.taken == old(
            slot,
        ).stored(),
        poll != PollOutcome::Event(SessionEvent::RestartPending) ==> step.taken is None,
{
    match poll {
        PollOutcome::Event(SessionEvent::ClientConnected) => {
            let mut actions: Vec<Action> = Vec::new();
            actions.push(Action::InitializeStreaming);
            actions.push(Action::RequestResync);
            proof {
                assert(actions@ =~= step_emits(old(slot).is_active(), poll));
            }
            ReactStep { actions, taken: None, terminate: false }
        },
        PollOutcome::Event(SessionEvent::ClientDisconnected) => {
            let mut actions: Vec<Action> = Vec::new();
            actions.push(Action::DeinitializeStreaming);
            proof {
                assert(actions@ =~= step_emits(old(slot).is_active(), poll));
            }
            ReactStep { actions, taken: None, terminate: false }
        },
        PollOutcome::Event(SessionEvent::ShutdownPending) => {
            // Take and drop: no restart is attempted for this instance.
            let _dropped = slot.take();
            let mut actions: Vec<Action> = Vec::new();
            actions.push(Action::ShutdownHost);
            proof {
                assert(actions@ =~= step_emits(old(slot).is_active(), poll));
            }
            ReactStep { actions, taken: None, terminate: true }
        },
        PollOutcome::Event(SessionEvent::RestartPending) => {
            let taken = slot.take();
            let mut actions: Vec<Action> = Vec::new();
            if taken.is_some() {
                actions.push(Action::RestartContext);
            }
            actions.push(Action::ShutdownHost);
            proof {
                assert(actions@ =~= step_emits(old(slot).is_active(), poll));
            }
            ReactStep { actions, taken, terminate: true }
        },
        PollOutcome::NoEvent => {
            let mut actions: Vec<Action> = Vec::new();
            actions.push(Action::SleepBackoff);
            proof {
                assert(actions@ =~= step_emits(old(slot).is_active(), poll));
            }
            ReactStep { actions, taken: None, terminate: false }
        },
        PollOutcome::SlotEmpty => {
            let actions: Vec<Action> = Vec::new();
            proof {
                assert(actions@ =~= step_emits(old(slot).is_active(), poll));
            }
            ReactStep { actions, taken: None, terminate: true }
        },
    }
}

/// The actions of loop entry, in order: acquire the host client, reset
/// the play-area boundary if asked to, and start the connection of the
/// context the slot holds — or skip that, silently, if the slot is
/// already empty.
pub open spec fn entry_emits(active: bool, set_default_play_area: bool) -> Seq<Action> {
    seq![Action::InitClient] + (if set_default_play_area {
        seq![Action::SetDefaultPlayArea]
    } else {
        Seq::empty()
    }) + (if active {
        seq![Action::StartConnection]
    } else {
        Seq::empty()
    })
}

/// Decides what loop entry does, before the first poll.
pub fn loop_entry_actions<T>(slot: &ContextSlot<T>, set_default_play_area: bool) -> (acts: Vec<
    Action,
>)
    ensures
        acts@ == entry_emits(slot.is_active(), set_default_play_area),
{
    let mut acts: Vec<Action> = Vec::new();
    acts.push(Action::InitClient);
    if set_default_play_area {
        acts.push(Action::SetDefaultPlayArea);
    }
    if slot.has_context() {
        acts.push(Action::StartConnection);
    }
    proof {
        assert(acts@ =~= entry_emits(slot.is_active(), set_default_play_area));
    }
    acts
}

/// Decides the terminal cleanup: whichever branch ended the loop, the
/// host client acquired at entry is released, and nothing else is
/// called.
pub fn loop_exit_actions() -> (acts: Vec<Action>)
    ensures
        acts@ == seq![Action::ShutdownClient],
{
    let mut acts: Vec<Action> = Vec::new();
    acts.push(Action::ShutdownClient);
    proof {
        assert(acts@ =~= seq![Action::ShutdownClient]);
    }
    acts
}

} // verus!
