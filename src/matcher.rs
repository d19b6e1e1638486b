//! The state machine that recognises, in a raw stream of channel-voice events, that the user
//! played a pitch.
use crate::midi::{ChannelEvent, Message};
use crate::queue::EventQueue;
use vstd::prelude::*;

verus! {

/// When a pitch counts as played.
#[derive(PartialEq, Eq, Structural, Clone, Copy, Debug)]
pub enum MatchPolicy {
    /// Pressed and then released: a note-on starts a candidate, and the release of that same
    /// key (a note-off, or a note-on with velocity 0) completes the match.
    Strict,
    /// Pressed: a note-on with a non-zero velocity is a match at once.
    Relaxed,
}

/// Where the machine stands.
#[derive(PartialEq, Eq, Structural, Clone, Copy, Debug)]
pub enum MatchState {
    /// No key is held.
    Idle,
    /// A key was pressed and its release is awaited.
    Candidate(u8),
    /// The pitch was played.
    Matched(u8),
}

/// The state after one event. A matched state takes no further events; events that the
/// protocol does not name leave the state as it is.
pub open spec fn step(policy: MatchPolicy, st: MatchState, m: Message) -> MatchState {
    match st {
        MatchState::Idle => match m {
            Message::NoteOn { key, vel } => if vel > 0 {
                match policy {
                    MatchPolicy::Strict => MatchState::Candidate(key),
                    MatchPolicy::Relaxed => MatchState::Matched(key),
                }
            } else {
                st
            },
            _ => st,
        },
        MatchState::Candidate(p) => match m {
            Message::NoteOff { key, vel: _ } => if key == p {
                MatchState::Matched(p)
            } else {
                st
            },
            Message::NoteOn { key, vel } => if key == p && vel == 0 {
                MatchState::Matched(p)
            } else {
                st
            },
            Message::Other => st,
        },
        MatchState::Matched(_) => st,
    }
}

/// The state after reading `evs` in order from `st`, stopping at the first match.
pub open spec fn run(policy: MatchPolicy, st: MatchState, evs: Seq<ChannelEvent>) -> MatchState
    decreases evs.len(),
{
    if evs.len() == 0 || st is Matched {
        st
    } else {
        run(policy, step(policy, st, evs[0].message), evs.drop_first())
    }
}

/// How many of `evs` are read from `st` before a match, the matching event included.
pub open spec fn consumed(policy: MatchPolicy, st: MatchState, evs: Seq<ChannelEvent>) -> nat
    decreases evs.len(),
{
    if evs.len() == 0 || st is Matched {
        0
    } else {
        1 + consumed(policy, step(policy, st, evs[0].message), evs.drop_first())
    }
}

/// The state a new reading starts from: a completed match is forgotten.
pub open spec fn resume(st: MatchState) -> MatchState {
    if st is Matched {
        MatchState::Idle
    } else {
        st
    }
}

/// The pitch of a matched state.
pub open spec fn matched_pitch(st: MatchState) -> Option<u8> {
    match st {
        MatchState::Matched(p) => Some(p),
        _ => None,
    }
}

proof fn lemma_consumed_bound(policy: MatchPolicy, st: MatchState, evs: Seq<ChannelEvent>)
    ensures
        consumed(policy, st, evs) <= evs.len(),
        consumed(policy, st, evs) < evs.len() ==> run(policy, st, evs) is Matched,
    decreases evs.len(),
{
    if evs.len() > 0 && !(st is Matched) {
        lemma_consumed_bound(policy, step(policy, st, evs[0].message), evs.drop_first());
    }
}

/// The pitch-matching machine: its policy and where it stands.
pub struct PitchMatcher {
    pub policy: MatchPolicy,
    pub state: MatchState,
}

impl PitchMatcher {
    /// A machine with no key held.
    pub fn new(policy: MatchPolicy) -> (r: PitchMatcher)
        ensures
            r.policy == policy,
            r.state == MatchState::Idle,
    {
        PitchMatcher { policy, state: MatchState::Idle }
    }

    /// Takes one event; returns the pitch if the event completes a match.
    pub fn feed(&mut self, e: &ChannelEvent) -> (r: Option<u8>)
        ensures
            final(self).policy == old(self).policy,
            final(self).state == step(old(self).policy, old(self).state, e.message),
            r == matched_pitch(final(self).state),
    {
        let st = self.state;
        let next = match st {
            MatchState::Idle => match e.message {
                Message::NoteOn { key, vel } => if vel > 0 {
                    match self.policy {
                        MatchPolicy::Strict => MatchState::Candidate(key),
                        MatchPolicy::Relaxed => MatchState::Matched(key),
                    }
                } else {
                    st
                },
                _ => st,
            },
            MatchState::Candidate(p) => match e.message {
                Message::NoteOff { key, vel: _ } => if key == p {
                    MatchState::Matched(p)
                } else {
                    st
                },
                Message::NoteOn { key, vel } => if key == p && vel == 0 {
                    MatchState::Matched(p)
                } else {
                    st
                },
                Message::Other => st,
            },
            MatchState::Matched(_) => st,
        };
        self.state = next;
        match next {
            MatchState::Matched(p) => Some(p),
            _ => None,
        }
    }

    /// Reads queued events until a pitch is played, and returns it; events after the match
    /// stay queued. When the queue runs out first, returns `None` and keeps any pending
    /// candidate, so that reading can go on once more events arrive. A machine that had
    /// matched starts over from `Idle`, and after a match the machine is `Idle` again.
    pub fn read_pitch(&mut self, q: &mut EventQueue) -> (r: Option<u8>)
        ensures
            final(self).policy == old(self).policy,
            r == matched_pitch(run(old(self).policy, resume(old(self).state), old(q)@)),
            final(q)@ == old(q)@.skip(
                consumed(old(self).policy, resume(old(self).state), old(q)@) as int,
            ),
            final(self).state == resume(run(old(self).policy, resume(old(self).state), old(q)@)),
    {
        if let MatchState::Matched(_) = self.state {
            self.state = MatchState::Idle;
        }
        let ghost policy = self.policy;
        let ghost st0 = self.state;
        let ghost evs0 = q@;
        proof {
            lemma_consumed_bound(policy, st0, evs0);
        }
        loop
            invariant
                policy == old(self).policy,
                st0 == resume(old(self).state),
                evs0 == old(q)@,
                self.policy == policy,
                !(self.state is Matched),
                run(policy, self.state, q@) == run(policy, st0, evs0),
                evs0.skip(consumed(policy, st0, evs0) as int) == q@.skip(
                    consumed(policy, self.state, q@) as int,
                ),
                consumed(policy, self.state, q@) <= q@.len(),
            decreases q@.len(),
        {
            proof {
                lemma_consumed_bound(policy, self.state, q@);
            }
            let ghost st_before = self.state;
            let ghost q_before = q@;
            match q.pop() {
                None => {
                    assert(q@.skip(0) =~= q@);
                    return None;
                },
                Some(e) => {
                    assert(q_before[0] == e && q_before.drop_first() == q@);
                    if let Some(p) = self.feed(&e) {
                        proof {
                            assert(self.state == MatchState::Matched(p));
                            assert(run(policy, st_before, q_before) == run(policy, self.state, q@));
                            assert(consumed(policy, st_before, q_before) == 1 + consumed(policy, self.state, q@));
                            assert(consumed(policy, self.state, q@) == 0);
                            assert(q_before.skip(1) =~= q@);
                        }
                        self.state = MatchState::Idle;
                        return Some(p);
                    }
                    proof {
                        lemma_consumed_bound(policy, self.state, q@);
                    }
                },
            }
        }
    }
}

} // verus!
