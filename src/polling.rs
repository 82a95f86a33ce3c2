use vstd::prelude::*;

use crate::text::{contains_text, has_infix};

verus! {

/// The image name of the Steam client's process.
pub const STEAM_IMAGE: &'static str = "steam.exe";

/// Pause between checks while a client shuts down, in milliseconds.
pub const EXIT_POLL_MS: u64 = 500;

/// Checks made at most while a client shuts down.
pub const EXIT_POLL_ATTEMPTS: u32 = 20;

/// Pause between checks while a login completes, in milliseconds.
pub const LOGIN_POLL_MS: u64 = 1000;

/// Checks made at most while a login completes.
pub const LOGIN_POLL_ATTEMPTS: u32 = 30;

/// What the caller of a poll does next.
pub enum PollAction {
    /// Check the outside state and report with `probed`.
    Probe,
    /// Sleep this many milliseconds and report with `slept`.
    Sleep(u64),
    /// Stop: `true` when the awaited state was seen, `false` when the attempts ran out.
    Finished(bool),
}

/// A bounded wait for an outside state: checks at a fixed interval, up to a number of
/// attempts.
pub struct Poller {
    pub attempts: u32,
    pub max_attempts: u32,
    pub interval_ms: u64,
}

pub open spec fn start_action(p: Poller) -> PollAction {
    if p.attempts < p.max_attempts {
        PollAction::Probe
    } else {
        PollAction::Finished(false)
    }
}

pub open spec fn probe_action(p: Poller, met: bool) -> PollAction {
    if met {
        PollAction::Finished(true)
    } else {
        PollAction::Sleep(p.interval_ms)
    }
}

pub open spec fn after_sleep(p: Poller) -> Poller {
    Poller {
        attempts: if p.attempts < p.max_attempts {
            (p.attempts + 1) as u32
        } else {
            p.attempts
        },
        ..p
    }
}

impl Poller {
    /// A wait that has made no attempt yet.
    pub fn new(max_attempts: u32, interval_ms: u64) -> (r: Poller)
        ensures
            r == (Poller { attempts: 0, max_attempts, interval_ms }),
    {
        Poller { attempts: 0, max_attempts, interval_ms }
    }

    /// The first action: a check, unless no attempt is left.
    pub fn start(&self) -> (r: PollAction)
        ensures
            r == start_action(*self),
    {
        if self.attempts < self.max_attempts {
            PollAction::Probe
        } else {
            PollAction::Finished(false)
        }
    }

    /// The action after a check that did (`met`) or did not see the awaited state.
    pub fn probed(&self, met: bool) -> (r: PollAction)
        ensures
            r == probe_action(*self, met),
    {
        if met {
            PollAction::Finished(true)
        } else {
            PollAction::Sleep(self.interval_ms)
        }
    }

    /// Counts the attempt that just ended with a sleep and gives the next action.
    pub fn slept(&mut self) -> (r: PollAction)
        ensures
            *final(self) == after_sleep(*old(self)),
            r == start_action(*final(self)),
    {
        if self.attempts < self.max_attempts {
            self.attempts = self.attempts + 1;
        }
        self.start()
    }
}

/// The outcome of a wait whose checks see `seen`, in order: `None` while it still
/// needs checks beyond those.
pub open spec fn poll_outcome(p: Poller, seen: Seq<bool>) -> Option<bool>
    decreases seen.len(),
{
    if p.attempts >= p.max_attempts {
        Some(false)
    } else if seen.len() == 0 {
        None
    } else if seen[0] {
        Some(true)
    } else {
        poll_outcome(after_sleep(p), seen.drop_first())
    }
}

/// A wait whose first check sees the awaited state finishes at once, without sleeping.
pub proof fn lemma_met_at_once_never_sleeps(p: Poller)
    requires
        p.attempts < p.max_attempts,
    ensures
        start_action(p) == PollAction::Probe,
        probe_action(p, true) == PollAction::Finished(true),
        poll_outcome(p, seq![true]) == Some(true),
{
}

/// A wait succeeds exactly when one of its first `max_attempts` checks sees the
/// awaited state.
pub proof fn lemma_poll_outcome(p: Poller, seen: Seq<bool>)
    requires
        p.attempts <= p.max_attempts,
        seen.len() >= p.max_attempts - p.attempts,
    ensures
        poll_outcome(p, seen) == Some(
            exists|i: int| 0 <= i < p.max_attempts - p.attempts && #[trigger] seen[i],
        ),
    decreases p.max_attempts - p.attempts,
{
    if p.attempts < p.max_attempts && !seen[0] {
        let q = after_sleep(p);
        lemma_poll_outcome(q, seen.drop_first());
        if exists|i: int| 0 <= i < p.max_attempts - p.attempts && #[trigger] seen[i] {
            let i = choose|i: int| 0 <= i < p.max_attempts - p.attempts && #[trigger] seen[i];
            assert(seen.drop_first()[i - 1]);
        }
        if exists|i: int| 0 <= i < q.max_attempts - q.attempts && #[trigger] seen.drop_first()[i] {
            let i = choose|i: int|
                0 <= i < q.max_attempts - q.attempts && #[trigger] seen.drop_first()[i];
            assert(seen[i + 1]);
        }
    } else if p.attempts < p.max_attempts {
        assert(seen[0]);
    }
}

/// The process list no longer shows the image; an unreadable list counts as gone.
pub open spec fn image_gone_in(listing: Option<Seq<char>>, image: Seq<char>) -> bool {
    match listing {
        Some(l) => !has_infix(l, image),
        None => true,
    }
}

/// Whether a process listing (none where the listing failed) shows the image gone.
pub fn image_gone(listing: &Option<String>, image: &str) -> (r: bool)
    ensures
        r == image_gone_in(listing.deep_view(), image@),
{
    match listing {
        Some(l) => !contains_text(l.as_str(), image),
        None => true,
    }
}

/// Whether the observed active account (none where it could not be read) is the
/// target.
pub fn login_confirmed(observed: Option<u32>, target: u32) -> (r: bool)
    ensures
        r == (observed == Some(target)),
{
    match observed {
        Some(v) => v == target,
        None => false,
    }
}

} // verus!
