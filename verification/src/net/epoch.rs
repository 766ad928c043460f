//! Socket epochs: the first-wins terminal of a network session and the
//! terminal a socket handle inherits from the epoch it joined.
//!
//! An epoch accepts sessions while open. The first fault published to the
//! current epoch closes it and commits its terminal; later publications to
//! it only observe that terminal, and a publication to any other epoch is
//! ignored, so a late publisher can never retarget a newer epoch. A handle
//! created or adopted into a closed epoch inherits its terminal. Terminal
//! codes are carried as `Option<u64>`, `None` meaning no terminal. The
//! registries of handles and pending owners belong to the caller, which
//! applies a committed terminal to the handles of the committed epoch.

use vstd::prelude::*;

verus! {

/// Epoch bookkeeping of the socket registry.
#[derive(Debug, Clone, Copy, PartialEq, Eq, Structural)]
pub struct SocketEpochState {
    /// The current epoch.
    pub current: u64,
    /// Whether the current epoch accepts new sessions.
    pub open: bool,
    /// Reported terminal code of the current epoch, once closed.
    pub terminal: Option<u64>,
    /// Network terminal of the current epoch, once closed; seeds late
    /// registrations.
    pub network_terminal: Option<u64>,
    /// The most recently closed epoch and its network terminal.
    pub last_closed: Option<ClosedEpoch>,
}

/// A closed epoch and its network terminal.
#[derive(Debug, Clone, Copy, PartialEq, Eq, Structural)]
pub struct ClosedEpoch {
    pub epoch: u64,
    pub terminal: u64,
}

/// Outcome of publishing a terminal to an epoch.
#[derive(Debug, Clone, Copy, PartialEq, Eq, Structural)]
pub struct EpochCommit {
    /// The epoch's network terminal (the one committed first).
    pub terminal: u64,
    /// Whether this publication closed the epoch.
    pub committed: bool,
}

/// A hidden accepted handle waiting to be adopted: the epoch it was
/// accepted in and the terminal a closure of that epoch left for it.
#[derive(Debug, Clone, Copy, PartialEq, Eq, Structural)]
pub struct PendingEpochOwner {
    pub epoch: u64,
    pub terminal: Option<u64>,
}

/// Why an epoch transition was refused.
#[derive(Debug, Clone, Copy, PartialEq, Eq, Structural)]
pub enum EpochError {
    /// The current epoch is still open, or no later epoch exists.
    BadState,
}

impl SocketEpochState {
    /// The state's invariant: an open epoch has no terminal; a closed one
    /// has both terminals and is the last closed epoch.
    pub open spec fn wf(&self) -> bool {
        &&& self.open ==> self.terminal is None && self.network_terminal is None
        &&& !self.open ==> self.terminal is Some && self.network_terminal is Some
            && self.last_closed == Some(ClosedEpoch { epoch: self.current, terminal: self.network_terminal->0 })
    }

    /// The state after publishing `terminal` (reported as `reported`) to
    /// `epoch`.
    pub open spec fn commit_spec(self, epoch: u64, terminal: u64, reported: u64) -> SocketEpochState {
        if self.current == epoch && self.open {
            SocketEpochState {
                open: false,
                terminal: Some(reported),
                network_terminal: Some(terminal),
                last_closed: Some(ClosedEpoch { epoch, terminal }),
                ..self
            }
        } else {
            self
        }
    }

    /// What publishing `terminal` to `epoch` reports.
    pub open spec fn commit_result(self, epoch: u64, terminal: u64) -> Option<EpochCommit> {
        if self.current != epoch {
            None
        } else if self.open {
            Some(EpochCommit { terminal, committed: true })
        } else {
            Some(EpochCommit { terminal: self.network_terminal->0, committed: false })
        }
    }

    /// The state after opening the next epoch.
    pub open spec fn opened_next(self) -> SocketEpochState {
        SocketEpochState {
            current: (self.current + 1) as u64,
            open: true,
            terminal: None,
            network_terminal: None,
            ..self
        }
    }

    /// Epoch zero, open.
    pub fn new() -> (s: Self)
        ensures
            s.wf(),
            s == (SocketEpochState {
                current: 0,
                open: true,
                terminal: None,
                network_terminal: None,
                last_closed: None,
            }),
    {
        SocketEpochState {
            current: 0,
            open: true,
            terminal: None,
            network_terminal: None,
            last_closed: None,
        }
    }

    /// Publish a terminal to `epoch`: the first publication to the open
    /// current epoch closes it; a repeated one reports the committed
    /// terminal without change; any other epoch is ignored (`None`).
    pub fn commit_socket_epoch(&mut self, epoch: u64, terminal: u64, reported: u64) -> (r: Option<
        EpochCommit,
    >)
        requires
            old(self).wf(),
        ensures
            final(self).wf(),
            *final(self) == old(self).commit_spec(epoch, terminal, reported),
            r == old(self).commit_result(epoch, terminal),
    {
        if self.current != epoch {
            return None;
        }
        if !self.open {
            let nt = match self.network_terminal {
                Some(t) => t,
                None => terminal,
            };
            return Some(EpochCommit { terminal: nt, committed: false });
        }
        self.open = false;
        self.terminal = Some(reported);
        self.network_terminal = Some(terminal);
        self.last_closed = Some(ClosedEpoch { epoch, terminal });
        Some(EpochCommit { terminal, committed: true })
    }

    /// Open the next epoch after the current one closed.
    pub fn open_next_socket_epoch(&mut self) -> (r: Result<u64, EpochError>)
        requires
            old(self).wf(),
        ensures
            final(self).wf(),
            (old(self).open || old(self).current == u64::MAX) ==> r == Err::<u64, EpochError>(
                EpochError::BadState,
            ) && *final(self) == *old(self),
            !(old(self).open || old(self).current == u64::MAX) ==> r == Ok::<u64, EpochError>(
                (old(self).current + 1) as u64,
            ) && *final(self) == old(self).opened_next(),
    {
        if self.open || self.current == u64::MAX {
            return Err(EpochError::BadState);
        }
        self.current = self.current + 1;
        self.open = true;
        self.terminal = None;
        self.network_terminal = None;
        Ok(self.current)
    }

    /// The reported terminal of the current epoch, if it is closed.
    pub fn global_terminal_code(&self) -> (t: Option<u64>)
        ensures
            t == self.terminal,
    {
        self.terminal
    }

    /// The epoch a newly created handle joins, and the terminal it inherits
    /// when that epoch is already closed.
    pub fn new_handle_epoch(&self) -> (r: (u64, Option<u64>))
        ensures
            r.0 == self.current,
            r.1 == if self.open { None } else { self.network_terminal },
    {
        let terminal = if self.open {
            None
        } else {
            self.network_terminal
        };
        (self.current, terminal)
    }

    /// The terminal recorded for a hidden accepted handle of `epoch`: the
    /// last closure's terminal when it closed that epoch.
    pub fn pending_owner_terminal(&self, epoch: u64) -> (t: Option<u64>)
        ensures
            t == match self.last_closed {
                Some(c) => if c.epoch == epoch {
                    Some(c.terminal)
                } else {
                    None
                },
                None => None,
            },
    {
        match self.last_closed {
            Some(c) => {
                if c.epoch == epoch {
                    Some(c.terminal)
                } else {
                    None
                }
            },
            None => None,
        }
    }

    /// The terminal an adopted handle of `epoch` inherits: its pending
    /// owner's (possibly none), when recorded for that same epoch, else the
    /// last closure's when it closed that epoch.
    pub fn adoption_terminal(&self, pending: Option<PendingEpochOwner>, epoch: u64) -> (t: Option<
        u64,
    >)
        ensures
            t == match pending {
                Some(owner) if owner.epoch == epoch => owner.terminal,
                _ => match self.last_closed {
                    Some(c) => if c.epoch == epoch {
                        Some(c.terminal)
                    } else {
                        None
                    },
                    None => None,
                },
            },
    {
        match pending {
            Some(owner) => {
                if owner.epoch == epoch {
                    return owner.terminal;
                }
            },
            None => {},
        }
        self.pending_owner_terminal(epoch)
    }

    /// The epoch an adopted handle joins: the one it is registered in, else
    /// its pending owner's, else the current one; and the terminal it
    /// inherits there.
    pub fn adoption_epoch(&self, registered: Option<u64>, pending: Option<PendingEpochOwner>) -> (r:
        (u64, Option<u64>))
        ensures
            r.0 == match registered {
                Some(e) => e,
                None => match pending {
                    Some(owner) => owner.epoch,
                    None => self.current,
                },
            },
            r.1 == self.adoption_terminal_spec(pending, r.0),
    {
        let epoch = match registered {
            Some(e) => e,
            None => match pending {
                Some(owner) => owner.epoch,
                None => self.current,
            },
        };
        (epoch, self.adoption_terminal(pending, epoch))
    }

    /// [`Self::adoption_terminal`] as a specification.
    pub open spec fn adoption_terminal_spec(self, pending: Option<PendingEpochOwner>, epoch: u64) -> Option<u64> {
        match pending {
            Some(owner) if owner.epoch == epoch => owner.terminal,
            _ => match self.last_closed {
                Some(c) => if c.epoch == epoch {
                    Some(c.terminal)
                } else {
                    None
                },
                None => None,
            },
        }
    }
}

/// Whether a committed terminal of `epoch` applies to a registration or a
/// pending owner recorded in `recorded_epoch`.
pub fn epoch_matches(recorded_epoch: u64, epoch: u64) -> (r: bool)
    ensures
        r == (recorded_epoch == epoch),
{
    recorded_epoch == epoch
}

/// The first publication to an epoch wins: publishing again, with any
/// terminal, reports the first terminal and changes nothing.
pub proof fn lemma_first_publication_wins(s: SocketEpochState, epoch: u64, t1: u64, r1: u64, t2: u64, r2: u64)
    requires
        s.wf(),
        s.current == epoch,
        s.open,
    ensures
        s.commit_result(epoch, t1) == Some(EpochCommit { terminal: t1, committed: true }),
        s.commit_spec(epoch, t1, r1).commit_result(epoch, t2) == Some(
            EpochCommit { terminal: t1, committed: false },
        ),
        s.commit_spec(epoch, t1, r1).commit_spec(epoch, t2, r2) == s.commit_spec(epoch, t1, r1),
{
}

/// A publication to any epoch other than the current one is ignored, so a
/// late publisher of a closed epoch cannot close a newer one.
pub proof fn lemma_stale_publication_is_ignored(s: SocketEpochState, epoch: u64, t: u64, r: u64)
    requires
        s.wf(),
        epoch != s.current,
    ensures
        s.commit_result(epoch, t) is None,
        s.commit_spec(epoch, t, r) == s,
{
}

/// A handle created after its epoch closed inherits that epoch's terminal,
/// and a handle adopted into the last closed epoch inherits it too.
pub proof fn lemma_late_handles_inherit_terminal(s: SocketEpochState, epoch: u64, t: u64, r: u64)
    requires
        s.wf(),
        s.current == epoch,
        s.open,
    ensures
        s.commit_spec(epoch, t, r).wf(),
        !s.commit_spec(epoch, t, r).open,
        s.commit_spec(epoch, t, r).network_terminal == Some(t),
        s.commit_spec(epoch, t, r).adoption_terminal_spec(None, epoch) == Some(t),
{
}

/// A newly opened epoch is fresh: it has no terminal, new handles inherit
/// none, and a late publication to the epoch before it is ignored, while an
/// adoption into that previous epoch still inherits its terminal.
pub proof fn lemma_new_epoch_is_fresh(s: SocketEpochState, t: u64)
    requires
        s.wf(),
        !s.open,
        s.current < u64::MAX,
    ensures
        s.opened_next().wf(),
        s.opened_next().open,
        s.opened_next().terminal is None,
        s.opened_next().commit_result(s.current, t) is None,
        s.opened_next().commit_spec(s.current, t, t) == s.opened_next(),
        s.opened_next().adoption_terminal_spec(None, s.current) == s.network_terminal,
{
}

} // verus!
