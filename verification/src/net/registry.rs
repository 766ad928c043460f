//! The socket registry: which epoch each public handle is registered in,
//! the hidden accepted handles waiting to be adopted, and what a committed
//! epoch terminal means for them.
//!
//! The registry decides; the OS glue holds each handle's readiness bridge
//! and applies the decisions (commits a terminal, wakes waiters) to the
//! handles the registry names.

use vstd::prelude::*;

use super::epoch::{EpochError, PendingEpochOwner, SocketEpochState};

verus! {

/// One entry of a handle table.
#[derive(Debug, Clone, Copy)]
pub struct Entry<V> {
    pub handle: usize,
    pub value: V,
}

/// The map a handle table stands for: later entries override earlier ones.
pub open spec fn entries_map<V>(s: Seq<Entry<V>>) -> Map<usize, V>
    decreases s.len(),
{
    if s.len() == 0 {
        Map::empty()
    } else {
        entries_map(s.drop_last()).insert(s.last().handle, s.last().value)
    }
}

/// No handle occurs twice.
pub open spec fn distinct_handles<V>(s: Seq<Entry<V>>) -> bool {
    forall|i: int, j: int| 0 <= i < j < s.len() ==> s[i].handle != s[j].handle
}

proof fn lemma_map_push<V>(s: Seq<Entry<V>>, e: Entry<V>)
    ensures
        entries_map(s.push(e)) == entries_map(s).insert(e.handle, e.value),
{
    assert(s.push(e).drop_last() =~= s);
}

proof fn lemma_map_take_step<V>(s: Seq<Entry<V>>, i: int)
    requires
        0 <= i < s.len(),
    ensures
        entries_map(s.take(i + 1)) == entries_map(s.take(i)).insert(s[i].handle, s[i].value),
{
    assert(s.take(i + 1).drop_last() =~= s.take(i));
}

/// With distinct handles, a handle is in the map exactly when an entry has
/// it, and the map gives that entry's value.
proof fn lemma_map_distinct<V>(s: Seq<Entry<V>>)
    requires
        distinct_handles(s),
    ensures
        forall|h: usize| #[trigger]
            entries_map(s).contains_key(h) <==> exists|i: int| 0 <= i < s.len() && s[i].handle == h,
        forall|i: int| 0 <= i < s.len() ==> #[trigger] entries_map(s)[s[i].handle] == s[i].value,
    decreases s.len(),
{
    if s.len() > 0 {
        let p = s.drop_last();
        assert(distinct_handles(p));
        lemma_map_distinct(p);
        assert forall|h: usize| #[trigger]
            entries_map(s).contains_key(h) implies exists|i: int|
            0 <= i < s.len() && s[i].handle == h by {
            if h != s.last().handle {
                assert(entries_map(p).contains_key(h));
                let i = choose|i: int| 0 <= i < p.len() && p[i].handle == h;
                assert(s[i].handle == h);
            } else {
                assert(s[s.len() - 1].handle == h);
            }
        }
        assert forall|h: usize|
            (exists|i: int| 0 <= i < s.len() && s[i].handle == h) implies #[trigger]
            entries_map(s).contains_key(h) by {
            let i = choose|i: int| 0 <= i < s.len() && s[i].handle == h;
            if i < s.len() - 1 {
                assert(p[i].handle == h);
                assert(entries_map(p).contains_key(h));
            }
        }
        assert forall|i: int| 0 <= i < s.len() implies #[trigger] entries_map(s)[s[i].handle]
            == s[i].value by {
            if i < s.len() - 1 {
                assert(p[i] == s[i]);
                assert(entries_map(p)[p[i].handle] == p[i].value);
                assert(s[i].handle != s[s.len() - 1].handle);
            }
        }
    }
}

/// The value registered for `handle`, if any.
pub fn find_entry<V: Copy>(table: &Vec<Entry<V>>, handle: usize) -> (r: Option<V>)
    ensures
        r == if entries_map(table@).contains_key(handle) {
            Some(entries_map(table@)[handle])
        } else {
            None
        },
{
    let mut i: usize = table.len();
    assert(table@.take(i as int) =~= table@);
    while i > 0
        invariant
            i <= table@.len(),
            entries_map(table@).contains_key(handle) == entries_map(
                table@.take(i as int),
            ).contains_key(handle),
            entries_map(table@).contains_key(handle) ==> entries_map(table@)[handle]
                == entries_map(table@.take(i as int))[handle],
        decreases i,
    {
        proof {
            lemma_map_take_step(table@, i - 1);
        }
        let e = table[i - 1];
        if e.handle == handle {
            return Some(e.value);
        }
        i = i - 1;
    }
    None
}

/// Drop every entry of `handle`; returns the value it had.
pub fn remove_entry<V: Copy>(table: &mut Vec<Entry<V>>, handle: usize) -> (r: Option<V>)
    ensures
        entries_map(final(table)@) == entries_map(old(table)@).remove(handle),
        distinct_handles(old(table)@) ==> distinct_handles(final(table)@),
        forall|i: int| 0 <= i < final(table)@.len() ==> #[trigger] final(table)@[i].handle != handle,
        r == if entries_map(old(table)@).contains_key(handle) {
            Some(entries_map(old(table)@)[handle])
        } else {
            None
        },
{
    let r = find_entry(table, handle);
    let mut out: Vec<Entry<V>> = Vec::new();
    let mut i: usize = 0;
    while i < table.len()
        invariant
            i <= table@.len(),
            table@ == old(table)@,
            entries_map(out@) == entries_map(table@.take(i as int)).remove(handle),
            forall|k: int| 0 <= k < out@.len() ==> #[trigger] out@[k].handle != handle,
            forall|k: int|
                #![trigger out@[k]]
                0 <= k < out@.len() ==> exists|j: int|
                    0 <= j < i && #[trigger] table@[j] == out@[k],
            distinct_handles(table@) ==> distinct_handles(out@),
            distinct_handles(table@) ==> forall|k: int, j: int|
                0 <= k < out@.len() && i <= j < table@.len() ==> #[trigger] out@[k].handle
                    != #[trigger] table@[j].handle,
        decreases table@.len() - i,
    {
        let e = table[i];
        proof {
            lemma_map_take_step(table@, i as int);
        }
        if e.handle != handle {
            proof {
                lemma_map_push(out@, e);
                assert(entries_map(out@.push(e)) =~= entries_map(
                    table@.take(i + 1),
                ).remove(handle));
            }
            out.push(e);
            proof {
                assert forall|k: int|
                    #![trigger out@[k]]
                    0 <= k < out@.len() implies exists|j: int|
                    0 <= j < i + 1 && #[trigger] table@[j] == out@[k] by {
                    if k == out@.len() - 1 {
                        assert(table@[i as int] == out@[k]);
                    } else {
                        let j = choose|j: int| 0 <= j < i && #[trigger] table@[j] == out@[k];
                        assert(table@[j] == out@[k]);
                    }
                }
            }
        } else {
            assert(entries_map(out@) =~= entries_map(table@.take(i + 1)).remove(handle));
        }
        i = i + 1;
    }
    assert(table@.take(table@.len() as int) =~= table@);
    *table = out;
    r
}

/// Register `value` for `handle`, replacing what it had.
pub fn put_entry<V: Copy>(table: &mut Vec<Entry<V>>, handle: usize, value: V)
    ensures
        entries_map(final(table)@) == entries_map(old(table)@).insert(handle, value),
        distinct_handles(old(table)@) ==> distinct_handles(final(table)@),
{
    remove_entry(table, handle);
    let ghost before = table@;
    table.push(Entry { handle, value });
    proof {
        lemma_map_push(before, Entry { handle, value });
        assert(entries_map(table@) =~= entries_map(old(table)@).insert(handle, value));
    }
}

/// The value a map holds for `h`, if any.
pub open spec fn lookup<V>(m: Map<usize, V>, h: usize) -> Option<V> {
    if m.contains_key(h) {
        Some(m[h])
    } else {
        None
    }
}

/// The handles registered in `epoch`, each once.
pub fn handles_in_epoch(table: &Vec<Entry<u64>>, epoch: u64) -> (hs: Vec<usize>)
    requires
        distinct_handles(table@),
    ensures
        forall|h: usize|
            #[trigger] hs@.contains(h) <==> (entries_map(table@).contains_key(h) && entries_map(
                table@,
            )[h] == epoch),
        hs@.no_duplicates(),
{
    proof {
        lemma_map_distinct(table@);
    }
    let mut hs: Vec<usize> = Vec::new();
    let mut i: usize = 0;
    while i < table.len()
        invariant
            i <= table@.len(),
            distinct_handles(table@),
            forall|h: usize|
                #[trigger] hs@.contains(h) <==> exists|j: int|
                    0 <= j < i && table@[j].handle == h && table@[j].value == epoch,
            forall|k: int|
                #![trigger hs@[k]]
                0 <= k < hs@.len() ==> exists|j: int| 0 <= j < i && table@[j].handle == hs@[k],
            hs@.no_duplicates(),
        decreases table@.len() - i,
    {
        let e = table[i];
        if e.value == epoch {
            proof {
                assert forall|k: int| 0 <= k < hs@.len() implies hs@[k] != e.handle by {
                    let j = choose|j: int| 0 <= j < i && table@[j].handle == hs@[k];
                    assert(table@[j].handle != table@[i as int].handle);
                }
            }
            let ghost before = hs@;
            hs.push(e.handle);
            proof {
                assert forall|h: usize| #[trigger] hs@.contains(h) <==> exists|j: int|
                    0 <= j < i + 1 && table@[j].handle == h && table@[j].value == epoch by {
                    if hs@.contains(h) && h != e.handle {
                        let k = choose|k: int| 0 <= k < hs@.len() && hs@[k] == h;
                        assert(before[k] == h);
                        assert(before.contains(h));
                    }
                    if exists|j: int| 0 <= j < i + 1 && table@[j].handle == h && table@[j].value == epoch {
                        let j = choose|j: int| 0 <= j < i + 1 && table@[j].handle == h && table@[j].value == epoch;
                        if j < i {
                            assert(before.contains(h));
                            let k = choose|k: int| 0 <= k < before.len() && before[k] == h;
                            assert(hs@[k] == h);
                        } else {
                            assert(hs@[hs@.len() - 1] == h);
                        }
                    }
                }
                assert forall|k: int| 0 <= k < hs@.len() implies exists|j: int|
                    0 <= j < i + 1 && table@[j].handle == #[trigger] hs@[k] by {
                    if k < before.len() {
                        assert(hs@[k] == before[k]);
                    } else {
                        assert(table@[i as int].handle == hs@[k]);
                    }
                }
            }
        }
        i = i + 1;
    }
    proof {
        assert forall|h: usize| #[trigger] hs@.contains(h) <==> (entries_map(table@).contains_key(h)
            && entries_map(table@)[h] == epoch) by {
            if entries_map(table@).contains_key(h) {
                let j = choose|j: int| 0 <= j < table@.len() && table@[j].handle == h;
                assert(entries_map(table@)[table@[j].handle] == table@[j].value);
            }
        }
    }
    hs
}

/// A pending owner after its epoch was closed with `terminal`: an owner of
/// that epoch records the terminal, any other is unchanged.
pub open spec fn owner_after(o: PendingEpochOwner, epoch: u64, terminal: u64) -> PendingEpochOwner {
    if o.epoch == epoch {
        PendingEpochOwner { terminal: Some(terminal), ..o }
    } else {
        o
    }
}

/// Every pending owner after `epoch` was closed with `terminal`.
pub open spec fn settled(m: Map<usize, PendingEpochOwner>, epoch: u64, terminal: u64) -> Map<
    usize,
    PendingEpochOwner,
> {
    Map::new(|h: usize| m.contains_key(h), |h: usize| owner_after(m[h], epoch, terminal))
}

/// Record `terminal` for every pending owner of `epoch`.
fn settle_pending(table: &mut Vec<Entry<PendingEpochOwner>>, epoch: u64, terminal: u64)
    ensures
        entries_map(final(table)@) == settled(entries_map(old(table)@), epoch, terminal),
{
    let mut out: Vec<Entry<PendingEpochOwner>> = Vec::new();
    let mut i: usize = 0;
    while i < table.len()
        invariant
            i <= table@.len(),
            table@ == old(table)@,
            entries_map(out@) == settled(entries_map(table@.take(i as int)), epoch, terminal),
        decreases table@.len() - i,
    {
        let e = table[i];
        let o = e.value;
        let v = if o.epoch == epoch {
            PendingEpochOwner { epoch: o.epoch, terminal: Some(terminal) }
        } else {
            o
        };
        proof {
            lemma_map_take_step(table@, i as int);
            lemma_map_push(out@, Entry { handle: e.handle, value: v });
            assert(entries_map(out@.push(Entry { handle: e.handle, value: v })) =~= settled(
                entries_map(table@.take(i + 1)),
                epoch,
                terminal,
            ));
        }
        out.push(Entry { handle: e.handle, value: v });
        i = i + 1;
    }
    assert(table@.take(table@.len() as int) =~= table@);
    *table = out;
}

/// The registry of socket handles and their epochs.
pub struct SocketRegistry {
    state: SocketEpochState,
    registrations: Vec<Entry<u64>>,
    pending: Vec<Entry<PendingEpochOwner>>,
}

impl SocketRegistry {
    /// The epoch bookkeeping.
    pub closed spec fn epochs(&self) -> SocketEpochState {
        self.state
    }

    /// The epoch each public handle is registered in.
    pub closed spec fn registered(&self) -> Map<usize, u64> {
        entries_map(self.registrations@)
    }

    /// The hidden accepted handles waiting to be adopted.
    pub closed spec fn pending_owners(&self) -> Map<usize, PendingEpochOwner> {
        entries_map(self.pending@)
    }

    /// The registry's invariant.
    pub closed spec fn wf(&self) -> bool {
        &&& self.state.wf()
        &&& distinct_handles(self.registrations@)
    }

    /// An empty registry in epoch zero, open.
    pub fn new() -> (r: Self)
        ensures
            r.wf(),
            r.epochs() == (SocketEpochState {
                current: 0,
                open: true,
                terminal: None,
                network_terminal: None,
                last_closed: None,
            }),
            r.registered() == Map::<usize, u64>::empty(),
            r.pending_owners() == Map::<usize, PendingEpochOwner>::empty(),
    {
        SocketRegistry {
            state: SocketEpochState::new(),
            registrations: Vec::new(),
            pending: Vec::new(),
        }
    }

    /// Register a new public handle in the current epoch; returns the
    /// terminal it inherits when that epoch is already closed. A pending
    /// owner of the same handle is dropped.
    pub fn add_public(&mut self, handle: usize) -> (terminal: Option<u64>)
        requires
            old(self).wf(),
        ensures
            final(self).wf(),
            final(self).epochs() == old(self).epochs(),
            final(self).registered() == old(self).registered().insert(
                handle,
                old(self).epochs().current,
            ),
            final(self).pending_owners() == old(self).pending_owners().remove(handle),
            terminal == if old(self).epochs().open {
                None
            } else {
                old(self).epochs().network_terminal
            },
    {
        remove_entry(&mut self.pending, handle);
        let (epoch, terminal) = self.state.new_handle_epoch();
        put_entry(&mut self.registrations, handle, epoch);
        terminal
    }

    /// Register an adopted handle: in the epoch it is registered in, else
    /// its pending owner's, else the current one; returns the terminal it
    /// inherits there. Its pending owner is consumed.
    pub fn install_readiness(&mut self, handle: usize) -> (terminal: Option<u64>)
        requires
            old(self).wf(),
        ensures
            final(self).wf(),
            final(self).epochs() == old(self).epochs(),
            final(self).pending_owners() == old(self).pending_owners().remove(handle),
            ({
                let registered = lookup(old(self).registered(), handle);
                let pending = lookup(old(self).pending_owners(), handle);
                let epoch = match registered {
                    Some(e) => e,
                    None => match pending {
                        Some(owner) => owner.epoch,
                        None => old(self).epochs().current,
                    },
                };
                &&& final(self).registered() == old(self).registered().insert(handle, epoch)
                &&& terminal == old(self).epochs().adoption_terminal_spec(pending, epoch)
            }),
    {
        let pending = remove_entry(&mut self.pending, handle);
        let registered = find_entry(&self.registrations, handle);
        let (epoch, terminal) = self.state.adoption_epoch(registered, pending);
        put_entry(&mut self.registrations, handle, epoch);
        terminal
    }

    /// Record a hidden accepted handle of `epoch`, with the terminal a
    /// closure of that epoch already left for it.
    pub fn register_pending_epoch_owner(&mut self, handle: usize, epoch: u64)
        requires
            old(self).wf(),
        ensures
            final(self).wf(),
            final(self).epochs() == old(self).epochs(),
            final(self).registered() == old(self).registered(),
            final(self).pending_owners() == old(self).pending_owners().insert(
                handle,
                PendingEpochOwner {
                    epoch,
                    terminal: match old(self).epochs().last_closed {
                        Some(c) => if c.epoch == epoch {
                            Some(c.terminal)
                        } else {
                            None
                        },
                        None => None,
                    },
                },
            ),
    {
        let terminal = self.state.pending_owner_terminal(epoch);
        put_entry(&mut self.pending, handle, PendingEpochOwner { epoch, terminal });
    }

    /// Publish `terminal` (reported as `reported`) to `epoch`. When this
    /// closes the epoch, every pending owner of it records the terminal and
    /// the handles registered in it are returned: each commits `terminal`
    /// and its waiters are woken. Otherwise nothing changes but the epoch
    /// bookkeeping, and `None` is returned.
    pub fn close_socket_epoch(&mut self, epoch: u64, terminal: u64, reported: u64) -> (r: Option<
        Vec<usize>,
    >)
        requires
            old(self).wf(),
        ensures
            final(self).wf(),
            final(self).epochs() == old(self).epochs().commit_spec(epoch, terminal, reported),
            final(self).registered() == old(self).registered(),
            r is Some <==> (old(self).epochs().current == epoch && old(self).epochs().open),
            r is Some ==> final(self).pending_owners() == settled(
                old(self).pending_owners(),
                epoch,
                terminal,
            ),
            r is None ==> final(self).pending_owners() == old(self).pending_owners(),
            r matches Some(hs) ==> hs@.no_duplicates() && forall|h: usize|
                #[trigger] hs@.contains(h) <==> (old(self).registered().contains_key(h)
                    && old(self).registered()[h] == epoch),
    {
        match self.state.commit_socket_epoch(epoch, terminal, reported) {
            Some(commit) => {
                if commit.committed {
                    settle_pending(&mut self.pending, epoch, terminal);
                    Some(handles_in_epoch(&self.registrations, epoch))
                } else {
                    None
                }
            },
            None => None,
        }
    }

    /// Open the next epoch after the current one closed.
    pub fn open_next_socket_epoch(&mut self) -> (r: Result<u64, EpochError>)
        requires
            old(self).wf(),
        ensures
            final(self).wf(),
            final(self).registered() == old(self).registered(),
            final(self).pending_owners() == old(self).pending_owners(),
            (old(self).epochs().open || old(self).epochs().current == u64::MAX) ==> r == Err::<
                u64,
                EpochError,
            >(EpochError::BadState) && final(self).epochs() == old(self).epochs(),
            !(old(self).epochs().open || old(self).epochs().current == u64::MAX) ==> r == Ok::<
                u64,
                EpochError,
            >((old(self).epochs().current + 1) as u64) && final(self).epochs() == old(
                self,
            ).epochs().opened_next(),
    {
        self.state.open_next_socket_epoch()
    }

    /// Drop a raw handle's pending owner.
    pub fn remove_raw(&mut self, handle: usize)
        requires
            old(self).wf(),
        ensures
            final(self).wf(),
            final(self).epochs() == old(self).epochs(),
            final(self).registered() == old(self).registered(),
            final(self).pending_owners() == old(self).pending_owners().remove(handle),
    {
        remove_entry(&mut self.pending, handle);
    }

    /// Drop a public handle's registration; returns whether it had one.
    pub fn take_readiness(&mut self, handle: usize) -> (had: bool)
        requires
            old(self).wf(),
        ensures
            final(self).wf(),
            final(self).epochs() == old(self).epochs(),
            final(self).registered() == old(self).registered().remove(handle),
            final(self).pending_owners() == old(self).pending_owners(),
            had == old(self).registered().contains_key(handle),
    {
        remove_entry(&mut self.registrations, handle).is_some()
    }
}

} // verus!
