//! The quota ledger: what each delegate has consumed in each epoch.
//!
//! Records are written with a time to live and are not deleted: a record
//! that has outlived its time reads as if nothing had been consumed.

use vstd::prelude::*;
use crate::config::{recorded, spec_recorded, MinterStats};
use crate::keys::QuotaKey;
use crate::store::KeyedStore;

verus! {

/// A consumption record together with its expiry.
#[derive(Clone, Copy, Debug, PartialEq, Eq, Structural)]
pub struct QuotaEntry {
    pub stats: MinterStats,
    /// The first tick at which the record no longer counts.
    pub expires_at: u64,
}

/// The record that `entries` holds alive under `key` at tick `now`.
pub open spec fn alive_at(entries: Map<QuotaKey, QuotaEntry>, key: QuotaKey, now: u32) -> Option<
    MinterStats,
> {
    if entries.dom().contains(key) && now < entries[key].expires_at {
        Some(entries[key].stats)
    } else {
        None
    }
}

/// What `entries` says has been consumed under `key`, read at tick `now`:
/// the record under that key while it is alive, and nothing otherwise.
pub open spec fn stats_at(entries: Map<QuotaKey, QuotaEntry>, key: QuotaKey, now: u32)
    -> MinterStats {
    spec_recorded(alive_at(entries, key, now))
}

/// The entry that `entries` holds under `key`, alive or not.
pub open spec fn entry_of(entries: Map<QuotaKey, QuotaEntry>, key: QuotaKey) -> Option<
    QuotaEntry,
> {
    if entries.dom().contains(key) {
        Some(entries[key])
    } else {
        None
    }
}

/// `entries` with the entry under `key` put back to `previous`.
pub open spec fn with_entry(
    entries: Map<QuotaKey, QuotaEntry>,
    key: QuotaKey,
    previous: Option<QuotaEntry>,
) -> Map<QuotaKey, QuotaEntry> {
    match previous {
        Some(entry) => entries.insert(key, entry),
        None => entries.remove(key),
    }
}

/// The consumption records, one at most for each key.
pub struct QuotaLedger {
    entries: KeyedStore<QuotaKey, QuotaEntry>,
}

impl View for QuotaLedger {
    type V = Map<QuotaKey, QuotaEntry>;

    /// The records that are held, each with its expiry.
    closed spec fn view(&self) -> Map<QuotaKey, QuotaEntry> {
        self.entries@
    }
}

impl QuotaLedger {
    /// The ledger is in order.
    pub closed spec fn wf(&self) -> bool {
        self.entries.wf()
    }

    /// A ledger without records.
    pub fn new() -> (ledger: QuotaLedger)
        ensures
            ledger.wf(),
            ledger@ == Map::<QuotaKey, QuotaEntry>::empty(),
    {
        QuotaLedger { entries: KeyedStore::new() }
    }

    /// The record under `key` that is alive at tick `now`; `None` where the
    /// key was never written or its record has expired.
    pub fn find(&self, key: QuotaKey, now: u32) -> (stats: Option<MinterStats>)
        requires
            self.wf(),
        ensures
            stats == alive_at(self@, key, now),
    {
        match self.entries.get(&key) {
            Some(entry) => {
                if (now as u64) < entry.expires_at {
                    Some(entry.stats)
                } else {
                    None
                }
            },
            None => None,
        }
    }

    /// What has been consumed under `key`, read at tick `now`. A key that
    /// was never written, or whose record has expired, reads as zero.
    pub fn read(&self, key: QuotaKey, now: u32) -> (stats: MinterStats)
        requires
            self.wf(),
        ensures
            stats == stats_at(self@, key, now),
    {
        recorded(self.find(key, now))
    }

    /// Stores `stats` under `key` at tick `now`, to stay alive for
    /// `expire_after` ticks from now. What was stored under the key before
    /// is replaced, and so is its expiry.
    pub fn commit(&mut self, key: QuotaKey, stats: MinterStats, now: u32, expire_after: u32)
        requires
            old(self).wf(),
        ensures
            final(self).wf(),
            final(self)@ == old(self)@.insert(
                key,
                QuotaEntry { stats, expires_at: (now + expire_after) as u64 },
            ),
    {
        let expires_at: u64 = now as u64 + expire_after as u64;
        self.entries.insert(key, QuotaEntry { stats, expires_at });
    }

    /// The entry under `key` as it is held, alive or not.
    pub fn entry(&self, key: QuotaKey) -> (entry: Option<QuotaEntry>)
        requires
            self.wf(),
        ensures
            entry == entry_of(self@, key),
    {
        self.entries.get(&key)
    }

    /// Puts the entry under `key` back to `previous`: to that entry, or to
    /// none. With what `entry` returned before a `commit`, this undoes the
    /// commit.
    pub fn restore(&mut self, key: QuotaKey, previous: Option<QuotaEntry>)
        requires
            old(self).wf(),
        ensures
            final(self).wf(),
            final(self)@ == with_entry(old(self)@, key, previous),
    {
        match previous {
            Some(entry) => self.entries.insert(key, entry),
            None => self.entries.remove(&key),
        }
    }
}

/// Undoing a commit gives back the ledger as it was.
pub proof fn lemma_restore_undoes_commit(
    entries: Map<QuotaKey, QuotaEntry>,
    key: QuotaKey,
    written: QuotaEntry,
)
    ensures
        with_entry(entries.insert(key, written), key, entry_of(entries, key)) == entries,
{
    assert(with_entry(entries.insert(key, written), key, entry_of(entries, key)) =~= entries);
}

} // verus!
