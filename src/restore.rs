use vstd::prelude::*;

use crate::storage::{get_fallible_from_go_ledger_storage, HostError, LedgerAccessor, LedgerStorage};

verus! {

/// An entry as the engine reads it, with its live-until ledger sequence.
pub type EntryWithLiveUntil<E> = (E, Option<u32>);

/// The entry the primary simulation sees: an entry whose live-until sequence
/// lies before the current ledger is absent, and an entry without one is live.
pub open spec fn visible_entry<E>(
    entry: Option<EntryWithLiveUntil<E>>,
    current_ledger_sequence: u32,
) -> Option<EntryWithLiveUntil<E>> {
    match entry {
        Some((e, Some(live_until))) => if live_until < current_ledger_sequence {
            None
        } else {
            Some((e, Some(live_until)))
        },
        _ => entry,
    }
}

pub open spec fn is_archived<E>(entry: Option<EntryWithLiveUntil<E>>, current_ledger_sequence: u32) -> bool {
    match entry {
        Some((_, Some(live_until))) => live_until < current_ledger_sequence,
        _ => false,
    }
}

/// The ledger seen through the storage adapter, with archived entries hidden
/// and their keys recorded, in the order read, for a later restore pass.
pub struct AutoRestoringSnapshot<K, A> {
    pub storage: LedgerStorage<A>,
    pub current_ledger_sequence: u32,
    pub restored_keys: Vec<K>,
}

impl<K, A> AutoRestoringSnapshot<K, A> {
    pub fn new(storage: LedgerStorage<A>, current_ledger_sequence: u32) -> (r: Self)
        ensures
            r.storage == storage,
            r.current_ledger_sequence == current_ledger_sequence,
            r.restored_keys@.len() == 0,
    {
        AutoRestoringSnapshot { storage, current_ledger_sequence, restored_keys: Vec::new() }
    }

    /// Hides an archived entry from the primary simulation and records its
    /// key for restoration; any other entry passes unchanged.
    pub fn filter_archived<E>(&mut self, key: K, entry: Option<EntryWithLiveUntil<E>>) -> (r: Option<
        EntryWithLiveUntil<E>,
    >)
        ensures
            r == visible_entry(entry, old(self).current_ledger_sequence),
            final(self).storage == old(self).storage,
            final(self).current_ledger_sequence == old(self).current_ledger_sequence,
            final(self).restored_keys@ == if is_archived(entry, old(self).current_ledger_sequence) {
                old(self).restored_keys@.push(key)
            } else {
                old(self).restored_keys@
            },
    {
        match entry {
            Some((e, Some(live_until))) => {
                if live_until < self.current_ledger_sequence {
                    self.restored_keys.push(key);
                    None
                } else {
                    Some((e, Some(live_until)))
                }
            },
            other => other,
        }
    }

    /// Reads an entry for the primary simulation: storage failures pass
    /// through, and archived entries read as absent.
    pub fn get<E>(&mut self, key: K) -> (r: Result<Option<EntryWithLiveUntil<E>>, HostError>) where
        A: LedgerAccessor<K, E>,

        ensures
            final(self).current_ledger_sequence == old(self).current_ledger_sequence,
            final(self).storage.accessor == old(self).storage.accessor,
            old(self).storage.is_poisoned() ==> r is Err,
            r is Err ==> final(self).storage.is_poisoned(),
            r is Err ==> final(self).restored_keys@ == old(self).restored_keys@,
            r is Ok ==> final(self).storage.internal_error_view()
                == old(self).storage.internal_error_view(),
            old(self).storage.is_poisoned() ==> final(self).storage.internal_error_view()
                == old(self).storage.internal_error_view(),
            final(self).restored_keys@ == old(self).restored_keys@
                || final(self).restored_keys@ == old(self).restored_keys@.push(key),
            final(self).restored_keys@ != old(self).restored_keys@ ==> r == Ok::<
                Option<EntryWithLiveUntil<E>>,
                HostError,
            >(None),
            r matches Ok(Some((_, Some(l)))) ==> l >= old(self).current_ledger_sequence,
    {
        let entry = get_fallible_from_go_ledger_storage(&mut self.storage, &key)?;
        Ok(self.filter_archived(key, entry))
    }

    /// The keys the restore pass must cover, exactly those recorded; `None`
    /// when nothing needs restoring and the pass is skipped.
    pub fn take_restore_keys(self) -> (r: (Option<Vec<K>>, LedgerStorage<A>))
        ensures
            r.1 == self.storage,
            match r.0 {
                Some(keys) => keys@ == self.restored_keys@ && keys@.len() > 0,
                None => self.restored_keys@.len() == 0,
            },
    {
        let AutoRestoringSnapshot { storage, current_ledger_sequence: _, restored_keys } = self;
        if restored_keys.len() == 0 {
            (None, storage)
        } else {
            (Some(restored_keys), storage)
        }
    }
}

} // verus!
