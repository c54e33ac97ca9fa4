use vstd::prelude::*;

verus! {

/// The area of the engine an error belongs to.
#[derive(Clone, Copy, Debug, PartialEq, Eq, Structural)]
pub enum ScErrorType {
    Contract,
    WasmVm,
    Context,
    Storage,
    Object,
    Crypto,
    Events,
    Budget,
    Value,
    Auth,
}

/// What went wrong, within an error's area.
#[derive(Clone, Copy, Debug, PartialEq, Eq, Structural)]
pub enum ScErrorCode {
    ArithDomain,
    IndexBounds,
    InvalidInput,
    MissingValue,
    ExistingValue,
    ExceededLimit,
    InvalidAction,
    InternalError,
    UnexpectedType,
    UnexpectedSize,
}

/// An error reported to the engine from a storage read.
#[derive(Clone, Copy, Debug, PartialEq, Eq, Structural)]
pub struct HostError {
    pub error_type: ScErrorType,
    pub code: ScErrorCode,
}

/// The fixed error that tells the engine the storage is corrupt and it must halt.
pub open spec fn storage_internal_error() -> HostError {
    HostError { error_type: ScErrorType::Storage, code: ScErrorCode::InternalError }
}

pub fn internal_storage_error() -> (r: HostError)
    ensures
        r == storage_internal_error(),
{
    HostError { error_type: ScErrorType::Storage, code: ScErrorCode::InternalError }
}

/// The raw ledger behind a handle, and the codec of its records: keys of type
/// `K` are encoded to address entries, and entries decode to values of type `E`.
pub trait LedgerAccessor<K, E> {
    fn encode_key(&self, key: &K) -> Result<Vec<u8>, String>;

    /// The encoded entry stored under an encoded key, with its live-until
    /// ledger sequence where it has one; `None` when there is no such entry.
    fn get_xdr(&self, key_xdr: &Vec<u8>) -> Option<(Vec<u8>, Option<u32>)>;

    fn decode_entry(&self, xdr: Vec<u8>) -> Result<E, String>;
}

/// The ledger as the engine reads it during one call. It is live until a key
/// or an entry fails to encode or decode; from then on it is poisoned, keeps
/// the first failure's message (a fixed one when that is empty), and fails
/// every read.
pub struct LedgerStorage<A> {
    pub accessor: A,
    pub internal_error: Option<String>,
}

impl<A> LedgerStorage<A> {
    /// The message of the failure that poisoned the storage, if any.
    pub open spec fn internal_error_view(&self) -> Option<Seq<char>> {
        match self.internal_error {
            Some(s) => Some(s@),
            None => None,
        }
    }

    pub open spec fn is_poisoned(&self) -> bool {
        self.internal_error_view() is Some
    }

    pub fn new(accessor: A) -> (r: LedgerStorage<A>)
        ensures
            r.accessor == accessor,
            r.internal_error_view() is None,
    {
        LedgerStorage { accessor, internal_error: None }
    }

    /// A copy of the message of the failure that poisoned the storage.
    pub fn internal_error(&self) -> (r: Option<String>)
        ensures
            match r {
                Some(s) => self.internal_error_view() == Some(s@),
                None => self.internal_error_view() is None,
            },
    {
        match &self.internal_error {
            Some(s) => Some(s.clone()),
            None => None,
        }
    }

    /// Records a fatal failure; only the first one is kept, and an empty
    /// message is replaced by a fixed one.
    fn poison(&mut self, message: String)
        ensures
            final(self).accessor == old(self).accessor,
            final(self).internal_error_view() == poisoned_slot(
                old(self).internal_error_view(),
                message@,
            ),
    {
        if self.internal_error.is_none() {
            if message.as_str().is_empty() {
                self.internal_error = Some(String::from_str("ledger storage is corrupt"));
            } else {
                self.internal_error = Some(message);
            }
        }
    }

    /// Settles a read from how it ended at the accessor. A poisoned storage
    /// fails it whatever the outcome; otherwise an absent entry reads as
    /// `None`, a decoded entry as itself with its live-until sequence, and a
    /// failure to encode the key or decode the entry poisons the storage and
    /// fails the read with the fixed internal storage error.
    pub fn settle_read<E>(&mut self, outcome: ReadOutcome<E>) -> (r: Result<
        Option<(E, Option<u32>)>,
        HostError,
    >)
        ensures
            final(self).accessor == old(self).accessor,
            settles(old(self).internal_error_view(), outcome, r, final(self).internal_error_view()),
    {
        if self.internal_error.is_some() {
            return Err(internal_storage_error());
        }
        match outcome {
            ReadOutcome::Absent => Ok(None),
            ReadOutcome::Decoded(entry, live_until) => Ok(Some((entry, live_until))),
            ReadOutcome::KeyEncodingFailed(m) => {
                self.poison(m);
                Err(internal_storage_error())
            },
            ReadOutcome::DecodingFailed(m) => {
                self.poison(m);
                Err(internal_storage_error())
            },
        }
    }
}

/// How a read ended at the accessor.
pub enum ReadOutcome<E> {
    KeyEncodingFailed(String),
    Absent,
    Decoded(E, Option<u32>),
    DecodingFailed(String),
}

/// The message a failure leaves in the slot: its own, or a fixed one when it
/// has none, so a poisoned storage never holds an empty message.
pub open spec fn failure_message(m: Seq<char>) -> Seq<char> {
    if m.len() == 0 {
        "ledger storage is corrupt"@
    } else {
        m
    }
}

/// The slot after a failure: the first failure's message is kept.
pub open spec fn poisoned_slot(slot: Option<Seq<char>>, m: Seq<char>) -> Option<Seq<char>> {
    match slot {
        Some(x) => Some(x),
        None => Some(failure_message(m)),
    }
}

/// A read with the given outcome, on a storage whose slot was `slot`, returns
/// `r` and leaves the slot as `slot_after`.
pub open spec fn settles<E>(
    slot: Option<Seq<char>>,
    outcome: ReadOutcome<E>,
    r: Result<Option<(E, Option<u32>)>, HostError>,
    slot_after: Option<Seq<char>>,
) -> bool {
    if slot is Some {
        r == Err::<Option<(E, Option<u32>)>, HostError>(storage_internal_error()) && slot_after
            == slot
    } else {
        match outcome {
            ReadOutcome::Absent => r == Ok::<Option<(E, Option<u32>)>, HostError>(None)
                && slot_after == slot,
            ReadOutcome::Decoded(e, l) => r == Ok::<Option<(E, Option<u32>)>, HostError>(
                Some((e, l)),
            ) && slot_after == slot,
            ReadOutcome::KeyEncodingFailed(m) => r == Err::<Option<(E, Option<u32>)>, HostError>(
                storage_internal_error(),
            ) && slot_after == poisoned_slot(slot, m@),
            ReadOutcome::DecodingFailed(m) => r == Err::<Option<(E, Option<u32>)>, HostError>(
                storage_internal_error(),
            ) && slot_after == poisoned_slot(slot, m@),
        }
    }
}

pub proof fn lemma_failure_message_nonempty(m: Seq<char>)
    ensures
        failure_message(m).len() > 0,
{
    reveal_strlit("ledger storage is corrupt");
}

/// Reads an entry by key, archived entries included: encodes the key, looks
/// it up and decodes what was found, then settles the read from how that
/// ended. Once the storage is poisoned, every read fails at once with the
/// fixed internal storage error, without touching the accessor.
pub fn get_fallible_from_go_ledger_storage<K, E, A: LedgerAccessor<K, E>>(
    storage: &mut LedgerStorage<A>,
    key: &K,
) -> (r: Result<Option<(E, Option<u32>)>, HostError>)
    ensures
        final(storage).accessor == old(storage).accessor,
        exists|outcome: ReadOutcome<E>|
            settles(
                old(storage).internal_error_view(),
                outcome,
                r,
                final(storage).internal_error_view(),
            ),
        old(storage).is_poisoned() ==> r == Err::<Option<(E, Option<u32>)>, HostError>(
            storage_internal_error(),
        ) && final(storage).internal_error_view() == old(storage).internal_error_view(),
{
    if storage.internal_error.is_some() {
        let r = storage.settle_read(ReadOutcome::Absent);
        return r;
    }
    let outcome = match storage.accessor.encode_key(key) {
        Err(e) => ReadOutcome::KeyEncodingFailed(e),
        Ok(key_xdr) => match storage.accessor.get_xdr(&key_xdr) {
            None => ReadOutcome::Absent,
            Some((xdr, live_until_ledger_seq)) => match storage.accessor.decode_entry(xdr) {
                Ok(entry) => ReadOutcome::Decoded(entry, live_until_ledger_seq),
                Err(e) => ReadOutcome::DecodingFailed(e),
            },
        },
    };
    let ghost settled = outcome;
    let r = storage.settle_read(outcome);
    assert(settles(old(storage).internal_error_view(), settled, r, storage.internal_error_view()));
    r
}

} // verus!
