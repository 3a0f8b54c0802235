//! The store of swap records: for each swap, under its id, the latest record
//! in bytes. The store lives in memory; whoever owns it writes it through to
//! disk, one record at a time.

use crate::database::alice::Alice;
use crate::database::bob::Bob;
use crate::database::encoding::DecodeError;
use vstd::prelude::*;

verus! {

/// A kind of swap record that a store can hold: it has a layout in bytes
/// from which it can be read again, and it says whether its swap is over.
pub trait Record: Sized + View {
    /// The record in bytes.
    spec fn encoding_of(record: Self::V) -> Seq<u8>;

    /// The record that bytes stand for, or why they stand for none.
    spec fn decoding_of(bytes: Seq<u8>) -> Result<Self::V, DecodeError>;

    /// Whether the record is that of a finished swap.
    spec fn finished(record: Self::V) -> bool;

    /// The record in bytes.
    fn to_bytes(&self) -> (r: Vec<u8>)
        ensures
            r@ == Self::encoding_of(self@),
    ;

    /// The record that bytes stand for, or why they stand for none.
    fn from_bytes(bytes: &[u8]) -> (r: Result<Self, DecodeError>)
        ensures
            match r {
                Ok(record) => Self::decoding_of(bytes@) == Ok::<Self::V, DecodeError>(record@),
                Err(e) => Self::decoding_of(bytes@) == Err::<Self::V, DecodeError>(e),
            },
    ;

    /// Whether the record is that of a finished swap.
    fn is_finished(&self) -> (r: bool)
        ensures
            r == Self::finished(self@),
    ;

    /// A record read from the bytes it was laid out in is the record itself.
    proof fn lemma_read_back(&self)
        ensures
            Self::decoding_of(Self::encoding_of(self@)) == Ok::<Self::V, DecodeError>(self@),
    ;
}

impl Record for Alice {
    open spec fn encoding_of(record: Self::V) -> Seq<u8> {
        record.encoding()
    }

    open spec fn decoding_of(bytes: Seq<u8>) -> Result<Self::V, DecodeError> {
        crate::database::alice::decoding(bytes)
    }

    open spec fn finished(record: Self::V) -> bool {
        record is Done
    }

    fn to_bytes(&self) -> (r: Vec<u8>) {
        self.encode()
    }

    fn from_bytes(bytes: &[u8]) -> (r: Result<Self, DecodeError>) {
        Alice::decode(bytes)
    }

    fn is_finished(&self) -> (r: bool) {
        self.done()
    }

    proof fn lemma_read_back(&self) {
        crate::database::alice::lemma_roundtrip(*self);
    }
}

impl Record for Bob {
    open spec fn encoding_of(record: Self::V) -> Seq<u8> {
        record.encoding()
    }

    open spec fn decoding_of(bytes: Seq<u8>) -> Result<Self::V, DecodeError> {
        crate::database::bob::decoding(bytes)
    }

    open spec fn finished(record: Self::V) -> bool {
        record is Done
    }

    fn to_bytes(&self) -> (r: Vec<u8>) {
        self.encode()
    }

    fn from_bytes(bytes: &[u8]) -> (r: Result<Self, DecodeError>) {
        Bob::decode(bytes)
    }

    fn is_finished(&self) -> (r: bool) {
        self.done()
    }

    proof fn lemma_read_back(&self) {
        crate::database::bob::lemma_roundtrip(*self);
    }
}

/// Why the store did not do what was asked.
#[derive(Clone, Copy, Debug, PartialEq, Eq, Structural)]
pub enum StoreError {
    /// There is a record under the id already.
    AlreadyExists,
    /// There is no record under the id.
    NotFound,
    /// The bytes under the id cannot be read as a record.
    Corrupt(DecodeError),
}

/// The records of the swaps of one side, each under the id of its swap.
#[derive(Debug, PartialEq, Eq)]
pub struct Database {
    entries: Vec<(u128, Vec<u8>)>,
}

/// The id of an entry.
spec fn id_of(entry: (u128, Vec<u8>)) -> u128 {
    let (id, _) = entry;
    id
}

/// The bytes of an entry.
spec fn bytes_of(entry: (u128, Vec<u8>)) -> Seq<u8> {
    let (_, bytes) = entry;
    bytes@
}

impl Database {
    /// No id stands in the store twice.
    #[verifier::type_invariant]
    spec fn distinct(&self) -> bool {
        forall|i: int, j: int|
            0 <= i < j < self.entries.len() ==> id_of(self.entries[i]) != id_of(self.entries[j])
    }

    /// The ids in the store, in the order in which their swaps came in.
    pub closed spec fn ids(&self) -> Seq<u128> {
        self.entries@.map_values(|entry: (u128, Vec<u8>)| id_of(entry))
    }

    /// The place of `id` among the ids.
    spec fn place(&self, id: u128) -> int {
        choose|i: int| 0 <= i < self.entries.len() && id_of(self.entries[i]) == id
    }
}

impl View for Database {
    type V = Map<u128, Seq<u8>>;

    /// What the store holds: under each id the bytes of its record.
    closed spec fn view(&self) -> Map<u128, Seq<u8>> {
        Map::new(
            |id: u128| exists|i: int| 0 <= i < self.entries.len() && id_of(self.entries[i]) == id,
            |id: u128| bytes_of(self.entries[self.place(id)]),
        )
    }
}

impl Database {
    /// The ids of the swaps in the store, in the order in which the swaps came
    /// in: those under which the store holds something, each once.
    pub fn list_ids(&self) -> (r: Vec<u128>)
        ensures
            r@ == self.ids(),
            r@.no_duplicates(),
            forall|id: u128| r@.contains(id) <==> #[trigger] self@.contains_key(id),
    {
        let mut r: Vec<u128> = Vec::new();
        let mut i: usize = 0;
        while i < self.entries.len()
            invariant
                i <= self.entries.len(),
                r@ == self.ids().take(i as int),
            decreases self.entries.len() - i,
        {
            r.push(self.entries[i].0);
            assert(r@ =~= self.ids().take(i + 1));
            i = i + 1;
        }
        proof {
            use_type_invariant(self);
            assert(self.ids().take(i as int) =~= self.ids());
            assert forall|id: u128| self.ids().contains(id) <==> #[trigger] self@.contains_key(
                id,
            ) by {
                if self.ids().contains(id) {
                    let i = choose|i: int| 0 <= i < self.ids().len() && self.ids()[i] == id;
                    assert(0 <= i < self.entries.len() && id_of(self.entries[i]) == id);
                }
                if self@.contains_key(id) {
                    let i = self.place(id);
                    assert(self.ids()[i] == id);
                }
            }
        }
        r
    }

    /// A store without records.
    pub fn new() -> (r: Database)
        ensures
            r@ == Map::<u128, Seq<u8>>::empty(),
            r.ids() == Seq::<u128>::empty(),
    {
        let r = Database { entries: Vec::new() };
        assert(r@ =~= Map::<u128, Seq<u8>>::empty());
        assert(r.ids() =~= Seq::<u128>::empty());
        r
    }

    fn find(&self, id: u128) -> (r: Option<usize>)
        ensures
            r.is_some() == self@.contains_key(id),
            r matches Some(i) ==> i < self.entries.len() && id_of(self.entries[i as int]) == id
                && self.place(id) == i,
            r.is_none() ==> forall|k: int|
                0 <= k < self.entries.len() ==> id_of(#[trigger] self.entries[k]) != id,
    {
        proof {
            use_type_invariant(self);
        }
        let mut i: usize = 0;
        while i < self.entries.len()
            invariant
                self.distinct(),
                i <= self.entries.len(),
                forall|k: int| 0 <= k < i ==> id_of(#[trigger] self.entries[k]) != id,
            decreases self.entries.len() - i,
        {
            if self.entries[i].0 == id {
                proof {
                    let at = self.place(id);
                    assert(0 <= at < self.entries.len() && id_of(self.entries[at]) == id);
                    assert(at == i);
                }
                return Some(i);
            }
            i = i + 1;
        }
        None
    }

    /// Whether there is a record under `id`.
    pub fn contains(&self, id: u128) -> (r: bool)
        ensures
            r == self@.contains_key(id),
    {
        self.find(id).is_some()
    }

    /// The number of records.
    pub fn len(&self) -> (r: usize)
        ensures
            r == self.ids().len(),
    {
        self.entries.len()
    }

    /// Puts bytes that were kept elsewhere back under `id`, as when the store
    /// is filled again at startup. Where there is a record under `id`
    /// already, nothing changes and the answer is `AlreadyExists`.
    pub fn restore(&mut self, id: u128, bytes: Vec<u8>) -> (r: Result<(), StoreError>)
        ensures
            match r {
                Ok(_) => !old(self)@.contains_key(id) && final(self)@ == old(self)@.insert(
                    id,
                    bytes@,
                ) && final(self).ids() == old(self).ids().push(id),
                Err(e) => e == StoreError::AlreadyExists && old(self)@.contains_key(id)
                    && *final(self) == *old(self),
            },
    {
        if self.find(id).is_some() {
            return Err(StoreError::AlreadyExists);
        }
        proof {
            use_type_invariant(&*self);
        }
        let ghost before = *self;
        let mut entries: Vec<(u128, Vec<u8>)> = Vec::new();
        std::mem::swap(&mut self.entries, &mut entries);
        entries.push((id, bytes));
        std::mem::swap(&mut self.entries, &mut entries);
        proof {
            let n = before.entries.len() as int;
            assert(self.ids() =~= before.ids().push(id));
            assert forall|other: u128| #[trigger]
                before@.insert(id, bytes@).contains_key(other) implies bytes_of(
                self.entries[self.place(other)],
            ) == before@.insert(id, bytes@)[other] by {
                if other == id {
                    assert(id_of(self.entries[n]) == id);
                } else {
                    let i = before.place(other);
                    assert(id_of(self.entries[i]) == other);
                }
            }
            assert forall|other: u128| #[trigger]
                self@.contains_key(other) <==> before@.insert(id, bytes@).contains_key(other) by {
                if before@.contains_key(other) {
                    let i = before.place(other);
                    assert(id_of(self.entries[i]) == other);
                }
                if other == id {
                    assert(id_of(self.entries[n]) == id);
                }
            }
            assert(self@ =~= before@.insert(id, bytes@));
        }
        Ok(())
    }

    /// The bytes under `id`, to be kept elsewhere; `None` where there is no
    /// record under `id`.
    pub fn raw(&self, id: u128) -> (r: Option<&Vec<u8>>)
        ensures
            r.is_some() == self@.contains_key(id),
            r matches Some(bytes) ==> bytes@ == self@[id],
    {
        match self.find(id) {
            Some(at) => Some(&self.entries[at].1),
            None => None,
        }
    }

    /// Puts the record of a new swap under `id`. Where there is a record
    /// under `id` already, nothing changes and the answer is `AlreadyExists`.
    pub fn insert<R: Record>(&mut self, id: u128, state: &R) -> (r: Result<(), StoreError>)
        ensures
            match r {
                Ok(_) => !old(self)@.contains_key(id) && final(self)@ == old(self)@.insert(
                    id,
                    R::encoding_of(state@),
                ) && final(self).ids() == old(self).ids().push(id),
                Err(e) => e == StoreError::AlreadyExists && old(self)@.contains_key(id)
                    && *final(self) == *old(self),
            },
    {
        if self.find(id).is_some() {
            return Err(StoreError::AlreadyExists);
        }
        self.restore(id, state.to_bytes())
    }

    /// Puts the latest record of a swap in the place of the one before it.
    /// Where there is no record under `id`, nothing changes and the answer is
    /// `NotFound`.
    pub fn update<R: Record>(&mut self, id: u128, state: &R) -> (r: Result<(), StoreError>)
        ensures
            match r {
                Ok(_) => old(self)@.contains_key(id) && final(self)@ == old(self)@.insert(
                    id,
                    R::encoding_of(state@),
                ) && final(self).ids() == old(self).ids(),
                Err(e) => e == StoreError::NotFound && !old(self)@.contains_key(id) && *final(self)
                    == *old(self),
            },
    {
        let at = match self.find(id) {
            Some(at) => at,
            None => {
                return Err(StoreError::NotFound);
            },
        };
        let bytes = state.to_bytes();
        proof {
            use_type_invariant(&*self);
        }
        let ghost before = *self;
        let mut entries: Vec<(u128, Vec<u8>)> = Vec::new();
        std::mem::swap(&mut self.entries, &mut entries);
        entries[at] = (id, bytes);
        std::mem::swap(&mut self.entries, &mut entries);
        proof {
            assert(self.ids() =~= before.ids());
            assert forall|other: u128| #[trigger]
                self@.contains_key(other) implies self@[other] == before@.insert(
                id,
                bytes@,
            )[other] by {
                let i = self.place(other);
                assert(id_of(before.entries[i]) == other);
                if other != id {
                    assert(before.place(other) == i);
                }
            }
            assert forall|other: u128| #[trigger]
                self@.contains_key(other) <==> before@.contains_key(other) by {
                if before@.contains_key(other) {
                    let i = before.place(other);
                    assert(id_of(self.entries[i]) == other);
                }
                if self@.contains_key(other) {
                    let i = self.place(other);
                    assert(id_of(before.entries[i]) == other);
                }
            }
            assert(self@ =~= before@.insert(id, bytes@));
        }
        Ok(())
    }

    /// The record under `id`: `NotFound` where there is none, `Corrupt` where
    /// the bytes under `id` cannot be read.
    pub fn get<R: Record>(&self, id: u128) -> (r: Result<R, StoreError>)
        ensures
            match r {
                Ok(record) => self@.contains_key(id) && R::decoding_of(self@[id]) == Ok::<
                    R::V,
                    DecodeError,
                >(record@),
                Err(StoreError::NotFound) => !self@.contains_key(id),
                Err(StoreError::Corrupt(e)) => self@.contains_key(id) && R::decoding_of(self@[id])
                    == Err::<R::V, DecodeError>(e),
                Err(StoreError::AlreadyExists) => false,
            },
    {
        match self.find(id) {
            None => Err(StoreError::NotFound),
            Some(at) => match R::from_bytes(self.entries[at].1.as_slice()) {
                Ok(record) => Ok(record),
                Err(e) => Err(StoreError::Corrupt(e)),
            },
        }
    }
}

/// The records of the swaps that are not over, each with its id, in the
/// order of `ids`; or, where the bytes under one of `ids` cannot be read, why
/// the first such cannot.
pub open spec fn unfinished<R: Record>(ids: Seq<u128>, records: Map<u128, Seq<u8>>) -> Result<
    Seq<(u128, R::V)>,
    DecodeError,
>
    decreases ids.len(),
{
    if ids.len() == 0 {
        Ok(Seq::empty())
    } else {
        match unfinished::<R>(ids.drop_last(), records) {
            Err(e) => Err(e),
            Ok(before) => match R::decoding_of(records[ids.last()]) {
                Err(e) => Err(e),
                Ok(record) => if R::finished(record) {
                    Ok(before)
                } else {
                    Ok(before.push((ids.last(), record)))
                },
            },
        }
    }
}

/// What a list of records with their ids holds.
pub open spec fn listed<R: Record>(list: Seq<(u128, R)>) -> Seq<(u128, R::V)> {
    list.map_values(
        |entry: (u128, R)|
            {
                let (id, record) = entry;
                (id, record@)
            },
    )
}

impl Database {
    /// The records of the swaps that are not over, each with its id, in the
    /// order in which the swaps came in. Where the bytes of a record cannot
    /// be read, the answer is `Corrupt` and says why the first such cannot.
    pub fn list_unfinished<R: Record>(&self) -> (r: Result<Vec<(u128, R)>, StoreError>)
        ensures
            match r {
                Ok(list) => unfinished::<R>(self.ids(), self@) == Ok::<
                    Seq<(u128, R::V)>,
                    DecodeError,
                >(listed(list@)),
                Err(StoreError::Corrupt(e)) => unfinished::<R>(self.ids(), self@) == Err::<
                    Seq<(u128, R::V)>,
                    DecodeError,
                >(e),
                Err(_) => false,
            },
    {
        let mut list: Vec<(u128, R)> = Vec::new();
        let mut i: usize = 0;
        proof {
            use_type_invariant(self);
            assert(self.ids().take(0).len() == 0);
            assert(listed(list@) =~= Seq::<(u128, R::V)>::empty());
        }
        while i < self.entries.len()
            invariant
                self.distinct(),
                i <= self.entries.len(),
                self.ids().len() == self.entries.len(),
                unfinished::<R>(self.ids().take(i as int), self@) == Ok::<
                    Seq<(u128, R::V)>,
                    DecodeError,
                >(listed(list@)),
            decreases self.entries.len() - i,
        {
            let id = self.entries[i].0;
            proof {
                let at = self.place(id);
                assert(0 <= at < self.entries.len() && id_of(self.entries[at]) == id);
                assert(at == i);
                assert(self@[id] == bytes_of(self.entries[i as int]));
                assert(self.ids().take(i + 1).drop_last() =~= self.ids().take(i as int));
                assert(self.ids().take(i + 1).last() == id);
            }
            match R::from_bytes(self.entries[i].1.as_slice()) {
                Err(e) => {
                    proof {
                        lemma_unfinished_fails::<R>(self.ids(), self@, i + 1);
                    }
                    return Err(StoreError::Corrupt(e));
                },
                Ok(record) => {
                    if !record.is_finished() {
                        let ghost before = listed(list@);
                        list.push((id, record));
                        assert(listed(list@) =~= before.push((id, record@)));
                    }
                },
            }
            i = i + 1;
        }
        assert(self.ids().take(i as int) =~= self.ids());
        Ok(list)
    }
}

/// Once the records under the first `n` ids cannot all be read, neither can
/// those under all ids, for the same reason.
pub proof fn lemma_unfinished_fails<R: Record>(
    ids: Seq<u128>,
    records: Map<u128, Seq<u8>>,
    n: int,
)
    requires
        0 <= n <= ids.len(),
        unfinished::<R>(ids.take(n), records).is_err(),
    ensures
        unfinished::<R>(ids, records) == unfinished::<R>(ids.take(n), records),
    decreases ids.len() - n,
{
    if n < ids.len() {
        assert(ids.take(n + 1).drop_last() =~= ids.take(n));
        lemma_unfinished_fails::<R>(ids, records, n + 1);
    } else {
        assert(ids.take(n) =~= ids);
    }
}

} // verus!
