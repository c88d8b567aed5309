//! The record store: records keyed by address, created once, found, and
//! replaced in place. Nothing is ever removed.

use crate::address::Address;
use crate::error::ErrorCode;
use crate::records::{
    BatchStatusUpdate, BatchStatusUpdateView, FarmPlot, FarmPlotView, HarvestBatch,
    HarvestBatchView, Record, RecordView, SatelliteVerification, SatelliteVerificationView,
};
use vstd::prelude::*;

verus! {

/// One occupied address with its record.
struct Entry {
    address: Address,
    record: Record,
}

/// A key-value store of records. Its view is the map from each occupied
/// address to the record that stands there.
pub struct RecordStore {
    entries: Vec<Entry>,
}

/// Whether the entry at index `i` is the one for `address`.
spec fn holds(entries: Seq<Entry>, address: Address, i: int) -> bool {
    0 <= i < entries.len() && entries[i].address == address
}

/// The map that a sequence of entries stands for.
spec fn contents(entries: Seq<Entry>) -> Map<Address, RecordView> {
    Map::new(
        |address: Address| exists|i: int| holds(entries, address, i),
        |address: Address| entries[choose|i: int| holds(entries, address, i)].record@,
    )
}

/// Whether no address occurs twice.
spec fn distinct(entries: Seq<Entry>) -> bool {
    forall|i: int, j: int|
        0 <= i < j < entries.len() ==> entries[i].address != entries[j].address
}

/// Each entry is found in the map under its own address.
proof fn lemma_entry(entries: Seq<Entry>, i: int)
    requires
        distinct(entries),
        0 <= i < entries.len(),
    ensures
        contents(entries).dom().contains(entries[i].address),
        contents(entries)[entries[i].address] == entries[i].record@,
{
    let address = entries[i].address;
    assert(holds(entries, address, i));
    let j = choose|j: int| holds(entries, address, j);
    assert(i == j);
}

/// An entry pushed at a free address is an insertion into the map.
proof fn lemma_pushed(entries: Seq<Entry>, entry: Entry)
    requires
        distinct(entries),
        !contents(entries).dom().contains(entry.address),
    ensures
        distinct(entries.push(entry)),
        contents(entries.push(entry)) == contents(entries).insert(entry.address, entry.record@),
{
    let next = entries.push(entry);
    assert forall|i: int, j: int| 0 <= i < j < next.len() implies next[i].address
        != next[j].address by {
        if j == entries.len() {
            assert(holds(entries, entries[i].address, i));
        }
    }
    assert forall|address: Address| #[trigger]
        contents(next).dom().contains(address) <==> (address == entry.address || contents(
            entries,
        ).dom().contains(address)) by {
        if exists|i: int| holds(next, address, i) {
            let i = choose|i: int| holds(next, address, i);
            if i < entries.len() {
                assert(holds(entries, address, i));
            }
        }
        if address == entry.address {
            assert(holds(next, address, entries.len() as int));
        }
        if exists|i: int| holds(entries, address, i) {
            let i = choose|i: int| holds(entries, address, i);
            assert(holds(next, address, i));
        }
    }
    assert forall|address: Address| #[trigger]
        contents(next).dom().contains(address) implies contents(next)[address] == contents(
        entries,
    ).insert(entry.address, entry.record@)[address] by {
        let i = choose|i: int| holds(next, address, i);
        lemma_entry(next, i);
        if i < entries.len() {
            assert(holds(entries, address, i));
            lemma_entry(entries, i);
        }
    }
    assert(contents(next) =~= contents(entries).insert(entry.address, entry.record@));
}

/// An entry put in place of the one with its address is an insertion into
/// the map.
proof fn lemma_replaced(entries: Seq<Entry>, at: int, entry: Entry)
    requires
        distinct(entries),
        0 <= at < entries.len(),
        entries[at].address == entry.address,
    ensures
        distinct(entries.update(at, entry)),
        contents(entries.update(at, entry)) == contents(entries).insert(
            entry.address,
            entry.record@,
        ),
{
    let next = entries.update(at, entry);
    assert forall|address: Address| #[trigger]
        contents(next).dom().contains(address) <==> (address == entry.address || contents(
            entries,
        ).dom().contains(address)) by {
        if exists|i: int| holds(next, address, i) {
            let i = choose|i: int| holds(next, address, i);
            assert(holds(entries, address, i));
        }
        if address == entry.address {
            assert(holds(next, address, at));
        }
        if exists|i: int| holds(entries, address, i) {
            let i = choose|i: int| holds(entries, address, i);
            assert(holds(next, address, i));
        }
    }
    assert forall|address: Address| #[trigger]
        contents(next).dom().contains(address) implies contents(next)[address] == contents(
        entries,
    ).insert(entry.address, entry.record@)[address] by {
        let i = choose|i: int| holds(next, address, i);
        lemma_entry(next, i);
        if i != at {
            assert(holds(entries, address, i));
            lemma_entry(entries, i);
        }
    }
    assert(contents(next) =~= contents(entries).insert(entry.address, entry.record@));
}

/// The map has as many addresses as there are entries.
proof fn lemma_size(entries: Seq<Entry>)
    requires
        distinct(entries),
    ensures
        contents(entries).dom().finite(),
        contents(entries).dom().len() == entries.len(),
    decreases entries.len(),
{
    if entries.len() == 0 {
        assert(contents(entries).dom() =~= Set::<Address>::empty());
    } else {
        let rest = entries.drop_last();
        let last = entries.last();
        assert(distinct(rest));
        assert(!contents(rest).dom().contains(last.address)) by {
            if exists|i: int| holds(rest, last.address, i) {
                let i = choose|i: int| holds(rest, last.address, i);
                assert(entries[i].address == entries[entries.len() - 1].address);
            }
        }
        lemma_size(rest);
        lemma_pushed(rest, last);
        assert(rest.push(last) =~= entries);
        assert(contents(entries).dom() =~= contents(rest).dom().insert(last.address));
    }
}

impl View for RecordStore {
    type V = Map<Address, RecordView>;

    closed spec fn view(&self) -> Map<Address, RecordView> {
        contents(self.entries@)
    }
}

impl RecordStore {
    /// No address occurs twice among the entries.
    #[verifier::type_invariant]
    spec fn well_formed(&self) -> bool {
        distinct(self.entries@)
    }

    /// The empty store.
    pub fn new() -> (r: RecordStore)
        ensures
            r@ == Map::<Address, RecordView>::empty(),
    {
        let r = RecordStore { entries: Vec::new() };
        assert(r@ =~= Map::<Address, RecordView>::empty());
        r
    }

    /// The index of the entry for `address`, if there is one.
    fn position(&self, address: &Address) -> (r: Option<usize>)
        ensures
            match r {
                Some(i) => holds(self.entries@, *address, i as int) && self@.dom().contains(
                    *address,
                ) && self@[*address] == self.entries@[i as int].record@,
                None => !self@.dom().contains(*address),
            },
    {
        proof {
            use_type_invariant(self);
        }
        let mut i: usize = 0;
        while i < self.entries.len()
            invariant
                distinct(self.entries@),
                i <= self.entries@.len(),
                forall|j: int| 0 <= j < i ==> self.entries@[j].address != *address,
            decreases self.entries@.len() - i,
        {
            if self.entries[i].address == *address {
                proof {
                    lemma_entry(self.entries@, i as int);
                }
                return Some(i);
            }
            i += 1;
        }
        assert(forall|j: int| !holds(self.entries@, *address, j));
        None
    }

    /// Whether a record stands at `address`.
    pub fn contains(&self, address: &Address) -> (r: bool)
        ensures
            r == self@.dom().contains(*address),
    {
        self.position(address).is_some()
    }

    /// The record at `address`.
    pub fn find(&self, address: &Address) -> (r: Result<&Record, ErrorCode>)
        ensures
            match r {
                Ok(record) => self@.dom().contains(*address) && record@ == self@[*address],
                Err(e) => e == ErrorCode::NotFound && !self@.dom().contains(*address),
            },
    {
        match self.position(address) {
            Some(i) => Ok(&self.entries[i].record),
            None => Err(ErrorCode::NotFound),
        }
    }

    /// The farm plot at `address`.
    pub fn find_farm_plot(&self, address: &Address) -> (r: Result<&FarmPlot, ErrorCode>)
        ensures
            found(r, farm_plot_at(self@, *address)),
    {
        match self.find(address) {
            Ok(Record::FarmPlot(plot)) => Ok(plot),
            _ => Err(ErrorCode::NotFound),
        }
    }

    /// The harvest batch at `address`.
    pub fn find_harvest_batch(&self, address: &Address) -> (r: Result<&HarvestBatch, ErrorCode>)
        ensures
            found(r, harvest_batch_at(self@, *address)),
    {
        match self.find(address) {
            Ok(Record::HarvestBatch(batch)) => Ok(batch),
            _ => Err(ErrorCode::NotFound),
        }
    }

    /// The verification at `address`.
    pub fn find_verification(&self, address: &Address) -> (r: Result<
        &SatelliteVerification,
        ErrorCode,
    >)
        ensures
            found(r, verification_at(self@, *address)),
    {
        match self.find(address) {
            Ok(Record::Verification(verification)) => Ok(verification),
            _ => Err(ErrorCode::NotFound),
        }
    }

    /// The status update at `address`.
    pub fn find_status_update(&self, address: &Address) -> (r: Result<
        &BatchStatusUpdate,
        ErrorCode,
    >)
        ensures
            found(r, status_update_at(self@, *address)),
    {
        match self.find(address) {
            Ok(Record::StatusUpdate(update)) => Ok(update),
            _ => Err(ErrorCode::NotFound),
        }
    }

    /// How many records the store holds.
    pub fn len(&self) -> (r: usize)
        ensures
            r == self@.dom().len(),
            self@.dom().finite(),
    {
        proof {
            use_type_invariant(self);
            lemma_size(self.entries@);
        }
        self.entries.len()
    }

    /// Puts `payload` at `address`, where no record stands yet, and hands the
    /// address back as the handle of the new record.
    pub fn create(&mut self, address: Address, payload: Record) -> (r: Result<Address, ErrorCode>)
        ensures
            r == created(old(self)@, address, payload@).0,
            final(self)@ == created(old(self)@, address, payload@).1,
    {
        proof {
            use_type_invariant(&*self);
        }
        match self.position(&address) {
            Some(_) => Err(ErrorCode::AddressOccupied),
            None => {
                let entry = Entry { address, record: payload };
                proof {
                    lemma_pushed(self.entries@, entry);
                }
                let mut entries: Vec<Entry> = Vec::new();
                core::mem::swap(&mut self.entries, &mut entries);
                entries.push(entry);
                self.entries = entries;
                Ok(address)
            },
        }
    }

    /// Puts `payload` in place of the record at `address`.
    pub fn replace(&mut self, address: &Address, payload: Record) -> (r: Result<(), ErrorCode>)
        ensures
            r == replaced(old(self)@, *address, payload@).0,
            final(self)@ == replaced(old(self)@, *address, payload@).1,
    {
        proof {
            use_type_invariant(&*self);
        }
        match self.position(address) {
            Some(i) => {
                let entry = Entry { address: *address, record: payload };
                proof {
                    lemma_replaced(self.entries@, i as int, entry);
                }
                let mut entries: Vec<Entry> = Vec::new();
                core::mem::swap(&mut self.entries, &mut entries);
                entries.set(i, entry);
                self.entries = entries;
                Ok(())
            },
            None => Err(ErrorCode::NotFound),
        }
    }

    /// Applies `updater` to the record at `address` and puts what it gives
    /// in the record's place. Where no record stands there, `updater` is not
    /// called and the store stays as it was.
    pub fn mutate<F: FnOnce(&Record) -> Record>(&mut self, address: &Address, updater: F) -> (r:
        Result<(), ErrorCode>)
        requires
            forall|record: &Record|
                old(self)@.dom().contains(*address) && record@ == old(self)@[*address]
                    ==> #[trigger] updater.requires((record,)),
        ensures
            match r {
                Ok(()) => old(self)@.dom().contains(*address) && exists|
                    before: &Record,
                    after: Record,
                |
                    {
                        &&& before@ == old(self)@[*address]
                        &&& #[trigger] updater.ensures((before,), after)
                        &&& final(self)@ == old(self)@.insert(*address, after@)
                    },
                Err(e) => e == ErrorCode::NotFound && !old(self)@.dom().contains(*address)
                    && final(self)@ == old(self)@,
            },
    {
        proof {
            use_type_invariant(&*self);
        }
        match self.position(address) {
            Some(i) => {
                let before = &self.entries[i].record;
                let after = updater(before);
                let entry = Entry { address: *address, record: after };
                proof {
                    lemma_replaced(self.entries@, i as int, entry);
                }
                let mut entries: Vec<Entry> = Vec::new();
                core::mem::swap(&mut self.entries, &mut entries);
                entries.set(i, entry);
                self.entries = entries;
                Ok(())
            },
            None => Err(ErrorCode::NotFound),
        }
    }
}

/// The farm plot at `address`, if one stands there.
pub open spec fn farm_plot_at(store: Map<Address, RecordView>, address: Address) -> Option<
    FarmPlotView,
> {
    if store.dom().contains(address) {
        match store[address] {
            RecordView::FarmPlot(plot) => Some(plot),
            _ => None,
        }
    } else {
        None
    }
}

/// The harvest batch at `address`, if one stands there.
pub open spec fn harvest_batch_at(store: Map<Address, RecordView>, address: Address) -> Option<
    HarvestBatchView,
> {
    if store.dom().contains(address) {
        match store[address] {
            RecordView::HarvestBatch(batch) => Some(batch),
            _ => None,
        }
    } else {
        None
    }
}

/// The verification at `address`, if one stands there.
pub open spec fn verification_at(store: Map<Address, RecordView>, address: Address) -> Option<
    SatelliteVerificationView,
> {
    if store.dom().contains(address) {
        match store[address] {
            RecordView::Verification(verification) => Some(verification),
            _ => None,
        }
    } else {
        None
    }
}

/// The status update at `address`, if one stands there.
pub open spec fn status_update_at(store: Map<Address, RecordView>, address: Address) -> Option<
    BatchStatusUpdateView,
> {
    if store.dom().contains(address) {
        match store[address] {
            RecordView::StatusUpdate(update) => Some(update),
            _ => None,
        }
    } else {
        None
    }
}

/// What a typed lookup returns: the record, or `NotFound` where no record of
/// that kind stands at the address.
pub open spec fn found<R: View>(r: Result<&R, ErrorCode>, expected: Option<R::V>) -> bool {
    match expected {
        Some(record) => r matches Ok(found) && found@ == record,
        None => r matches Err(e) && e == ErrorCode::NotFound,
    }
}

/// What `create` returns and leaves: the record is added where the address is
/// free; where it is occupied the store stays as it was.
pub open spec fn created(store: Map<Address, RecordView>, address: Address, payload: RecordView)
    -> (Result<Address, ErrorCode>, Map<Address, RecordView>) {
    if store.dom().contains(address) {
        (Err(ErrorCode::AddressOccupied), store)
    } else {
        (Ok(address), store.insert(address, payload))
    }
}

/// What `replace` returns and leaves: the record is replaced where one
/// stands; where none does the store stays as it was.
pub open spec fn replaced(store: Map<Address, RecordView>, address: Address, payload: RecordView)
    -> (Result<(), ErrorCode>, Map<Address, RecordView>) {
    if store.dom().contains(address) {
        (Ok(()), store.insert(address, payload))
    } else {
        (Err(ErrorCode::NotFound), store)
    }
}

} // verus!
