//! The object dictionary: a bounded, typed key/value store of device
//! parameters keyed by `(index, subindex)`, enforcing read/write access
//! rules. Backed by a fixed-capacity `heapless` index map, so the store
//! never allocates beyond its construction-time bound.

use vstd::prelude::*;

verus! {

/// Type tag of a dictionary entry's value.
#[derive(Clone, Copy, Debug, PartialEq, Eq, Structural)]
pub enum DataType {
    Boolean,
    Integer8,
    Integer16,
    Integer32,
    Unsigned8,
    Unsigned16,
    Unsigned32,
    Float32,
}

/// Access rule of a dictionary entry.
#[derive(Clone, Copy, Debug, PartialEq, Eq, Structural)]
pub enum AccessType {
    ReadOnly,
    WriteOnly,
    ReadWrite,
}

/// A stored scalar. `Float32` carries the raw 32-bit pattern of the number,
/// since the verified core keeps every scalar as a plain integer; producers
/// and consumers of real floating-point values convert at the boundary.
#[derive(Clone, Copy, Debug, PartialEq, Eq, Structural)]
pub enum Value {
    Bool(bool),
    Int8(i8),
    Int16(i16),
    Int32(i32),
    Uint8(u8),
    Uint16(u16),
    Uint32(u32),
    Float32(u32),
}

/// Error of `read` and `write`: the entry's access rule forbids the operation.
#[derive(Clone, Copy, Debug, PartialEq, Eq, Structural)]
pub enum ReadWriteError {
    AccessDenied,
}

/// Error of `add_entry`: the dictionary is at capacity and the key is new.
#[derive(Clone, Copy, Debug, PartialEq, Eq, Structural)]
pub struct CapacityExceeded;

/// Whether a value's variant matches a type tag.
pub open spec fn tag_matches(t: DataType, v: Value) -> bool {
    match (t, v) {
        (DataType::Boolean, Value::Bool(_)) => true,
        (DataType::Integer8, Value::Int8(_)) => true,
        (DataType::Integer16, Value::Int16(_)) => true,
        (DataType::Integer32, Value::Int32(_)) => true,
        (DataType::Unsigned8, Value::Uint8(_)) => true,
        (DataType::Unsigned16, Value::Uint16(_)) => true,
        (DataType::Unsigned32, Value::Uint32(_)) => true,
        (DataType::Float32, Value::Float32(_)) => true,
        _ => false,
    }
}

/// One device parameter: its key, type tag, access rule, and current value.
#[derive(Clone, Copy, Debug, PartialEq, Eq, Structural)]
pub struct ObjectDictionaryEntry {
    pub index: u16,
    pub subindex: u8,
    pub data_type: DataType,
    pub access_type: AccessType,
    pub value: Value,
}

impl ObjectDictionaryEntry {
    /// The stored value's variant matches the entry's type tag. Established
    /// at construction; a typed write preserves it, an untyped one need not.
    pub open spec fn wf(self) -> bool {
        tag_matches(self.data_type, self.value)
    }

    /// Build an entry whose value matches its type tag.
    pub fn new(
        index: u16,
        subindex: u8,
        data_type: DataType,
        access_type: AccessType,
        value: Value,
    ) -> (r: ObjectDictionaryEntry)
        requires
            tag_matches(data_type, value),
        ensures
            r == (ObjectDictionaryEntry { index, subindex, data_type, access_type, value }),
            r.wf(),
    {
        ObjectDictionaryEntry { index, subindex, data_type, access_type, value }
    }

    /// What `read` returns: the value, unless the entry is write-only.
    pub open spec fn spec_read(self) -> Result<Value, ReadWriteError> {
        if self.access_type is WriteOnly {
            Err(ReadWriteError::AccessDenied)
        } else {
            Ok(self.value)
        }
    }

    /// What `write` does: replaces the value, unless the entry is read-only,
    /// in which case the entry is unchanged. Returns the entry after the
    /// write together with the reported result.
    pub open spec fn spec_write(self, new_value: Value) -> (ObjectDictionaryEntry, Result<
        (),
        ReadWriteError,
    >) {
        if self.access_type is ReadOnly {
            (self, Err(ReadWriteError::AccessDenied))
        } else {
            (
                ObjectDictionaryEntry { value: new_value, ..self },
                Ok(()),
            )
        }
    }

    /// Read the stored value; fails with `AccessDenied` exactly when the
    /// entry is write-only.
    pub fn read(&self) -> (r: Result<Value, ReadWriteError>)
        ensures
            r == self.spec_read(),
    {
        match self.access_type {
            AccessType::ReadOnly | AccessType::ReadWrite => Ok(self.value),
            AccessType::WriteOnly => Err(ReadWriteError::AccessDenied),
        }
    }

    /// Replace the stored value; fails with `AccessDenied`, and leaves the
    /// entry unchanged, exactly when the entry is read-only. Matching the
    /// new value's variant to the type tag is the caller's business.
    pub fn write(&mut self, new_value: Value) -> (r: Result<(), ReadWriteError>)
        ensures
            *final(self) == old(self).spec_write(new_value).0,
            r == old(self).spec_write(new_value).1,
    {
        match self.access_type {
            AccessType::WriteOnly | AccessType::ReadWrite => {
                self.value = new_value;
                Ok(())
            },
            AccessType::ReadOnly => Err(ReadWriteError::AccessDenied),
        }
    }
}

/// A write to a read-only entry always fails with `AccessDenied` and leaves
/// the stored value unchanged.
pub proof fn lemma_read_only_write_denied(e: ObjectDictionaryEntry, v: Value)
    requires
        e.access_type == AccessType::ReadOnly,
    ensures
        e.spec_write(v).1 is Err && e.spec_write(v).1->Err_0 == ReadWriteError::AccessDenied,
        e.spec_write(v).0 == e,
{
}

/// A read of a write-only entry always fails with `AccessDenied`.
pub proof fn lemma_write_only_read_denied(e: ObjectDictionaryEntry)
    requires
        e.access_type == AccessType::WriteOnly,
    ensures
        e.spec_read() is Err && e.spec_read()->Err_0 == ReadWriteError::AccessDenied,
{
}

/// The entry after writing each value of `vs` in turn.
pub open spec fn spec_write_all(e: ObjectDictionaryEntry, vs: Seq<Value>) -> ObjectDictionaryEntry
    decreases vs.len(),
{
    if vs.len() == 0 {
        e
    } else {
        spec_write_all(e.spec_write(vs[0]).0, vs.drop_first())
    }
}

/// On a read-write entry, any sequence of writes followed by a read returns
/// the most recently written value.
pub proof fn lemma_last_write_wins(e: ObjectDictionaryEntry, vs: Seq<Value>)
    requires
        e.access_type == AccessType::ReadWrite,
        vs.len() > 0,
    ensures
        spec_write_all(e, vs).spec_read() is Ok && spec_write_all(e, vs).spec_read()->Ok_0
            == vs.last(),
    decreases vs.len(),
{
    if vs.len() == 1 {
        assert(spec_write_all(e.spec_write(vs[0]).0, vs.drop_first()) == e.spec_write(vs[0]).0);
    } else {
        lemma_last_write_wins(e.spec_write(vs[0]).0, vs.drop_first());
        assert(vs.drop_first().last() == vs.last());
    }
}

/// Construction options for the bootstrap dictionary.
pub struct Config {}

impl Default for Config {
    fn default() -> (r: Config)
        ensures
            r == (Config {  }),
    {
        Config {  }
    }
}

/// Declares `heapless::IndexMap`, the fixed-capacity hash map that backs
/// the store; opaque here, spoken of only through `od_entries`.
#[verifier::external_type_specification]
#[verifier::external_body]
#[verifier::reject_recursive_types(K)]
#[verifier::reject_recursive_types(V)]
#[verifier::reject_recursive_types(S)]
pub struct ExIndexMap<K, V, S, const N: usize>(heapless::IndexMap<K, V, S, N>);

/// Declares the hasher-builder type parameter of the backing map; opaque.
#[verifier::external_type_specification]
#[verifier::external_body]
#[verifier::reject_recursive_types(H)]
pub struct ExBuildHasherDefault<H>(hash32::BuildHasherDefault<H>);

/// Declares the FNV hasher of the backing map; opaque.
#[verifier::external_type_specification]
#[verifier::external_body]
pub struct ExFnvHasher(hash32::FnvHasher);

/// The backing store: a fixed-capacity FNV-hashed index map of 32 slots
/// (the capacity must be a power of two greater than one).
type OdMap = heapless::index_map::FnvIndexMap<(u16, u8), ObjectDictionaryEntry, 32>;

/// The entries a backing map holds, as a map from key to entry.
pub uninterp spec fn od_entries(m: &OdMap) -> Map<(u16, u8), ObjectDictionaryEntry>;

/// Relies on `heapless::IndexMap::new`: creates an empty map.
#[verifier::external_body]
fn od_map_new() -> (r: OdMap)
    ensures
        od_entries(&r).dom().finite() && od_entries(&r).len() == 0,
{
    heapless::index_map::FnvIndexMap::new()
}

/// Relies on `heapless::IndexMap::insert`: replaces the value of a present
/// key returning the old one, adds an absent key while the map is below its
/// capacity, and otherwise reports a full map by handing the pair back,
/// leaving the map unchanged.
#[verifier::external_body]
fn od_map_insert(m: &mut OdMap, key: (u16, u8), value: ObjectDictionaryEntry) -> (r: Result<
    Option<ObjectDictionaryEntry>,
    ((u16, u8), ObjectDictionaryEntry),
>)
    ensures
        od_entries(old(m)).dom().contains(key) ==> r is Ok && r->Ok_0 == Some(
            od_entries(old(m))[key],
        ) && od_entries(final(m)) == od_entries(old(m)).insert(key, value),
        !od_entries(old(m)).dom().contains(key) && od_entries(old(m)).len() < 32 ==> r is Ok
            && r->Ok_0 is None && od_entries(final(m)) == od_entries(old(m)).insert(key, value),
        !od_entries(old(m)).dom().contains(key) && od_entries(old(m)).len() >= 32 ==> r is Err
            && r->Err_0 == (key, value) && od_entries(final(m)) == od_entries(old(m)),
{
    m.insert(key, value)
}

/// Relies on `heapless::IndexMap::get`: returns the value stored at the
/// key, if any.
#[verifier::external_body]
fn od_map_get(m: &OdMap, key: (u16, u8)) -> (r: Option<ObjectDictionaryEntry>)
    ensures
        od_entries(m).dom().contains(key) ==> r == Some(od_entries(m)[key]),
        !od_entries(m).dom().contains(key) ==> r is None,
{
    m.get(&key).copied()
}

/// The bounded parameter store. Capacity is fixed at 32 entries; inserting
/// a new key beyond that fails, it never grows.
pub struct ObjectDictionary {
    entries: OdMap,
}

impl View for ObjectDictionary {
    type V = Map<(u16, u8), ObjectDictionaryEntry>;

    /// The stored entries, keyed by `(index, subindex)`.
    closed spec fn view(&self) -> Map<(u16, u8), ObjectDictionaryEntry> {
        od_entries(&self.entries)
    }
}

impl ObjectDictionary {
    /// The key set is finite and within the capacity bound.
    pub open spec fn wf(&self) -> bool {
        self@.dom().finite() && self@.len() <= 32
    }

    /// An empty dictionary.
    pub fn new() -> (r: ObjectDictionary)
        ensures
            r@ == Map::<(u16, u8), ObjectDictionaryEntry>::empty(),
            r.wf(),
    {
        ObjectDictionary { entries: od_map_new() }
    }

    /// Add or overwrite the entry at `(entry.index, entry.subindex)`; fails
    /// with `CapacityExceeded`, changing nothing, exactly when the bound is
    /// reached and the key is new.
    pub fn add_entry(&mut self, entry: ObjectDictionaryEntry) -> (r: Result<(), CapacityExceeded>)
        ensures
            old(self)@.dom().contains((entry.index, entry.subindex)) || old(self)@.len() < 32 ==> r
                is Ok && final(self)@ == old(self)@.insert((entry.index, entry.subindex), entry),
            !old(self)@.dom().contains((entry.index, entry.subindex)) && old(self)@.len() >= 32
                ==> r is Err && final(self)@ == old(self)@,
            old(self).wf() ==> final(self).wf(),
    {
        let key = (entry.index, entry.subindex);
        match od_map_insert(&mut self.entries, key, entry) {
            Ok(_) => Ok(()),
            Err(_) => Err(CapacityExceeded),
        }
    }

    /// Look the entry at a key up; no side effects.
    pub fn get_entry(&self, index: u16, subindex: u8) -> (r: Option<ObjectDictionaryEntry>)
        ensures
            self@.dom().contains((index, subindex)) ==> r == Some(self@[(index, subindex)]),
            !self@.dom().contains((index, subindex)) ==> r is None,
    {
        od_map_get(&self.entries, (index, subindex))
    }

    /// Read the value stored at a present key; fails with `AccessDenied`
    /// exactly when the entry is write-only.
    pub fn read(&self, index: u16, subindex: u8) -> (r: Result<Value, ReadWriteError>)
        requires
            self@.dom().contains((index, subindex)),
        ensures
            r == self@[(index, subindex)].spec_read(),
    {
        match self.get_entry(index, subindex) {
            Some(e) => e.read(),
            None => Err(ReadWriteError::AccessDenied),
        }
    }

    /// Write a value at a present key; fails with `AccessDenied`, changing
    /// nothing, exactly when the entry is read-only. Matching the value's
    /// variant to the entry's type tag is the caller's business.
    pub fn write(&mut self, index: u16, subindex: u8, value: Value) -> (r: Result<
        (),
        ReadWriteError,
    >)
        requires
            old(self)@.dom().contains((index, subindex)),
        ensures
            old(self)@[(index, subindex)].access_type == AccessType::ReadOnly ==> r is Err
                && r->Err_0 == ReadWriteError::AccessDenied && final(self)@ == old(self)@,
            old(self)@[(index, subindex)].access_type != AccessType::ReadOnly ==> r is Ok
                && final(self)@ == old(self)@.insert(
                (index, subindex),
                old(self)@[(index, subindex)].spec_write(value).0,
            ),
            old(self).wf() ==> final(self).wf(),
    {
        let key = (index, subindex);
        match od_map_get(&self.entries, key) {
            Some(mut e) => {
                match e.write(value) {
                    Ok(_) => {
                        let _ = od_map_insert(&mut self.entries, key, e);
                        Ok(())
                    },
                    Err(err) => Err(err),
                }
            },
            None => Err(ReadWriteError::AccessDenied),
        }
    }

    /// The communication-profile bootstrap entries: device type, error
    /// register, manufacturer status, error history, SYNC COB-ID,
    /// communication cycle period, and a heartbeat producer time of
    /// 1000 ms.
    pub fn new_canopen_301(_config: Config) -> (r: ObjectDictionary)
        ensures
            r@ == spec_canopen_301_entries(),
            r.wf(),
    {
        let mut od = ObjectDictionary::new();
        let _ = od.add_entry(
            ObjectDictionaryEntry::new(
                0x1000,
                0,
                DataType::Unsigned32,
                AccessType::ReadOnly,
                Value::Uint32(0),
            ),
        );
        let _ = od.add_entry(
            ObjectDictionaryEntry::new(
                0x1001,
                0,
                DataType::Unsigned8,
                AccessType::ReadOnly,
                Value::Uint8(0),
            ),
        );
        let _ = od.add_entry(
            ObjectDictionaryEntry::new(
                0x1002,
                0,
                DataType::Unsigned32,
                AccessType::ReadOnly,
                Value::Uint32(0),
            ),
        );
        let _ = od.add_entry(
            ObjectDictionaryEntry::new(
                0x1003,
                0,
                DataType::Unsigned32,
                AccessType::ReadOnly,
                Value::Uint32(0),
            ),
        );
        let _ = od.add_entry(
            ObjectDictionaryEntry::new(
                0x1005,
                0,
                DataType::Unsigned32,
                AccessType::ReadWrite,
                Value::Uint32(0x40000000),
            ),
        );
        let _ = od.add_entry(
            ObjectDictionaryEntry::new(
                0x1006,
                0,
                DataType::Unsigned32,
                AccessType::ReadWrite,
                Value::Uint32(0),
            ),
        );
        let _ = od.add_entry(
            ObjectDictionaryEntry::new(
                0x1017,
                0,
                DataType::Unsigned16,
                AccessType::ReadWrite,
                Value::Uint16(1000),
            ),
        );
        od
    }
}

/// The bootstrap entries seeded by `new_canopen_301`.
pub open spec fn spec_canopen_301_entries() -> Map<(u16, u8), ObjectDictionaryEntry> {
    Map::<(u16, u8), ObjectDictionaryEntry>::empty().insert(
        (0x1000, 0),
        ObjectDictionaryEntry {
            index: 0x1000,
            subindex: 0,
            data_type: DataType::Unsigned32,
            access_type: AccessType::ReadOnly,
            value: Value::Uint32(0),
        },
    ).insert(
        (0x1001, 0),
        ObjectDictionaryEntry {
            index: 0x1001,
            subindex: 0,
            data_type: DataType::Unsigned8,
            access_type: AccessType::ReadOnly,
            value: Value::Uint8(0),
        },
    ).insert(
        (0x1002, 0),
        ObjectDictionaryEntry {
            index: 0x1002,
            subindex: 0,
            data_type: DataType::Unsigned32,
            access_type: AccessType::ReadOnly,
            value: Value::Uint32(0),
        },
    ).insert(
        (0x1003, 0),
        ObjectDictionaryEntry {
            index: 0x1003,
            subindex: 0,
            data_type: DataType::Unsigned32,
            access_type: AccessType::ReadOnly,
            value: Value::Uint32(0),
        },
    ).insert(
        (0x1005, 0),
        ObjectDictionaryEntry {
            index: 0x1005,
            subindex: 0,
            data_type: DataType::Unsigned32,
            access_type: AccessType::ReadWrite,
            value: Value::Uint32(0x40000000),
        },
    ).insert(
        (0x1006, 0),
        ObjectDictionaryEntry {
            index: 0x1006,
            subindex: 0,
            data_type: DataType::Unsigned32,
            access_type: AccessType::ReadWrite,
            value: Value::Uint32(0),
        },
    ).insert(
        (0x1017, 0),
        ObjectDictionaryEntry {
            index: 0x1017,
            subindex: 0,
            data_type: DataType::Unsigned16,
            access_type: AccessType::ReadWrite,
            value: Value::Uint16(1000),
        },
    )
}

} // verus!
