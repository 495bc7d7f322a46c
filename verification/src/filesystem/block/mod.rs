//! The registry of block devices: each device registered under a type name
//! gets the name followed by a per-type counter as its id.

use vstd::prelude::*;
use crate::util::fmt::{decimal_chars, format_decimal, lemma_decimal_injective};

pub mod nvme;

verus! {

/// The name of a block device, such as `nvme0`.
#[derive(Debug, Clone)]
pub struct DeviceId(pub String);

impl DeviceId {
    /// The device named `id`.
    pub fn new(id: String) -> (r: Self)
        ensures
            r.0@ == id@,
    {
        DeviceId(id)
    }

    /// The device's path: its name under `/dev/`.
    pub fn to_string(&self) -> (r: String)
        ensures
            r@ == "/dev/"@ + self.0@,
    {
        let mut s = String::from_str("/dev/");
        s.append(self.0.as_str());
        s
    }
}

/// What the kernel knows of a block device: the device itself, the size
/// and number of its blocks, and an optional label.
pub struct BlockDescriptor<D> {
    device: D,
    block_size: u32,
    block_count: u64,
    label: Option<String>,
}

/// A device made of fixed-size blocks.
pub trait BlockDevice {
    /// The size of a block in bytes.
    spec fn spec_block_size(&self) -> u32;

    /// The number of blocks.
    spec fn spec_block_count(&self) -> u64;

    /// The size of a block in bytes.
    fn block_size(&self) -> (r: u32)
        ensures
            r == self.spec_block_size(),
    ;

    /// The number of blocks.
    fn block_count(&self) -> (r: u64)
        ensures
            r == self.spec_block_count(),
    ;

    /// The capacity in bytes.
    fn capacity(&self) -> (r: u64)
        requires
            self.spec_block_size() * self.spec_block_count() <= u64::MAX,
        ensures
            r == self.spec_block_size() * self.spec_block_count(),
    {
        let size = self.block_size() as u64;
        let count = self.block_count();
        size * count
    }
}

impl<D> BlockDescriptor<D> {
    /// The device.
    pub closed spec fn spec_device(&self) -> D {
        self.device
    }

    /// The label, if the device has one.
    pub closed spec fn spec_label(&self) -> Option<String> {
        self.label
    }

    /// The descriptor of `device`, of `block_count` blocks of `block_size`
    /// bytes, without a label.
    pub fn new(device: D, block_size: u32, block_count: u64) -> (r: Self)
        ensures
            r.spec_device() == device,
            r.spec_block_size() == block_size,
            r.spec_block_count() == block_count,
            r.spec_label() is None,
    {
        BlockDescriptor { device, block_size, block_count, label: None }
    }

    /// The device.
    pub fn device(&self) -> (r: &D)
        ensures
            *r == self.spec_device(),
    {
        &self.device
    }
}

impl<D> BlockDevice for BlockDescriptor<D> {
    closed spec fn spec_block_size(&self) -> u32 {
        self.block_size
    }

    closed spec fn spec_block_count(&self) -> u64 {
        self.block_count
    }

    fn block_size(&self) -> (r: u32) {
        self.block_size
    }

    fn block_count(&self) -> (r: u64) {
        self.block_count
    }
}

/// The registered block devices, each under its id, and for each type name
/// the number of devices registered under it so far.
pub struct BlockDeviceRegistry<D> {
    devices: Vec<(DeviceId, BlockDescriptor<D>)>,
    type_counters: Vec<(String, usize)>,
}

/// The ids given under one type name never repeat: ids made of the same
/// name and different counts differ.
pub proof fn lemma_ids_distinct(kind: Seq<char>, a: nat, b: nat)
    requires
        a != b,
    ensures
        kind + decimal_chars(a) != kind + decimal_chars(b),
{
    if kind + decimal_chars(a) == kind + decimal_chars(b) {
        assert((kind + decimal_chars(a)).skip(kind.len() as int) =~= decimal_chars(a));
        assert((kind + decimal_chars(b)).skip(kind.len() as int) =~= decimal_chars(b));
        lemma_decimal_injective(a, b);
    }
}

/// The index of the only place where `x` occurs in `s`.
proof fn lemma_unique_index<A>(s: Seq<A>, i: int, x: A)
    requires
        s.no_duplicates(),
        0 <= i < s.len(),
        s[i] == x,
    ensures
        s.contains(x),
        s.index_of(x) == i,
{
    assert(s.contains(x));
}

/// The ids of the entries of `v`, in order.
pub open spec fn ids_of<D>(v: Seq<(DeviceId, BlockDescriptor<D>)>) -> Seq<Seq<char>> {
    v.map_values(|e: (DeviceId, BlockDescriptor<D>)| e.0.0@)
}

/// The type names of the counters in `v`, in order.
pub open spec fn names_of(v: Seq<(String, usize)>) -> Seq<Seq<char>> {
    v.map_values(|e: (String, usize)| e.0@)
}

/// Where the entry with id `id` stands in `v`, if there is one.
fn find_id<D>(v: &Vec<(DeviceId, BlockDescriptor<D>)>, id: &String) -> (r: Option<usize>)
    ensures
        match r {
            Some(j) => j < v@.len() && ids_of(v@)[j as int] == id@,
            None => !ids_of(v@).contains(id@),
        },
{
    let mut j: usize = 0;
    while j < v.len()
        invariant
            j <= v@.len(),
            forall|k: int| 0 <= k < j ==> ids_of(v@)[k] != id@,
        decreases v@.len() - j,
    {
        if v[j].0.0 == *id {
            return Some(j);
        }
        j = j + 1;
    }
    None
}

/// Where the counter of the type name `name` stands in `v`, if there is one.
fn find_name(v: &Vec<(String, usize)>, name: &String) -> (r: Option<usize>)
    ensures
        match r {
            Some(j) => j < v@.len() && names_of(v@)[j as int] == name@,
            None => !names_of(v@).contains(name@),
        },
{
    let mut j: usize = 0;
    while j < v.len()
        invariant
            j <= v@.len(),
            forall|k: int| 0 <= k < j ==> names_of(v@)[k] != name@,
        decreases v@.len() - j,
    {
        if v[j].0 == *name {
            return Some(j);
        }
        j = j + 1;
    }
    None
}

/// The counter of `name` in the counters `v`: 0 where it has none.
pub open spec fn count_in(v: Seq<(String, usize)>, name: Seq<char>) -> nat {
    if names_of(v).contains(name) {
        v[names_of(v).index_of(name)].1 as nat
    } else {
        0
    }
}

/// The entries `v` as a map from id to descriptor.
pub open spec fn map_of<D>(v: Seq<(DeviceId, BlockDescriptor<D>)>) -> Map<Seq<char>, BlockDescriptor<D>> {
    Map::new(|k: Seq<char>| ids_of(v).contains(k), |k: Seq<char>| v[ids_of(v).index_of(k)].1)
}

/// Counts one more device of type `name` in the counters `v`, where no
/// name occurs twice, and returns the count before.
fn bump_counter(v: &mut Vec<(String, usize)>, name: String) -> (r: usize)
    requires
        names_of(old(v)@).no_duplicates(),
        count_in(old(v)@, name@) < usize::MAX,
    ensures
        names_of(final(v)@).no_duplicates(),
        r == count_in(old(v)@, name@),
        count_in(final(v)@, name@) == r + 1,
        forall|n: Seq<char>| n != name@ ==> #[trigger] count_in(final(v)@, n) == count_in(old(v)@, n),
{
    let ghost key = name@;
    let ghost old_names = names_of(v@);
    match find_name(v, &name) {
        Some(j) => {
            let c = v[j].1;
            proof {
                lemma_unique_index(old_names, j as int, key);
            }
            v.set(j, (name, c + 1));
            proof {
                assert(names_of(v@) =~= old_names);
                lemma_unique_index(names_of(v@), j as int, key);
                assert forall|n: Seq<char>| n != key implies #[trigger] count_in(v@, n) == count_in(old(v)@, n) by {
                    if old_names.contains(n) {
                        let i = old_names.index_of(n);
                        assert(i != j);
                    }
                }
            }
            c
        },
        None => {
            v.push((name, 1));
            proof {
                assert(names_of(v@) =~= old_names.push(key));
                lemma_unique_index(names_of(v@), old_names.len() as int, key);
                assert forall|n: Seq<char>| n != key implies #[trigger] count_in(v@, n) == count_in(old(v)@, n) by {
                    if old_names.contains(n) {
                        let i = old_names.index_of(n);
                        lemma_unique_index(names_of(v@), i, n);
                    }
                    if names_of(v@).contains(n) {
                        let i = names_of(v@).index_of(n);
                        assert(old_names[i] == n);
                    }
                }
            }
            0
        },
    }
}

/// Puts `entry` into `v`, where no id occurs twice, in place of the entry
/// with the same id if there is one, else at the end.
fn put_entry<D>(v: &mut Vec<(DeviceId, BlockDescriptor<D>)>, entry: (DeviceId, BlockDescriptor<D>))
    requires
        ids_of(old(v)@).no_duplicates(),
    ensures
        ids_of(final(v)@).no_duplicates(),
        map_of(final(v)@) == map_of(old(v)@).insert(entry.0.0@, entry.1),
{
    let ghost key = entry.0.0@;
    let ghost value = entry.1;
    let ghost old_ids = ids_of(v@);
    match find_id(v, &entry.0.0) {
        Some(j) => {
            proof {
                lemma_unique_index(old_ids, j as int, key);
            }
            v.set(j, entry);
            proof {
                assert(ids_of(v@) =~= old_ids);
                lemma_unique_index(ids_of(v@), j as int, key);
                assert forall|k: Seq<char>| #[trigger] map_of(v@).contains_key(k) && k != key
                    implies map_of(v@)[k] == map_of(old(v)@)[k] by {
                    let i = old_ids.index_of(k);
                    assert(i != j);
                }
                assert(map_of(v@) =~= map_of(old(v)@).insert(key, value));
            }
        },
        None => {
            v.push(entry);
            proof {
                broadcast use vstd::seq_lib::lemma_seq_contains_after_push;
                assert(ids_of(v@) =~= old_ids.push(key));
                lemma_unique_index(ids_of(v@), old_ids.len() as int, key);
                assert forall|k: Seq<char>| #[trigger] map_of(v@).contains_key(k) && k != key
                    implies map_of(v@)[k] == map_of(old(v)@)[k] by {
                    let i = old_ids.index_of(k);
                    lemma_unique_index(ids_of(v@), i, k);
                }
                assert(map_of(v@) =~= map_of(old(v)@).insert(key, value));
            }
        },
    }
}

impl<D> BlockDeviceRegistry<D> {
    /// No id and no type name occurs twice.
    #[verifier::type_invariant]
    closed spec fn well_formed(&self) -> bool {
        &&& ids_of(self.devices@).no_duplicates()
        &&& names_of(self.type_counters@).no_duplicates()
    }

    /// The registered devices, by id.
    pub closed spec fn devices_map(&self) -> Map<Seq<char>, BlockDescriptor<D>> {
        map_of(self.devices@)
    }

    /// The number of devices registered so far under the type name `name`.
    pub closed spec fn counter_of(&self, name: Seq<char>) -> nat {
        count_in(self.type_counters@, name)
    }

    /// A registry with no device.
    pub fn new() -> (r: Self)
        ensures
            r.devices_map() == Map::<Seq<char>, BlockDescriptor<D>>::empty(),
            forall|name: Seq<char>| r.counter_of(name) == 0,
    {
        let r = BlockDeviceRegistry { devices: Vec::new(), type_counters: Vec::new() };
        proof {
            assert(r.devices_map() =~= Map::<Seq<char>, BlockDescriptor<D>>::empty());
        }
        r
    }

    /// Registers `device`, of `block_count` blocks of `block_size` bytes,
    /// under the id made of `kind` and the number of devices registered
    /// under that name before it, and returns that id. A device registered
    /// before under the same id is replaced.
    pub fn register(&mut self, kind: &str, device: D, block_size: u32, block_count: u64) -> (r: DeviceId)
        requires
            old(self).counter_of(kind@) < usize::MAX,
        ensures
            r.0@ == kind@ + decimal_chars(old(self).counter_of(kind@)),
            final(self).counter_of(kind@) == old(self).counter_of(kind@) + 1,
            forall|name: Seq<char>| name != kind@ ==> #[trigger] final(self).counter_of(name) == old(self).counter_of(name),
            final(self).devices_map() == old(self).devices_map().insert(r.0@, final(self).devices_map()[r.0@]),
            final(self).devices_map()[r.0@].spec_device() == device,
            final(self).devices_map()[r.0@].spec_block_size() == block_size,
            final(self).devices_map()[r.0@].spec_block_count() == block_count,
            final(self).devices_map()[r.0@].spec_label() is None,
    {
        proof {
            use_type_invariant(&*self);
        }
        let mut counters: Vec<(String, usize)> = Vec::new();
        std::mem::swap(&mut counters, &mut self.type_counters);
        let counter = bump_counter(&mut counters, String::from_str(kind));
        self.type_counters = counters;

        let mut text = String::from_str(kind);
        text.append(format_decimal(counter as u64).as_str());
        let id = DeviceId(text);
        let descriptor = BlockDescriptor::new(device, block_size, block_count);

        let mut devices: Vec<(DeviceId, BlockDescriptor<D>)> = Vec::new();
        std::mem::swap(&mut devices, &mut self.devices);
        put_entry(&mut devices, (DeviceId(id.0.clone()), descriptor));
        self.devices = devices;
        id
    }

    /// The device registered as `id`, if there is one.
    pub fn get(&self, id: &DeviceId) -> (r: Option<&BlockDescriptor<D>>)
        ensures
            match r {
                Some(d) => self.devices_map().contains_key(id.0@) && *d == self.devices_map()[id.0@],
                None => !self.devices_map().contains_key(id.0@),
            },
    {
        proof {
            use_type_invariant(self);
        }
        match find_id(&self.devices, &id.0) {
            Some(j) => {
                proof {
                    lemma_unique_index(ids_of(self.devices@), j as int, id.0@);
                }
                Some(&self.devices[j].1)
            },
            None => None,
        }
    }

    /// The number of registered devices.
    pub fn count(&self) -> (r: usize)
        ensures
            r == self.devices_map().len(),
    {
        proof {
            use_type_invariant(self);
            ids_of(self.devices@).unique_seq_to_set();
            assert(self.devices_map().dom() =~= ids_of(self.devices@).to_set());
        }
        self.devices.len()
    }
}

} // verus!
