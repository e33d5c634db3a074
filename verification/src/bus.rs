//! The memory bus.
//!
//! A `Bus` owns an ordered collection of devices, each claiming one inclusive
//! address range. A read or write is dispatched to the first device whose
//! range covers the address; reads of unclaimed addresses return 0 ("open
//! bus") and writes to them are silently dropped.

use vstd::prelude::*;

use crate::ram::Ram;

verus! {

/// Contract every bus-attached device satisfies: an immutable inclusive
/// address range and byte-granular reads and writes within it, indexed by
/// `address - start`.
pub trait BusItem: Sized {
    /// First address of the claimed range.
    spec fn item_start(&self) -> u16;

    /// Last address of the claimed range (inclusive).
    spec fn item_end(&self) -> u16;

    /// The stored bytes; index `i` holds the byte of address `start + i`.
    spec fn item_mem(&self) -> Seq<u8>;

    /// The device's internal invariant.
    spec fn item_wf(&self) -> bool;

    /// A well-formed device's storage covers its range exactly.
    proof fn item_wf_facts(&self)
        requires
            self.item_wf(),
        ensures
            self.item_start() <= self.item_end(),
            self.item_mem().len() == self.item_end() - self.item_start() + 1,
    ;

    /// The claimed range as `(start, end)`, both inclusive.
    fn address_range(&self) -> (r: (u16, u16))
        requires
            self.item_wf(),
        ensures
            r.0 == self.item_start(),
            r.1 == self.item_end(),
    ;

    /// The byte stored for `address`. `read_only` is a hint that the access
    /// is an inspection and should have no side effect.
    fn read(&self, address: u16, read_only: bool) -> (b: u8)
        requires
            self.item_wf(),
            self.item_start() <= address <= self.item_end(),
        ensures
            b == self.item_mem()[address - self.item_start()],
    ;

    /// Store `value` for `address`.
    fn write(&mut self, address: u16, value: u8)
        requires
            old(self).item_wf(),
            old(self).item_start() <= address <= old(self).item_end(),
        ensures
            final(self).item_wf(),
            final(self).item_start() == old(self).item_start(),
            final(self).item_end() == old(self).item_end(),
            final(self).item_mem() == old(self).item_mem().update(
                address - old(self).item_start(),
                value,
            ),
    ;
}

/// The device kinds a bus can own. Dispatch is by tagged variant; new device
/// kinds extend this enum.
pub enum Device {
    Ram(Ram),
}

impl BusItem for Device {
    open spec fn item_start(&self) -> u16 {
        match self {
            Device::Ram(r) => r.spec_start(),
        }
    }

    open spec fn item_end(&self) -> u16 {
        match self {
            Device::Ram(r) => r.spec_end(),
        }
    }

    open spec fn item_mem(&self) -> Seq<u8> {
        match self {
            Device::Ram(r) => r.spec_data(),
        }
    }

    open spec fn item_wf(&self) -> bool {
        match self {
            Device::Ram(r) => r.item_wf(),
        }
    }

    proof fn item_wf_facts(&self) {
        match self {
            Device::Ram(r) => r.item_wf_facts(),
        }
    }

    fn address_range(&self) -> (r: (u16, u16)) {
        match self {
            Device::Ram(r) => r.address_range(),
        }
    }

    fn read(&self, address: u16, read_only: bool) -> (b: u8) {
        match self {
            Device::Ram(r) => r.read(address, read_only),
        }
    }

    fn write(&mut self, address: u16, value: u8) {
        match self {
            Device::Ram(r) => r.write(address, value),
        }
    }
}

/// Whether a device's range covers `address`.
pub open spec fn covers(d: Device, address: u16) -> bool {
    d.item_start() <= address <= d.item_end()
}

/// The byte the ordered device list yields for `address`: the first covering
/// device's byte, or 0 when no device claims the address.
pub open spec fn read_from(items: Seq<Device>, address: u16) -> u8
    decreases items.len(),
{
    if items.len() == 0 {
        0
    } else if covers(items[0], address) {
        items[0].item_mem()[address - items[0].item_start()]
    } else {
        read_from(items.drop_first(), address)
    }
}

/// Whether any device in the list claims `address`.
pub open spec fn covered_by(items: Seq<Device>, address: u16) -> bool
    decreases items.len(),
{
    if items.len() == 0 {
        false
    } else {
        covers(items[0], address) || covered_by(items.drop_first(), address)
    }
}

/// The memory map that results from one bus write: the byte is stored when
/// some device claims the address, and the write is dropped otherwise.
pub open spec fn mem_write(m: Map<u16, u8>, cov: Set<u16>, address: u16, value: u8) -> Map<
    u16,
    u8,
> {
    if cov.contains(address) {
        m.insert(address, value)
    } else {
        m
    }
}

/// Ordered collection of bus-attached devices; first match wins.
pub struct Bus {
    items: Vec<Device>,
}

impl Bus {
    /// Every attached device is well-formed.
    pub closed spec fn wf(&self) -> bool {
        forall|i: int| 0 <= i < self.items@.len() ==> (#[trigger] self.items@[i]).item_wf()
    }

    /// The whole 64 KiB address space as a map: each address holds the byte
    /// the first covering device stores for it, or 0 when unclaimed.
    pub closed spec fn mem_map(&self) -> Map<u16, u8> {
        Map::new(|a: u16| true, |a: u16| read_from(self.items@, a))
    }

    /// The set of addresses some attached device claims.
    pub closed spec fn cov(&self) -> Set<u16> {
        Set::new(|a: u16| covered_by(self.items@, a))
    }

    /// Create a bus with no devices attached: all addresses read 0.
    pub fn new() -> (r: Bus)
        ensures
            r.wf(),
            forall|a: u16| #[trigger] r.mem_map()[a] == 0,
            forall|a: u16| !(#[trigger] r.cov().contains(a)),
    {
        Bus { items: Vec::new() }
    }

    /// Append a device; it is consulted after all already-attached ones.
    pub fn connect(&mut self, item: Device)
        requires
            old(self).wf(),
            item.item_wf(),
        ensures
            final(self).wf(),
            forall|a: u16|
                #[trigger] final(self).mem_map()[a] == (if old(self).cov().contains(a) {
                    old(self).mem_map()[a]
                } else if covers(item, a) {
                    item.item_mem()[a - item.item_start()]
                } else {
                    0
                }),
            forall|a: u16|
                #[trigger] final(self).cov().contains(a) == (old(self).cov().contains(a)
                    || covers(item, a)),
    {
        let ghost pre = self.items@;
        let ghost item0 = item;
        self.items.push(item);
        proof {
            assert(self.items@ == pre.push(item0));
            assert forall|a: u16|
                (#[trigger] self.mem_map()[a]) == (if old(self).cov().contains(a) {
                    old(self).mem_map()[a]
                } else if covers(item0, a) {
                    item0.item_mem()[a - item0.item_start()]
                } else {
                    0
                }) by {
                lemma_push_effect(pre, item0, a);
            }
            assert forall|a: u16|
                (#[trigger] self.cov().contains(a)) == (old(self).cov().contains(a) || covers(
                    item0,
                    a,
                )) by {
                lemma_push_effect(pre, item0, a);
            }
        }
    }

    /// The index of the first device covering `address`, if any.
    fn find_owner(&self, address: u16) -> (r: Option<usize>)
        requires
            self.wf(),
        ensures
            match r {
                Some(k) => {
                    &&& k < self.items@.len()
                    &&& covers(self.items@[k as int], address)
                    &&& forall|j: int| 0 <= j < k ==> !covers(self.items@[j], address)
                },
                None => forall|j: int| 0 <= j < self.items@.len() ==> !covers(
                    self.items@[j],
                    address,
                ),
            },
    {
        let n = self.items.len();
        let mut i: usize = 0;
        while i < n
            invariant
                self.wf(),
                n == self.items@.len(),
                i <= n,
                forall|j: int| 0 <= j < i ==> !covers(self.items@[j], address),
            decreases n - i,
        {
            let (s, e) = self.items[i].address_range();
            if s <= address && address <= e {
                return Some(i);
            }
            i = i + 1;
        }
        None
    }

    /// Read the byte at `address`: the first covering device answers; an
    /// unclaimed address reads as 0.
    pub fn read(&self, address: u16, read_only: bool) -> (b: u8)
        requires
            self.wf(),
        ensures
            b == self.mem_map()[address],
    {
        match self.find_owner(address) {
            Some(k) => {
                let b = self.items[k].read(address, read_only);
                proof {
                    lemma_read_at(self.items@, address, k as int);
                }
                b
            },
            None => {
                proof {
                    lemma_read_uncovered(self.items@, address);
                }
                0
            },
        }
    }

    /// Write `value` to `address`: the first covering device stores it; a
    /// write to an unclaimed address is dropped.
    pub fn write(&mut self, address: u16, value: u8)
        requires
            old(self).wf(),
        ensures
            final(self).wf(),
            final(self).cov() == old(self).cov(),
            final(self).mem_map() == mem_write(
                old(self).mem_map(),
                old(self).cov(),
                address,
                value,
            ),
    {
        let ghost pre = self.items@;
        match self.find_owner(address) {
            Some(k) => {
                let dev = &mut self.items[k];
                dev.write(address, value);
                proof {
                    lemma_covers_first(pre, address, k as int);
                    lemma_write_maps(pre, self.items@, k as int, address, value);
                }
            },
            None => {
                proof {
                    lemma_not_covered(pre, address);
                    assert(!Set::new(|a: u16| covered_by(pre, a)).contains(address));
                }
            },
        }
    }
}

/// Replacing device `k` - the first device covering `address` - with a copy
/// whose storage is updated at `address` turns the list's memory map into
/// the old map with `value` inserted at `address`, and leaves the covered
/// set unchanged.
proof fn lemma_write_maps(pre: Seq<Device>, post: Seq<Device>, k: int, address: u16, value: u8)
    requires
        0 <= k < pre.len(),
        post.len() == pre.len(),
        forall|j: int| 0 <= j < pre.len() && j != k ==> post[j] == pre[j],
        forall|j: int| 0 <= j < k ==> !covers(pre[j], address),
        covers(pre[k], address),
        pre[k].item_wf(),
        post[k].item_wf(),
        post[k].item_start() == pre[k].item_start(),
        post[k].item_end() == pre[k].item_end(),
        post[k].item_mem() == pre[k].item_mem().update(address - pre[k].item_start(), value),
    ensures
        Map::new(|a: u16| true, |a: u16| read_from(post, a)) == Map::new(
            |a: u16| true,
            |a: u16| read_from(pre, a),
        ).insert(address, value),
        Set::new(|a: u16| covered_by(post, a)) == Set::new(|a: u16| covered_by(pre, a)),
{
    let mpre = Map::new(|a: u16| true, |a: u16| read_from(pre, a));
    let mpost = Map::new(|a: u16| true, |a: u16| read_from(post, a));
    let cpre = Set::new(|a: u16| covered_by(pre, a));
    let cpost = Set::new(|a: u16| covered_by(post, a));
    assert forall|a: u16| #[trigger] mpost[a] == mpre.insert(address, value)[a] by {
        lemma_update_effect(pre, post, k, address, value, a);
        assert(mpost[a] == read_from(post, a));
        if a == address {
            assert(mpre.insert(address, value)[a] == value);
        } else {
            assert(mpre.insert(address, value)[a] == mpre[a]);
            assert(mpre[a] == read_from(pre, a));
        }
    }
    assert(mpost.dom() =~= mpre.insert(address, value).dom());
    assert(mpost =~= mpre.insert(address, value));
    assert forall|a: u16| #[trigger] cpost.contains(a) == cpre.contains(a) by {
        lemma_update_effect(pre, post, k, address, value, a);
    }
    assert(cpost =~= cpre);
}

/// If the first `k` devices do not cover `address` and device `k` does, the
/// list's answer for `address` is device `k`'s byte.
proof fn lemma_read_at(items: Seq<Device>, address: u16, k: int)
    requires
        0 <= k < items.len(),
        covers(items[k], address),
        forall|j: int| 0 <= j < k ==> !covers(items[j], address),
    ensures
        read_from(items, address) == items[k].item_mem()[address - items[k].item_start()],
    decreases k,
{
    if k > 0 {
        assert forall|j: int| 0 <= j < k - 1 implies !covers(items.drop_first()[j], address) by {
            assert(items.drop_first()[j] == items[j + 1]);
        }
        assert(items.drop_first()[k - 1] == items[k]);
        lemma_read_at(items.drop_first(), address, k - 1);
    }
}

/// A list in which no device covers `address` answers 0 for it.
proof fn lemma_read_uncovered(items: Seq<Device>, address: u16)
    requires
        forall|j: int| 0 <= j < items.len() ==> !covers(items[j], address),
    ensures
        read_from(items, address) == 0,
    decreases items.len(),
{
    if items.len() > 0 {
        assert forall|j: int|
            0 <= j < items.drop_first().len() implies !covers(items.drop_first()[j], address) by {
            assert(items.drop_first()[j] == items[j + 1]);
        }
        lemma_read_uncovered(items.drop_first(), address);
    }
}

/// If no device in the list covers `address`, the whole list does not.
proof fn lemma_not_covered(items: Seq<Device>, address: u16)
    requires
        forall|j: int| 0 <= j < items.len() ==> !covers(items[j], address),
    ensures
        !covered_by(items, address),
    decreases items.len(),
{
    if items.len() > 0 {
        assert(items.drop_first() =~= items.skip(1));
        lemma_not_covered(items.drop_first(), address);
    }
}

/// If the first `k` devices do not cover `address` and device `k` does, the
/// list covers `address`.
proof fn lemma_covers_first(items: Seq<Device>, address: u16, k: int)
    requires
        0 <= k < items.len(),
        covers(items[k], address),
    ensures
        covered_by(items, address),
    decreases k,
{
    if k > 0 {
        lemma_covers_first(items.drop_first(), address, k - 1);
    }
}

/// Effect of replacing device `k` - the first device covering `address` -
/// with a copy whose storage is updated at `address`: the list reads `value`
/// at `address` and is unchanged everywhere else.
proof fn lemma_update_effect(
    pre: Seq<Device>,
    post: Seq<Device>,
    k: int,
    address: u16,
    value: u8,
    a: u16,
)
    requires
        0 <= k < pre.len(),
        post.len() == pre.len(),
        forall|j: int| 0 <= j < pre.len() && j != k ==> post[j] == pre[j],
        forall|j: int| 0 <= j < k ==> !covers(pre[j], address),
        covers(pre[k], address),
        pre[k].item_wf(),
        post[k].item_wf(),
        post[k].item_start() == pre[k].item_start(),
        post[k].item_end() == pre[k].item_end(),
        post[k].item_mem() == pre[k].item_mem().update(address - pre[k].item_start(), value),
    ensures
        read_from(post, a) == (if a == address {
            value
        } else {
            read_from(pre, a)
        }),
        covered_by(post, a) == covered_by(pre, a),
    decreases k,
{
    pre[k].item_wf_facts();
    if k == 0 {
        assert(pre.drop_first() =~= post.drop_first());
        assert(covers(post[0], a) == covers(pre[0], a));
        if covers(pre[0], a) {
            assert(read_from(pre, a) == pre[0].item_mem()[a - pre[0].item_start()]);
            assert(read_from(post, a) == post[0].item_mem()[a - post[0].item_start()]);
            if a == address {
                assert(post[0].item_mem()[a - post[0].item_start()] == value);
            } else {
                assert(a - pre[0].item_start() != address - pre[0].item_start());
                let s0 = pre[0].item_start();
                assert(post[0].item_mem()[a - s0] == pre[0].item_mem()[a - s0]);
            }
        } else {
            assert(a != address);
            assert(read_from(pre, a) == read_from(pre.drop_first(), a));
            assert(read_from(post, a) == read_from(post.drop_first(), a));
        }
    } else {
        assert(post[0] == pre[0]);
        assert forall|j: int|
            0 <= j < pre.drop_first().len() && j != k - 1 implies post.drop_first()[j]
            == pre.drop_first()[j] by {
            assert(pre.drop_first()[j] == pre[j + 1]);
            assert(post.drop_first()[j] == post[j + 1]);
        }
        assert(pre.drop_first()[k - 1] == pre[k]);
        assert(post.drop_first()[k - 1] == post[k]);
        assert forall|j: int| 0 <= j < k - 1 implies !covers(pre.drop_first()[j], address) by {
            assert(pre.drop_first()[j] == pre[j + 1]);
        }
        lemma_update_effect(pre.drop_first(), post.drop_first(), k - 1, address, value, a);
        assert(!covers(pre[0], address));
        if covers(pre[0], a) {
            assert(a != address);
            assert(read_from(post, a) == post[0].item_mem()[a - post[0].item_start()]);
            assert(read_from(pre, a) == pre[0].item_mem()[a - pre[0].item_start()]);
        } else {
            assert(read_from(pre, a) == read_from(pre.drop_first(), a));
            assert(read_from(post, a) == read_from(post.drop_first(), a));
        }
    }
}

/// Effect of appending a device: addresses the list already answered are
/// unchanged; addresses only the new device covers now read its bytes.
proof fn lemma_push_effect(pre: Seq<Device>, item: Device, a: u16)
    ensures
        read_from(pre.push(item), a) == (if covered_by(pre, a) {
            read_from(pre, a)
        } else if covers(item, a) {
            item.item_mem()[a - item.item_start()]
        } else {
            0
        }),
        covered_by(pre.push(item), a) == (covered_by(pre, a) || covers(item, a)),
    decreases pre.len(),
{
    let post = pre.push(item);
    if pre.len() == 0 {
        assert(post[0] == item);
        assert(post.drop_first() =~= Seq::<Device>::empty());
        assert(read_from(post.drop_first(), a) == 0);
        assert(!covered_by(post.drop_first(), a));
        if covers(item, a) {
            assert(read_from(post, a) == item.item_mem()[a - item.item_start()]);
        } else {
            assert(read_from(post, a) == 0);
        }
    } else {
        assert(post[0] == pre[0]);
        assert(post.drop_first() =~= pre.drop_first().push(item));
        lemma_push_effect(pre.drop_first(), item, a);
        if covers(pre[0], a) {
            assert(read_from(post, a) == pre[0].item_mem()[a - pre[0].item_start()]);
            assert(read_from(pre, a) == pre[0].item_mem()[a - pre[0].item_start()]);
        } else {
            assert(read_from(post, a) == read_from(post.drop_first(), a));
            assert(read_from(pre, a) == read_from(pre.drop_first(), a));
        }
    }
}

} // verus!
