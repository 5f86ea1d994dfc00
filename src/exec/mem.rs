use vstd::prelude::*;
use vstd::arithmetic::power2::{pow2, lemma2_to64, lemma_pow2_pos};
use vstd::bits::{lemma_usize_shr_is_div, lemma_usize_shl_is_mul};

verus! {

#[verifier::external_type_specification]
#[verifier::external_body]
pub struct ExMmapMut(memmap::MmapMut);

#[verifier::external_type_specification]
#[verifier::external_body]
pub struct ExIoError(std::io::Error);

/// The bytes that a memory map holds.
pub uninterp spec fn mmap_bytes(m: memmap::MmapMut) -> Seq<u8>;

/// Relies on memmap's `MmapOptions::new().len(len).map_anon()`: on success the map is
/// exactly `len` bytes long (`MmapInner::new` keeps `len`), and, being an anonymous
/// `mmap` (`MAP_ANON`), it starts zero-filled.
#[verifier::external_body]
fn map_anon(len: usize) -> (r: Result<memmap::MmapMut, std::io::Error>)
    ensures
        r matches Ok(m) ==> mmap_bytes(m) == Seq::new(len as nat, |i: int| 0u8),
{
    memmap::MmapOptions::new().len(len).map_anon()
}

/// Relies on memmap's `MmapOptions::new().len(len).stack().map_anon()`: as `map_anon`,
/// with `MAP_STACK` added to the flags.
#[verifier::external_body]
fn map_anon_stack(len: usize) -> (r: Result<memmap::MmapMut, std::io::Error>)
    ensures
        r matches Ok(m) ==> mmap_bytes(m) == Seq::new(len as nat, |i: int| 0u8),
{
    memmap::MmapOptions::new().len(len).stack().map_anon()
}

/// Relies on `MmapMut::as_ptr`: the host address where the map starts. Nothing is known
/// of its value.
#[verifier::external_body]
fn mmap_addr(m: &memmap::MmapMut) -> (r: u64) {
    m.as_ptr() as u64
}

/// Relies on `MmapMut`'s `Deref` to `[u8]`: its length is the map's length.
#[verifier::external_body]
fn mmap_len(m: &memmap::MmapMut) -> (r: usize)
    ensures
        r == mmap_bytes(*m).len(),
{
    m.len()
}

/// Relies on `MmapMut`'s `Deref` to `[u8]`: indexing reads the byte at `i`.
#[verifier::external_body]
fn mmap_get(m: &memmap::MmapMut, i: usize) -> (r: u8)
    requires
        i < mmap_bytes(*m).len(),
    ensures
        r == mmap_bytes(*m)[i as int],
{
    m[i]
}

/// Relies on `MmapMut`'s `DerefMut` to `[u8]`: writing at `i` changes that byte alone.
#[verifier::external_body]
fn mmap_set(m: &mut memmap::MmapMut, i: usize, v: u8)
    requires
        i < mmap_bytes(*old(m)).len(),
    ensures
        mmap_bytes(*final(m)) == mmap_bytes(*old(m)).update(i as int, v),
{
    m[i] = v;
}

/// Relies on `Vec::as_ptr`: the host address of the vector's buffer. Nothing is known of
/// its value.
#[verifier::external_body]
fn vec_addr(v: &Vec<u8>) -> (r: u64) {
    v.as_ptr() as u64
}

/// An address in the host's address space.
#[derive(Copy, Clone, PartialEq, Eq, PartialOrd, Ord, Hash, Debug)]
pub struct HostAddr(pub u64);

impl HostAddr {
    pub fn as_u64(&self) -> (r: u64)
        ensures
            r == self.0,
    {
        self.0
    }
}

/// An address in the guest's address space.
#[derive(Copy, Clone, PartialEq, Eq, PartialOrd, Ord, Hash, Debug)]
pub struct GuestAddr(pub u64);

impl GuestAddr {
    pub fn as_u64(&self) -> (r: u64)
        ensures
            r == self.0,
    {
        self.0
    }

    /// The address `len` bytes further on, if it is still an address.
    pub fn offset_by(self, len: usize) -> (r: Option<GuestAddr>)
        ensures
            r == (if self.0 + len <= u64::MAX {
                Some(GuestAddr((self.0 + len) as u64))
            } else {
                None
            }),
    {
        if len as u64 <= u64::MAX - self.0 {
            Some(GuestAddr(self.0 + len as u64))
        } else {
            None
        }
    }

    /// The number of bytes from `base` up to this address, if `base` is not above it.
    pub fn distance_from(self, base: GuestAddr) -> (r: Option<u64>)
        ensures
            r == (if base.0 <= self.0 {
                Some((self.0 - base.0) as u64)
            } else {
                None
            }),
    {
        if base.0 <= self.0 {
            Some(self.0 - base.0)
        } else {
            None
        }
    }
}

impl From<u64> for GuestAddr {
    fn from(x: u64) -> (r: GuestAddr) {
        GuestAddr(x)
    }
}

impl vstd::std_specs::convert::FromSpecImpl<u64> for GuestAddr {
    open spec fn obeys_from_spec() -> bool {
        true
    }

    open spec fn from_spec(x: u64) -> GuestAddr {
        GuestAddr(x)
    }
}

impl From<GuestAddr> for u64 {
    fn from(x: GuestAddr) -> (r: u64) {
        x.0
    }
}

impl vstd::std_specs::convert::FromSpecImpl<GuestAddr> for u64 {
    open spec fn obeys_from_spec() -> bool {
        true
    }

    open spec fn from_spec(x: GuestAddr) -> u64 {
        x.0
    }
}

/// The page shift of the page sizes this MMU supports (1 KiB to 1 MiB).
pub open spec fn page_shift_spec(page_size: usize) -> Option<usize> {
    if page_size == 1024 {
        Some(10)
    } else if page_size == 2048 {
        Some(11)
    } else if page_size == 4096 {
        Some(12)
    } else if page_size == 8192 {
        Some(13)
    } else if page_size == 16384 {
        Some(14)
    } else if page_size == 32768 {
        Some(15)
    } else if page_size == 65536 {
        Some(16)
    } else if page_size == 131072 {
        Some(17)
    } else if page_size == 262144 {
        Some(18)
    } else if page_size == 524288 {
        Some(19)
    } else if page_size == 1048576 {
        Some(20)
    } else {
        None
    }
}

pub fn get_page_shift(page_size: usize) -> (r: Option<usize>)
    ensures
        r == page_shift_spec(page_size),
        r matches Some(s) ==> 10 <= s <= 20 && page_size == pow2(s as nat),
{
    proof {
        lemma2_to64();
    }
    match page_size {
        1024 => Some(10),
        2048 => Some(11),
        4096 => Some(12),
        8192 => Some(13),
        16384 => Some(14),
        32768 => Some(15),
        65536 => Some(16),
        131072 => Some(17),
        262144 => Some(18),
        524288 => Some(19),
        1048576 => Some(20),
        _ => None,
    }
}

/// `len` rounded up to a multiple of `page_size`.
pub open spec fn round_up(len: int, page_size: int) -> int {
    if len % page_size == 0 {
        len
    } else {
        (len / page_size + 1) * page_size
    }
}

pub fn align_to_page(len: usize, page_size: usize, page_shift: usize) -> (r: usize)
    requires
        page_shift < usize::BITS,
        page_size == pow2(page_shift as nat),
        len + page_size <= usize::MAX,
    ensures
        r == round_up(len as int, page_size as int),
{
    proof {
        lemma_pow2_pos(page_shift as nat);
    }
    if len % page_size == 0 {
        len
    } else {
        proof {
            lemma_usize_shr_is_div(len, page_shift);
            assert(page_size > 0);
            assert((len as int / page_size as int + 1) * page_size as int <= len + page_size)
                by (nonlinear_arith)
                requires
                    page_size > 0,
            ;
            lemma_usize_shl_is_mul(((len >> page_shift) + 1) as usize, page_shift);
        }
        ((len >> page_shift) + 1) << page_shift
    }
}

/// Why an MMU operation failed.
#[derive(Copy, Clone, PartialEq, Eq, Debug)]
pub enum MmuError {
    /// A zero-length region was asked for.
    InvalidLength,
    /// The rounded-up length does not fit in the address space.
    TooLarge,
    /// A page size other than 1 KiB, 2 KiB, ..., 1 MiB.
    UnsupportedPageSize,
    /// The host could not provide the memory.
    HostFailure,
    /// The new region would overlap a registered one or run past the end of the
    /// address space.
    Overlap,
}

/// A registered region as the contracts see it: guest base, host base, contents, and
/// whether the guest may write it.
pub struct RegionView {
    pub base: int,
    pub host_base: int,
    pub bytes: Seq<u8>,
    pub writable: bool,
}

pub open spec fn contains(r: RegionView, a: int) -> bool {
    r.base <= a < r.base + r.bytes.len()
}

pub open spec fn disjoint(r: RegionView, s: RegionView) -> bool {
    r.base + r.bytes.len() <= s.base || s.base + s.bytes.len() <= r.base
}

/// Every region is non-empty and inside the 64-bit address space, sits at the same
/// address in guest and host, and no two overlap.
pub open spec fn regions_wf(m: Seq<RegionView>) -> bool {
    &&& forall|i: int|
        0 <= i < m.len() ==> 0 <= #[trigger] m[i].base && m[i].base + m[i].bytes.len() <= u64::MAX
            + 1 && m[i].host_base == m[i].base
            && 0 < m[i].bytes.len() <= usize::MAX
    &&& forall|i: int, j: int|
        0 <= i < m.len() && 0 <= j < m.len() && i != j ==> disjoint(#[trigger] m[i], #[trigger] m[j])
}

/// `a` lies inside some region.
pub open spec fn mapped(m: Seq<RegionView>, a: int) -> bool {
    exists|i: int| 0 <= i < m.len() && contains(#[trigger] m[i], a)
}

/// The region that holds `a` (meaningful where `mapped(m, a)`).
pub open spec fn region_of(m: Seq<RegionView>, a: int) -> int {
    choose|i: int| 0 <= i < m.len() && contains(#[trigger] m[i], a)
}

/// The guest byte at `a`, or `None` where nothing is mapped there.
pub open spec fn mem_byte(m: Seq<RegionView>, a: int) -> Option<u8> {
    if mapped(m, a) {
        let r = m[region_of(m, a)];
        Some(r.bytes[a - r.base])
    } else {
        None
    }
}

/// `a` lies inside a region that the guest may write.
pub open spec fn writable_at(m: Seq<RegionView>, a: int) -> bool {
    mapped(m, a) && m[region_of(m, a)].writable
}

/// The host address that `a` translates to, or `None` where nothing is mapped there.
pub open spec fn translate_spec(m: Seq<RegionView>, a: int) -> Option<int> {
    if mapped(m, a) {
        let r = m[region_of(m, a)];
        Some(r.host_base + (a - r.base))
    } else {
        None
    }
}

/// The regions after the byte at `a` is set to `v` (where `a` is writable).
pub open spec fn store_byte(m: Seq<RegionView>, a: int, v: u8) -> Seq<RegionView> {
    Seq::new(
        m.len(),
        |i: int|
            if contains(m[i], a) && m[i].writable {
                RegionView { bytes: m[i].bytes.update(a - m[i].base, v), ..m[i] }
            } else {
                m[i]
            },
    )
}

/// `256^k`.
pub open spec fn pow256(k: nat) -> nat
    decreases k,
{
    if k == 0 {
        1
    } else {
        256 * pow256((k - 1) as nat)
    }
}

/// Byte `k` (little-endian) of `v`.
pub open spec fn byte_of(v: int, k: nat) -> u8 {
    ((v / pow256(k) as int) % 256) as u8
}

/// The little-endian value of the `n` bytes from `a`, or `None` where one is unmapped.
pub open spec fn load(m: Seq<RegionView>, a: int, n: nat) -> Option<int>
    decreases n,
{
    if n == 0 {
        Some(0)
    } else {
        match (load(m, a, (n - 1) as nat), mem_byte(m, a + n - 1)) {
            (Some(lo), Some(b)) => Some(lo + b as int * pow256((n - 1) as nat) as int),
            _ => None,
        }
    }
}

/// All `n` bytes from `a` are writable.
pub open spec fn writable_range(m: Seq<RegionView>, a: int, n: nat) -> bool {
    forall|k: int| 0 <= k < n ==> #[trigger] writable_at(m, a + k)
}

/// The regions after the `n` low bytes of `v` are stored little-endian from `a`.
pub open spec fn store(m: Seq<RegionView>, a: int, n: nat, v: int) -> Seq<RegionView>
    decreases n,
{
    if n == 0 {
        m
    } else {
        store_byte(store(m, a, (n - 1) as nat, v), a + n - 1, byte_of(v, (n - 1) as nat))
    }
}

enum Backing {
    Mapped(memmap::MmapMut),
    Image(Vec<u8>),
}

struct Region {
    base: u64,
    host_base: u64,
    writable: bool,
    backing: Backing,
}

spec fn backing_bytes(b: Backing) -> Seq<u8> {
    match b {
        Backing::Mapped(m) => mmap_bytes(m),
        Backing::Image(v) => v@,
    }
}

impl View for Region {
    type V = RegionView;

    closed spec fn view(&self) -> RegionView {
        RegionView {
            base: self.base as int,
            host_base: self.host_base as int,
            bytes: backing_bytes(self.backing),
            writable: self.writable,
        }
    }
}

fn backing_len(b: &Backing) -> (r: usize)
    ensures
        r == backing_bytes(*b).len(),
{
    match b {
        Backing::Mapped(m) => mmap_len(m),
        Backing::Image(v) => v.len(),
    }
}

fn backing_get(b: &Backing, i: usize) -> (r: u8)
    requires
        i < backing_bytes(*b).len(),
    ensures
        r == backing_bytes(*b)[i as int],
{
    match b {
        Backing::Mapped(m) => mmap_get(m, i),
        Backing::Image(v) => v[i],
    }
}

fn backing_set(b: Backing, i: usize, x: u8) -> (r: Backing)
    requires
        i < backing_bytes(b).len(),
    ensures
        backing_bytes(r) == backing_bytes(b).update(i as int, x),
{
    match b {
        Backing::Mapped(m) => {
            let mut m = m;
            mmap_set(&mut m, i, x);
            Backing::Mapped(m)
        },
        Backing::Image(v) => {
            let mut v = v;
            v.set(i, x);
            Backing::Image(v)
        },
    }
}

/// A simple, non-paged MMU: a list of disjoint guest regions, each backed by host memory.
pub struct GuestMmu {
    guest_page_size: usize,
    guest_page_shift: usize,
    host_page_size: usize,
    host_page_shift: usize,
    regions: Vec<Region>,
}

impl View for GuestMmu {
    type V = Seq<RegionView>;

    closed spec fn view(&self) -> Seq<RegionView> {
        self.regions@.map_values(|r: Region| r@)
    }
}

impl GuestMmu {
    pub closed spec fn wf(&self) -> bool {
        &&& regions_wf(self@)
        &&& self.guest_page_shift <= 20
        &&& self.host_page_shift <= 20
        &&& self.guest_page_size == pow2(self.guest_page_shift as nat)
        &&& self.host_page_size == pow2(self.host_page_shift as nat)
        &&& 10 <= self.guest_page_shift
        &&& 10 <= self.host_page_shift
    }

    pub proof fn lemma_wf_regions(&self)
        requires
            self.wf(),
        ensures
            regions_wf(self@),
            self.alloc_granule() > 0,
    {
        lemma_pow2_pos(self.guest_page_shift as nat);
        lemma_pow2_pos(self.host_page_shift as nat);
    }

    /// The size that allocations are rounded up to: the larger of the two page sizes.
    pub closed spec fn alloc_granule(&self) -> int {
        if self.host_page_size > self.guest_page_size {
            self.host_page_size as int
        } else {
            self.guest_page_size as int
        }
    }

    /// An MMU with no regions, for the given guest and host page sizes.
    pub fn new(guest_page_size: usize, host_page_size: usize) -> (r: Result<GuestMmu, MmuError>)
        ensures
            r is Err <==> page_shift_spec(guest_page_size) is None || page_shift_spec(
                host_page_size,
            ) is None,
            r matches Err(e) ==> e == MmuError::UnsupportedPageSize,
            r matches Ok(m) ==> m.wf() && m@ == Seq::<RegionView>::empty() && m.alloc_granule()
                == (if host_page_size > guest_page_size {
                host_page_size
            } else {
                guest_page_size
            }),
    {
        let gs = get_page_shift(guest_page_size);
        let hs = get_page_shift(host_page_size);
        match (gs, hs) {
            (Some(g), Some(h)) => {
                let m = GuestMmu {
                    guest_page_size,
                    guest_page_shift: g,
                    host_page_size,
                    host_page_shift: h,
                    regions: Vec::new(),
                };
                assert(m@ =~= Seq::<RegionView>::empty());
                Ok(m)
            },
            _ => Err(MmuError::UnsupportedPageSize),
        }
    }
}

/// In a well-formed region list at most one region holds a given address.
pub proof fn lemma_region_unique(m: Seq<RegionView>, a: int, i: int, j: int)
    requires
        regions_wf(m),
        0 <= i < m.len(),
        0 <= j < m.len(),
        contains(m[i], a),
        contains(m[j], a),
    ensures
        i == j,
{
    if i != j {
        assert(disjoint(m[i], m[j]));
    }
}

/// Where region `i` holds `a`, it is the region that `mem_byte`, `writable_at` and
/// `translate_spec` consult.
pub proof fn lemma_region_of(m: Seq<RegionView>, a: int, i: int)
    requires
        regions_wf(m),
        0 <= i < m.len(),
        contains(m[i], a),
    ensures
        mapped(m, a),
        region_of(m, a) == i,
{
    let j = region_of(m, a);
    lemma_region_unique(m, a, i, j);
}

/// The translation invariant: an address translates if and only if exactly one region
/// holds it, and then to that region's host base plus its offset in the region, which
/// is the address itself.
pub proof fn lemma_translate_exactly_one(m: Seq<RegionView>, a: int)
    requires
        regions_wf(m),
    ensures
        translate_spec(m, a) is Some <==> exists|i: int|
            0 <= i < m.len() && contains(#[trigger] m[i], a) && forall|j: int|
                0 <= j < m.len() && contains(#[trigger] m[j], a) ==> j == i,
        forall|i: int|
            0 <= i < m.len() && contains(#[trigger] m[i], a) ==> translate_spec(m, a) == Some(
                m[i].host_base + (a - m[i].base),
            ),
        translate_spec(m, a) is Some ==> translate_spec(m, a) == Some(a),
{
    assert forall|i: int| 0 <= i < m.len() && contains(#[trigger] m[i], a) implies translate_spec(
        m,
        a,
    ) == Some(m[i].host_base + (a - m[i].base)) by {
        lemma_region_of(m, a, i);
    }
    if mapped(m, a) {
        let i = region_of(m, a);
        assert forall|j: int| 0 <= j < m.len() && contains(#[trigger] m[j], a) implies j == i by {
            lemma_region_unique(m, a, i, j);
        }
    }
}

impl GuestMmu {
    /// The index of the region that holds `a`.
    fn find_region(&self, a: u64) -> (r: Option<usize>)
        requires
            self.wf(),
        ensures
            r matches Some(i) ==> i < self@.len() && contains(self@[i as int], a as int)
                && region_of(self@, a as int) == i,
            r is None ==> !mapped(self@, a as int),
    {
        let n = self.regions.len();
        for i in 0..n
            invariant
                n == self.regions.len(),
                self.wf(),
                forall|j: int| 0 <= j < i ==> !contains(#[trigger] self@[j], a as int),
        {
            let r = &self.regions[i];
            let l = backing_len(&r.backing);
            assert(self@[i as int] == self.regions@[i as int]@);
            if r.base <= a && a - r.base < l as u64 {
                proof {
                    lemma_region_of(self@, a as int, i as int);
                }
                return Some(i);
            }
        }
        None
    }

    /// Host address of guest address `g`, or `None` where no region holds it.
    pub fn g2h(&self, g: GuestAddr) -> (r: Option<HostAddr>)
        requires
            self.wf(),
        ensures
            r matches Some(h) ==> translate_spec(self@, g.0 as int) == Some(h.0 as int) && h.0
                == g.0,
            r is None ==> translate_spec(self@, g.0 as int) is None,
    {
        match self.find_region(g.0) {
            Some(i) => {
                let r = &self.regions[i];
                assert(self@[i as int] == self.regions@[i as int]@);
                Some(HostAddr(r.host_base + (g.0 - r.base)))
            },
            None => None,
        }
    }

    /// The guest byte at `a`.
    pub fn read_u8(&self, a: u64) -> (r: Option<u8>)
        requires
            self.wf(),
        ensures
            r == mem_byte(self@, a as int),
    {
        match self.find_region(a) {
            Some(i) => {
                let r = &self.regions[i];
                assert(self@[i as int] == self.regions@[i as int]@);
                Some(backing_get(&r.backing, (a - r.base) as usize))
            },
            None => None,
        }
    }

    /// Sets the guest byte at `a`, where a writable region holds it.
    pub fn write_u8(&mut self, a: u64, v: u8) -> (r: bool)
        requires
            old(self).wf(),
        ensures
            final(self).wf(),
            final(self).alloc_granule() == old(self).alloc_granule(),
            r == writable_at(old(self)@, a as int),
            final(self)@ == (if r {
                store_byte(old(self)@, a as int, v)
            } else {
                old(self)@
            }),
    {
        match self.find_region(a) {
            Some(i) => {
                assert(self@[i as int] == self.regions@[i as int]@);
                if !self.regions[i].writable {
                    return false;
                }
                let ghost m0 = self@;
                let ghost rs0 = self.regions@;
                let Region { base, host_base, writable, backing } = self.regions.remove(i);
                let backing = backing_set(backing, (a - base) as usize, v);
                self.regions.insert(i, Region { base, host_base, writable, backing });
                proof {
                    let m1 = store_byte(m0, a as int, v);
                    assert forall|j: int| 0 <= j < m0.len() implies #[trigger] self@[j] == m1[j] by {
                        assert(self@[j] == self.regions@[j]@);
                        assert(m0[j] == rs0[j]@);
                        if j != i {
                            assert(self.regions@[j] == rs0[j]);
                            if contains(m0[j], a as int) {
                                lemma_region_unique(m0, a as int, i as int, j);
                            }
                        }
                    }
                    assert(self@ =~= m1);
                    assert forall|j: int| 0 <= j < m1.len() implies #[trigger] m1[j].bytes.len()
                        == m0[j].bytes.len() && m1[j].base == m0[j].base by {}
                    assert(regions_wf(self@)) by {
                        assert forall|j: int, k: int|
                            0 <= j < m1.len() && 0 <= k < m1.len() && j != k implies disjoint(
                            #[trigger] m1[j],
                            #[trigger] m1[k],
                        ) by {
                            assert(disjoint(m0[j], m0[k]));
                        }
                    }
                }
                true
            },
            None => false,
        }
    }
}

proof fn lemma_remove_wf(m: Seq<RegionView>, i: int)
    requires
        regions_wf(m),
        0 <= i < m.len(),
    ensures
        regions_wf(m.remove(i)),
{
    let r = m.remove(i);
    assert forall|a: int, b: int| 0 <= a < r.len() && 0 <= b < r.len() && a != b implies disjoint(
        #[trigger] r[a],
        #[trigger] r[b],
    ) by {
        let a1 = if a < i { a } else { a + 1 };
        let b1 = if b < i { b } else { b + 1 };
        assert(r[a] == m[a1]);
        assert(r[b] == m[b1]);
        assert(disjoint(m[a1], m[b1]));
    }
    assert forall|a: int| 0 <= a < r.len() implies 0 <= #[trigger] r[a].base && r[a].base + r[a].bytes.len() <= u64::MAX + 1 && r[a].host_base == r[a].base && 0 < r[a].bytes.len() <= usize::MAX by {
        let a1 = if a < i { a } else { a + 1 };
        assert(r[a] == m[a1]);
    }
}

/// The regions that `munmap(g, len)` keeps: those that do not meet `[g, g + len)`.
pub open spec fn outside_range(r: RegionView, g: int, len: int) -> bool {
    g + len <= r.base || r.base + r.bytes.len() <= g
}

/// A new region `r` may join `m`: it is non-empty, fits in the address space, and
/// overlaps no registered region.
pub open spec fn can_add(m: Seq<RegionView>, r: RegionView) -> bool {
    &&& 0 < r.bytes.len() <= usize::MAX
    &&& 0 <= r.base && r.base + r.bytes.len() <= u64::MAX + 1
    &&& r.host_base == r.base
    &&& forall|i: int| 0 <= i < m.len() ==> disjoint(#[trigger] m[i], r)
}

impl GuestMmu {
    /// Registers a region at `base`, unless it would overlap another or leave the
    /// address space.
    fn insert_region(&mut self, base: u64, writable: bool, backing: Backing) -> (r: Result<
        GuestAddr,
        MmuError,
    >)
        requires
            old(self).wf(),
            backing_bytes(backing).len() > 0,
        ensures
            final(self).wf(),
            final(self).alloc_granule() == old(self).alloc_granule(),
            ({
                let nr = RegionView {
                    base: base as int,
                    host_base: base as int,
                    bytes: backing_bytes(backing),
                    writable,
                };
                &&& r is Ok <==> can_add(old(self)@, nr)
                &&& r matches Ok(g) ==> g.0 == base && final(self)@ == old(self)@.push(nr)
                &&& r matches Err(e) ==> e == MmuError::Overlap && final(self)@ == old(self)@
            }),
    {
        let len = backing_len(&backing);
        let ghost nr = RegionView {
            base: base as int,
            host_base: base as int,
            bytes: backing_bytes(backing),
            writable,
        };
        if base > 0 && len as u64 - 1 > u64::MAX - base {
            return Err(MmuError::Overlap);
        }
        let end: u128 = base as u128 + len as u128;
        let n = self.regions.len();
        for i in 0..n
            invariant
                n == self.regions.len(),
                self.wf(),
                end == base + backing_bytes(backing).len(),
                len == backing_bytes(backing).len(),
                nr == (RegionView {
                    base: base as int,
                    host_base: base as int,
                    bytes: backing_bytes(backing),
                    writable,
                }),
                forall|j: int| 0 <= j < i ==> disjoint(#[trigger] self@[j], nr),
        {
            let r = &self.regions[i];
            let l = backing_len(&r.backing);
            assert(self@[i as int] == self.regions@[i as int]@);
            if !(end <= r.base as u128 || r.base as u128 + l as u128 <= base as u128) {
                return Err(MmuError::Overlap);
            }
        }
        let ghost m0 = self@;
        self.regions.push(Region { base, host_base: base, writable, backing });
        proof {
            assert(self@ =~= m0.push(nr)) by {
                assert forall|j: int| 0 <= j < m0.len() implies #[trigger] self@[j] == m0[j] by {
                    assert(self@[j] == self.regions@[j]@);
                }
            }
            assert forall|j: int, k: int|
                0 <= j < self@.len() && 0 <= k < self@.len() && j != k implies disjoint(
                #[trigger] self@[j],
                #[trigger] self@[k],
            ) by {
                if j < m0.len() && k < m0.len() {
                    assert(disjoint(m0[j], m0[k]));
                }
            }
        }
        Ok(GuestAddr(base))
    }

    /// Allocates a fresh, zero-filled, writable region of at least `len` bytes (rounded
    /// up to the larger page size) and returns its base.
    pub fn mmap(&mut self, len: usize, stack: bool) -> (r: Result<GuestAddr, MmuError>)
        requires
            old(self).wf(),
        ensures
            final(self).wf(),
            final(self).alloc_granule() == old(self).alloc_granule(),
            len == 0 <==> r == Err::<GuestAddr, MmuError>(MmuError::InvalidLength),
            r == Err::<GuestAddr, MmuError>(MmuError::TooLarge) <==> (len != 0 && len + old(
                self,
            ).alloc_granule() > usize::MAX),
            r is Err ==> final(self)@ == old(self)@,
            r matches Ok(g) ==> final(self)@ == old(self)@.push(
                RegionView {
                    base: g.0 as int,
                    host_base: g.0 as int,
                    bytes: Seq::new(
                        round_up(len as int, old(self).alloc_granule()) as nat,
                        |i: int| 0u8,
                    ),
                    writable: true,
                },
            ),
    {
        if len == 0 {
            return Err(MmuError::InvalidLength);
        }
        let (ps, shift) = if self.host_page_size > self.guest_page_size {
            (self.host_page_size, self.host_page_shift)
        } else {
            (self.guest_page_size, self.guest_page_shift)
        };
        if len > usize::MAX - ps {
            return Err(MmuError::TooLarge);
        }
        let alen = align_to_page(len, ps, shift);
        proof {
            lemma_pow2_pos(shift as nat);
            assert(alen >= len) by (nonlinear_arith)
                requires
                    alen == round_up(len as int, ps as int),
                    ps > 0,
            ;
        }
        let m = if stack {
            map_anon_stack(alen)
        } else {
            map_anon(alen)
        };
        match m {
            Ok(m) => {
                let addr = mmap_addr(&m);
                self.insert_region(addr, true, Backing::Mapped(m))
            },
            Err(_) => Err(MmuError::HostFailure),
        }
    }

    /// Makes the bytes of `image` guest-visible, read-only, at the host address of its
    /// buffer.
    pub fn consume_host(&mut self, image: Vec<u8>) -> (r: Result<GuestAddr, MmuError>)
        requires
            old(self).wf(),
        ensures
            final(self).wf(),
            final(self).alloc_granule() == old(self).alloc_granule(),
            image@.len() == 0 <==> r == Err::<GuestAddr, MmuError>(MmuError::InvalidLength),
            r is Err ==> final(self)@ == old(self)@,
            r matches Ok(g) ==> final(self)@ == old(self)@.push(
                RegionView {
                    base: g.0 as int,
                    host_base: g.0 as int,
                    bytes: image@,
                    writable: false,
                },
            ),
    {
        self.consume_image(image, false)
    }

    /// Makes the bytes of `image` guest-visible and writable, at the host address of its
    /// buffer.
    pub fn consume_host_mut(&mut self, image: Vec<u8>) -> (r: Result<GuestAddr, MmuError>)
        requires
            old(self).wf(),
        ensures
            final(self).wf(),
            final(self).alloc_granule() == old(self).alloc_granule(),
            image@.len() == 0 <==> r == Err::<GuestAddr, MmuError>(MmuError::InvalidLength),
            r is Err ==> final(self)@ == old(self)@,
            r matches Ok(g) ==> final(self)@ == old(self)@.push(
                RegionView {
                    base: g.0 as int,
                    host_base: g.0 as int,
                    bytes: image@,
                    writable: true,
                },
            ),
    {
        self.consume_image(image, true)
    }

    fn consume_image(&mut self, image: Vec<u8>, writable: bool) -> (r: Result<
        GuestAddr,
        MmuError,
    >)
        requires
            old(self).wf(),
        ensures
            final(self).wf(),
            final(self).alloc_granule() == old(self).alloc_granule(),
            image@.len() == 0 <==> r == Err::<GuestAddr, MmuError>(MmuError::InvalidLength),
            r is Err ==> final(self)@ == old(self)@,
            r matches Ok(g) ==> final(self)@ == old(self)@.push(
                RegionView { base: g.0 as int, host_base: g.0 as int, bytes: image@, writable },
            ),
    {
        if image.len() == 0 {
            return Err(MmuError::InvalidLength);
        }
        let addr = vec_addr(&image);
        self.insert_region(addr, writable, Backing::Image(image))
    }

    /// Removes every region that meets `[g, g + len)`, whole.
    pub fn munmap(&mut self, g: GuestAddr, len: usize)
        requires
            old(self).wf(),
        ensures
            final(self).wf(),
            final(self).alloc_granule() == old(self).alloc_granule(),
            final(self)@ == old(self)@.filter(|r: RegionView| outside_range(r, g.0 as int, len as int)),
    {
        let ghost m0 = self@;
        let ghost keep = |r: RegionView| outside_range(r, g.0 as int, len as int);
        let end: u128 = g.0 as u128 + len as u128;
        let mut i: usize = 0;
        let ghost mut j: int = 0;
        while i < self.regions.len()
            invariant
                0 <= j <= m0.len(),
                self@ == m0.take(j).filter(keep) + m0.skip(j),
                i == m0.take(j).filter(keep).len(),
                i <= self.regions.len(),
                self.regions.len() == i + m0.len() - j,
                regions_wf(m0),
                end == g.0 + len,
                forall|x: RegionView| #[trigger] keep(x) == outside_range(x, g.0 as int, len as int),
                self.guest_page_size == old(self).guest_page_size,
                self.guest_page_shift == old(self).guest_page_shift,
                self.host_page_size == old(self).host_page_size,
                self.host_page_shift == old(self).host_page_shift,
                old(self).wf(),
                regions_wf(self@),
            decreases m0.len() - j,
        {
            let r = &self.regions[i];
            let l = backing_len(&r.backing);
            assert(self@[i as int] == self.regions@[i as int]@);
            assert(self@[i as int] == m0[j]);
            let ghost rs0 = self.regions@;
            let ghost s0 = self@;
            proof {
                assert(m0.take(j + 1).drop_last() =~= m0.take(j));
                assert(m0.take(j + 1).last() == m0[j]);
                reveal(Seq::filter);
            }
            if end <= r.base as u128 || r.base as u128 + l as u128 <= g.0 as u128 {
                i = i + 1;
                proof {
                    j = j + 1;
                    assert(self@ =~= m0.take(j).filter(keep) + m0.skip(j));
                }
            } else {
                let _dropped = self.regions.remove(i);
                proof {
                    lemma_remove_wf(s0, i as int);
                    assert(self@ =~= s0.remove(i as int)) by {
                        assert forall|k: int| 0 <= k < self@.len() implies #[trigger] self@[k] == s0.remove(i as int)[k] by {
                            assert(self@[k] == self.regions@[k]@);
                            if k < i {
                                assert(s0[k] == rs0[k]@);
                            } else {
                                assert(s0[k + 1] == rs0[k + 1]@);
                            }
                        }
                    }
                    j = j + 1;
                    assert(self@ =~= m0.take(j).filter(keep) + m0.skip(j));
                }
            }
        }
        proof {
            assert(m0.take(j) =~= m0);
            assert(self@ =~= m0.filter(keep));
        }
    }
}

/// Setting a writable byte keeps every region's place, size and permission, changes
/// that byte alone, and keeps the region list well formed.
pub proof fn lemma_store_byte(m: Seq<RegionView>, x: int, b: u8)
    requires
        regions_wf(m),
        writable_at(m, x),
    ensures
        regions_wf(store_byte(m, x, b)),
        forall|y: int| #[trigger]
            mem_byte(store_byte(m, x, b), y) == (if y == x {
                Some(b)
            } else {
                mem_byte(m, y)
            }),
        forall|y: int| #[trigger] writable_at(store_byte(m, x, b), y) == writable_at(m, y),
{
    let m1 = store_byte(m, x, b);
    assert forall|i: int| 0 <= i < m.len() implies #[trigger] m1[i].base == m[i].base
        && m1[i].bytes.len() == m[i].bytes.len() && m1[i].writable == m[i].writable
        && m1[i].host_base == m[i].host_base by {}
    assert forall|i: int| 0 <= i < m1.len() implies 0 <= #[trigger] m1[i].base && m1[i].base
        + m1[i].bytes.len() <= u64::MAX + 1 && m1[i].host_base == m1[i].base && 0
        < m1[i].bytes.len() <= usize::MAX by {
        assert(m1[i].base == m[i].base && m1[i].bytes.len() == m[i].bytes.len()
            && m1[i].host_base == m[i].host_base);
    }
    assert forall|i: int, j: int|
        0 <= i < m1.len() && 0 <= j < m1.len() && i != j implies disjoint(
        #[trigger] m1[i],
        #[trigger] m1[j],
    ) by {
        assert(disjoint(m[i], m[j]));
    }
    assert forall|y: int| #[trigger]
        mem_byte(m1, y) == (if y == x {
            Some(b)
        } else {
            mem_byte(m, y)
        }) by {
        lemma_store_byte_at(m, x, b, y);
    }
    assert forall|y: int| #[trigger] writable_at(m1, y) == writable_at(m, y) by {
        lemma_store_byte_at(m, x, b, y);
    }
}

proof fn lemma_store_byte_at(m: Seq<RegionView>, x: int, b: u8, y: int)
    requires
        regions_wf(m),
        regions_wf(store_byte(m, x, b)),
        writable_at(m, x),
    ensures
        mem_byte(store_byte(m, x, b), y) == (if y == x {
            Some(b)
        } else {
            mem_byte(m, y)
        }),
        writable_at(store_byte(m, x, b), y) == writable_at(m, y),
{
    let m1 = store_byte(m, x, b);
    let ix = region_of(m, x);
    if mapped(m, y) {
        let i = region_of(m, y);
        assert(contains(m1[i], y));
        lemma_region_of(m1, y, i);
        if y == x {
            assert(i == ix);
        } else if contains(m[i], x) {
            lemma_region_unique(m, x, i, ix);
        }
    } else {
        if mapped(m1, y) {
            let i = region_of(m1, y);
            assert(contains(m[i], y));
        }
    }
}

/// After `store(m, a, n, v)` the bytes from `a` are those of `v`, and the region list
/// keeps its shape.
pub proof fn lemma_store_bytes(m: Seq<RegionView>, a: int, n: nat, v: int)
    requires
        regions_wf(m),
        writable_range(m, a, n),
    ensures
        regions_wf(store(m, a, n, v)),
        forall|y: int| #[trigger] writable_at(store(m, a, n, v), y) == writable_at(m, y),
        forall|k: int| 0 <= k < n ==> #[trigger] mem_byte(store(m, a, n, v), a + k) == Some(
            byte_of(v, k as nat),
        ),
        forall|y: int| (y < a || y >= a + n) ==> #[trigger] mem_byte(store(m, a, n, v), y)
            == mem_byte(m, y),
    decreases n,
{
    if n > 0 {
        let n1 = (n - 1) as nat;
        lemma_store_bytes(m, a, n1, v);
        let s = store(m, a, n1, v);
        assert(writable_at(m, a + n1));
        assert(writable_at(s, a + n1));
        lemma_store_byte(s, a + n1, byte_of(v, n1));
        assert forall|k: int| 0 <= k < n implies #[trigger] mem_byte(store(m, a, n, v), a + k)
            == Some(byte_of(v, k as nat)) by {
            if k < n1 {
                assert(mem_byte(s, a + k) == Some(byte_of(v, k as nat)));
            }
        }
    }
}

/// Reading `n` bytes whose values are those of `v` gives `v` modulo `256^n`.
pub proof fn lemma_load_bytes(m: Seq<RegionView>, a: int, n: nat, v: int)
    requires
        v >= 0,
        forall|k: int| 0 <= k < n ==> #[trigger] mem_byte(m, a + k) == Some(byte_of(v, k as nat)),
    ensures
        load(m, a, n) == Some(v % pow256(n) as int),
    decreases n,
{
    lemma_pow256_pos(n);
    if n > 0 {
        let n1 = (n - 1) as nat;
        lemma_pow256_pos(n1);
        lemma_load_bytes(m, a, n1, v);
        assert(mem_byte(m, a + n1) == Some(byte_of(v, n1)));
        let p = pow256(n1) as int;
        vstd::arithmetic::div_mod::lemma_breakdown(v, p, 256);
        assert(p * 256 == pow256(n));
        vstd::arithmetic::div_mod::lemma_mod_pos_bound(v / p, 256);
        vstd::arithmetic::div_mod::lemma_div_pos_is_pos(v, p);
        assert(byte_of(v, n1) as int == (v / p) % 256);
        assert(p * ((v / p) % 256) == ((v / p) % 256) * p) by (nonlinear_arith);
    }
}

proof fn lemma_pow256_mono(i: nat, j: nat)
    requires
        i <= j,
    ensures
        pow256(i) <= pow256(j),
    decreases j,
{
    if i < j {
        lemma_pow256_mono(i, (j - 1) as nat);
    }
}

pub proof fn lemma_pow256_pos(k: nat)
    ensures
        pow256(k) > 0,
    decreases k,
{
    if k > 0 {
        lemma_pow256_pos((k - 1) as nat);
    }
}

/// Storing the `n` low bytes of `v` to writable memory and loading `n` bytes back from
/// the same address gives `v` truncated to `n` bytes: the full value for a 64-bit store
/// and load, its low 32 bits for a 32-bit one.
pub proof fn lemma_store_load_round_trip(m: Seq<RegionView>, a: int, n: nat, v: int)
    requires
        regions_wf(m),
        writable_range(m, a, n),
        v >= 0,
    ensures
        load(store(m, a, n, v), a, n) == Some(v % pow256(n) as int),
        n == 8 && v <= u64::MAX ==> load(store(m, a, n, v), a, n) == Some(v),
        n == 4 ==> load(store(m, a, n, v), a, n) == Some(v % 0x1_0000_0000),
{
    lemma_store_bytes(m, a, n, v);
    lemma_load_bytes(store(m, a, n, v), a, n, v);
    reveal_with_fuel(pow256, 9);
    if n == 8 && v <= u64::MAX {
        vstd::arithmetic::div_mod::lemma_small_mod(v as nat, pow256(n));
    }
}

/// A load of `n` bytes fails exactly where one of them is unmapped.
pub proof fn lemma_load_none(m: Seq<RegionView>, a: int, n: nat)
    ensures
        load(m, a, n) is None <==> exists|k: int| 0 <= k < n && #[trigger] mem_byte(m, a + k) is None,
        load(m, a, n) matches Some(x) ==> 0 <= x < pow256(n),
    decreases n,
{
    if n > 0 {
        let n1 = (n - 1) as nat;
        lemma_load_none(m, a, n1);
        if load(m, a, n) is None {
            if load(m, a, n1) is Some {
                assert(mem_byte(m, a + n1) is None);
            } else {
                let k = choose|k: int| 0 <= k < n1 && #[trigger] mem_byte(m, a + k) is None;
                assert(mem_byte(m, a + k) is None);
            }
        }
        if let Some(x) = load(m, a, n) {
            let lo = load(m, a, n1).unwrap();
            let b = mem_byte(m, a + n1).unwrap();
            assert(x == lo + b * pow256(n1));
            assert(lo + b * pow256(n1) < pow256(n)) by (nonlinear_arith)
                requires
                    0 <= lo < pow256(n1),
                    0 <= b < 256,
                    pow256(n) == 256 * pow256(n1),
            ;
            assert(0 <= b * pow256(n1)) by (nonlinear_arith)
                requires
                    0 <= b,
            ;
        }
    }
}

/// A load of `n` bytes yields a value below `256^n`.
pub proof fn lemma_load_bound(m: Seq<RegionView>, a: int, n: nat)
    ensures
        load(m, a, n) matches Some(x) ==> 0 <= x < pow256(n),
{
    lemma_load_none(m, a, n);
}

/// Nothing is mapped past the end of the 64-bit address space.
pub proof fn lemma_unmapped_high(m: Seq<RegionView>, y: int)
    requires
        regions_wf(m),
        y > u64::MAX,
    ensures
        mem_byte(m, y) is None,
        !writable_at(m, y),
{
    if mapped(m, y) {
        let i = region_of(m, y);
        assert(contains(m[i], y));
    }
}

impl GuestMmu {
    /// The little-endian value of the `n` guest bytes from `a`, or `None` where one of
    /// them is unmapped.
    pub fn load(&self, a: u64, n: u64) -> (r: Option<u64>)
        requires
            self.wf(),
            n <= 8,
        ensures
            r is None <==> load(self@, a as int, n as nat) is None,
            r matches Some(v) ==> load(self@, a as int, n as nat) == Some(v as int),
    {
        let mut v: u64 = 0;
        let mut mul: u128 = 1;
        let mut k: u64 = 0;
        proof {
            lemma_load_none(self@, a as int, 0);
        }
        while k < n
            invariant
                self.wf(),
                k <= n <= 8,
                load(self@, a as int, k as nat) == Some(v as int),
                mul == pow256(k as nat),
            decreases n - k,
        {
            proof {
                lemma_load_none(self@, a as int, k as nat);
                lemma_load_none(self@, a as int, (k + 1) as nat);
                lemma_load_none(self@, a as int, n as nat);
                lemma_pow256_pos(k as nat);
            }
            if k > u64::MAX - a {
                proof {
                    lemma_unmapped_high(self@, a + k);
                }
                return None;
            }
            match self.read_u8(a + k) {
                Some(b) => {
                    proof {
                        reveal_with_fuel(pow256, 9);
                        lemma_pow256_mono(k as nat, 7);
                        assert(v + b * mul < pow256((k + 1) as nat)) by (nonlinear_arith)
                            requires
                                v < mul,
                                b < 256,
                                pow256((k + 1) as nat) == 256 * mul,
                        ;
                        assert(b * mul <= 255 * pow256(7)) by (nonlinear_arith)
                            requires
                                b < 256,
                                mul <= pow256(7),
                        ;
                    }
                    v = (v as u128 + b as u128 * mul) as u64;
                    mul = mul * 256;
                    k = k + 1;
                },
                None => {
                    return None;
                },
            }
        }
        Some(v)
    }
}

impl GuestMmu {
    /// Whether a writable region holds `a`.
    pub fn is_writable(&self, a: u64) -> (r: bool)
        requires
            self.wf(),
        ensures
            r == writable_at(self@, a as int),
    {
        match self.find_region(a) {
            Some(i) => {
                assert(self@[i as int] == self.regions@[i as int]@);
                self.regions[i].writable
            },
            None => false,
        }
    }

    /// Stores the `n` low bytes of `v` little-endian from `a`, where all of them are
    /// writable; otherwise changes nothing.
    pub fn store(&mut self, a: u64, n: u64, v: u64) -> (r: bool)
        requires
            old(self).wf(),
            n <= 8,
        ensures
            final(self).wf(),
            final(self).alloc_granule() == old(self).alloc_granule(),
            r == writable_range(old(self)@, a as int, n as nat),
            final(self)@ == (if r {
                store(old(self)@, a as int, n as nat, v as int)
            } else {
                old(self)@
            }),
    {
        let mut k: u64 = 0;
        while k < n
            invariant
                self.wf(),
                k <= n <= 8,
                forall|j: int| 0 <= j < k ==> #[trigger] writable_at(self@, a + j),
            decreases n - k,
        {
            if k > u64::MAX - a {
                proof {
                    lemma_unmapped_high(self@, a + k);
                }
                return false;
            }
            if !self.is_writable(a + k) {
                return false;
            }
            k = k + 1;
        }
        let ghost m0 = self@;
        let mut rest: u64 = v;
        let mut k: u64 = 0;
        proof {
            assert(pow256(0) == 1);
            assert(v as int / 1 == v);
        }
        while k < n
            invariant
                self.wf(),
                self.alloc_granule() == old(self).alloc_granule(),
                k <= n <= 8,
                regions_wf(m0),
                writable_range(m0, a as int, n as nat),
                self@ == store(m0, a as int, k as nat, v as int),
                rest == v as int / pow256(k as nat) as int,
            decreases n - k,
        {
            proof {
                assert(writable_range(m0, a as int, k as nat));
                lemma_store_bytes(m0, a as int, k as nat, v as int);
                assert(writable_at(m0, a + k));
                assert(writable_at(self@, a + k));
                lemma_pow256_pos(k as nat);
                vstd::arithmetic::div_mod::lemma_div_denominator(v as int, pow256(k as nat) as int, 256);
                assert(rest & 0xff == rest % 256) by (bit_vector);
                assert(rest >> 8 == rest / 256) by (bit_vector);
            }
            if k > u64::MAX - a {
                proof {
                    lemma_unmapped_high(self@, a + k);
                }
                return false;
            }
            let b = (rest & 0xff) as u8;
            let ok = self.write_u8(a + k, b);
            rest = rest >> 8;
            k = k + 1;
        }
        true
    }
}

} // verus!
