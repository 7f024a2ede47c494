//! Admission of process images from storage into the process table and the
//! application memory arena.

use vstd::prelude::*;

use crate::capability::ProcessManagementCapability;

verus! {

/// Number of process slots this board supports.
pub const NUM_PROCS: usize = 4;

/// Size in bytes of the arena from which process memory is carved.
pub const APP_MEMORY_SIZE: usize = 32768;

/// What the kernel does when an admitted process faults.
#[derive(Clone, Copy, Debug, PartialEq, Eq, Structural)]
pub enum FaultResponse {
    /// Bring the whole system down.
    Panic,
    /// Restart the faulting process.
    Restart,
    /// Halt the faulting process permanently.
    Stop,
}

/// The storage range that holds process images, as a base address and a
/// length in bytes.
#[derive(Clone, Copy, Debug, PartialEq, Eq, Structural)]
pub struct StorageRegion {
    pub base: u32,
    pub len: u32,
}

impl StorageRegion {
    /// The region fits in the 32-bit address space.
    pub open spec fn wf(&self) -> bool {
        self.base + self.len <= u32::MAX
    }
}

/// What the image-format reader reports for the image found at the current
/// scan position.
#[derive(Debug)]
pub struct ImageHeader {
    /// Bytes the image occupies in storage; zero marks the end of the images.
    pub total_size: u32,
    /// Bytes of arena memory the image asks for.
    pub min_ram: u32,
    /// The process's declared name.
    pub name: String,
    /// Whether the header and its checks are sound.
    pub well_formed: bool,
}

/// An admitted process: where its image lies and which part of the arena it
/// owns.
#[derive(Debug)]
pub struct Process {
    pub name: String,
    /// Address of the image's first byte in storage.
    pub flash_start: u32,
    pub flash_size: u32,
    /// Offset of the process's memory inside the arena.
    pub mem_start: usize,
    pub mem_size: usize,
    pub fault_response: FaultResponse,
}

impl Process {
    /// Address of the code of the process (its image in storage).
    pub fn flash_non_protected_start(&self) -> (r: u32)
        ensures
            r == self.flash_start,
    {
        self.flash_start
    }

    pub open spec fn mem_end(&self) -> int {
        self.mem_start + self.mem_size
    }
}

/// One admission decided by a scan: the index of the image, its offset in
/// storage, and the arena range given to it.
pub struct Admission {
    pub image: nat,
    pub flash_offset: nat,
    pub mem_start: nat,
    pub mem_size: nat,
}

/// The admissions that a scan makes from image `i` on, with the storage
/// offset `offset` reached, `used` arena bytes given away and `room` free
/// slots left.
pub open spec fn scan(
    imgs: Seq<ImageHeader>,
    i: nat,
    offset: nat,
    used: nat,
    room: nat,
    region_len: nat,
    arena_len: nat,
) -> Seq<Admission>
    decreases imgs.len() - i,
{
    if i >= imgs.len() || room == 0 {
        seq![]
    } else {
        let h = imgs[i as int];
        if h.total_size == 0 || offset + h.total_size > region_len {
            seq![]
        } else if h.well_formed && used + h.min_ram <= arena_len {
            seq![Admission { image: i, flash_offset: offset, mem_start: used, mem_size: h.min_ram as nat }]
                + scan(
                imgs,
                (i + 1) as nat,
                (offset + h.total_size) as nat,
                (used + h.min_ram) as nat,
                (room - 1) as nat,
                region_len,
                arena_len,
            )
        } else {
            scan(imgs, (i + 1) as nat, (offset + h.total_size) as nat, used, room, region_len, arena_len)
        }
    }
}

/// The admissions of a whole scan into an empty table.
pub open spec fn admissions(imgs: Seq<ImageHeader>, region_len: nat, arena_len: nat) -> Seq<
    Admission,
> {
    scan(imgs, 0, 0, 0, NUM_PROCS as nat, region_len, arena_len)
}

/// `p` is the process that admission `a` describes.
pub open spec fn is_admitted(
    p: Process,
    a: Admission,
    imgs: Seq<ImageHeader>,
    base: nat,
    fault: FaultResponse,
) -> bool {
    &&& a.image < imgs.len()
    &&& p.name@ == imgs[a.image as int].name@
    &&& p.flash_start == base + a.flash_offset
    &&& p.flash_size == imgs[a.image as int].total_size
    &&& p.mem_start == a.mem_start
    &&& p.mem_size == a.mem_size
    &&& p.fault_response == fault
}

/// The admissions lie in `[used, arena_len)`, in increasing order, without
/// overlap.
pub open spec fn ordered_from(adm: Seq<Admission>, used: nat, arena_len: nat) -> bool {
    &&& forall|k: int| 0 <= k < adm.len() ==> used <= #[trigger] adm[k].mem_start
    &&& forall|k: int| 0 <= k < adm.len() ==> #[trigger] adm[k].mem_start + adm[k].mem_size <= arena_len
    &&& forall|k: int, l: int|
        0 <= k < l < adm.len() ==> #[trigger] adm[k].mem_start + adm[k].mem_size
            <= #[trigger] adm[l].mem_start
}

proof fn lemma_scan_ordered(
    imgs: Seq<ImageHeader>,
    i: nat,
    offset: nat,
    used: nat,
    room: nat,
    region_len: nat,
    arena_len: nat,
)
    ensures
        ordered_from(scan(imgs, i, offset, used, room, region_len, arena_len), used, arena_len),
        scan(imgs, i, offset, used, room, region_len, arena_len).len() <= room,
        forall|k: int|
            0 <= k < scan(imgs, i, offset, used, room, region_len, arena_len).len() ==> i
                <= #[trigger] scan(imgs, i, offset, used, room, region_len, arena_len)[k].image
                < imgs.len(),
    decreases imgs.len() - i,
{
    if i >= imgs.len() || room == 0 {
    } else {
        let h = imgs[i as int];
        if h.total_size == 0 || offset + h.total_size > region_len {
        } else if h.well_formed && used + h.min_ram <= arena_len {
            let nu = (used + h.min_ram) as nat;
            lemma_scan_ordered(imgs, (i + 1) as nat, (offset + h.total_size) as nat, nu, (room - 1) as nat, region_len, arena_len);
            let rest = scan(imgs, (i + 1) as nat, (offset + h.total_size) as nat, nu, (room - 1) as nat, region_len, arena_len);
            let head = Admission { image: i, flash_offset: offset, mem_start: used, mem_size: h.min_ram as nat };
            let all = seq![head] + rest;
            assert(all == scan(imgs, i, offset, used, room, region_len, arena_len));
            assert forall|k: int, l: int|
                0 <= k < l < all.len() implies #[trigger] all[k].mem_start + all[k].mem_size
                <= #[trigger] all[l].mem_start by {
                if k == 0 {
                    assert(all[l] == rest[l - 1]);
                } else {
                    assert(all[k] == rest[k - 1]);
                    assert(all[l] == rest[l - 1]);
                }
            }
            assert forall|k: int| 0 <= k < all.len() implies used <= #[trigger] all[k].mem_start
                && all[k].mem_start + all[k].mem_size <= arena_len
                && i <= all[k].image < imgs.len() by {
                if k > 0 {
                    assert(all[k] == rest[k - 1]);
                }
            }
        } else {
            lemma_scan_ordered(imgs, (i + 1) as nat, (offset + h.total_size) as nat, used, room, region_len, arena_len);
        }
    }
}

/// The arena ranges that a scan gives out lie inside the arena and are
/// pairwise disjoint, and a scan never admits more images than there are
/// free slots.
pub proof fn lemma_admissions_partition_arena(imgs: Seq<ImageHeader>, region_len: nat, arena_len: nat)
    ensures
        admissions(imgs, region_len, arena_len).len() <= NUM_PROCS,
        forall|k: int|
            0 <= k < admissions(imgs, region_len, arena_len).len() ==> #[trigger] admissions(
                imgs,
                region_len,
                arena_len,
            )[k].mem_start + admissions(imgs, region_len, arena_len)[k].mem_size <= arena_len,
        forall|k: int, l: int|
            0 <= k < admissions(imgs, region_len, arena_len).len() && 0 <= l < admissions(
                imgs,
                region_len,
                arena_len,
            ).len() && k != l ==> {
                let a = #[trigger] admissions(imgs, region_len, arena_len)[k];
                let b = #[trigger] admissions(imgs, region_len, arena_len)[l];
                a.mem_start + a.mem_size <= b.mem_start || b.mem_start + b.mem_size <= a.mem_start
            },
{
    lemma_scan_ordered(imgs, 0, 0, 0, NUM_PROCS as nat, region_len, arena_len);
}

/// Once every slot is taken, no further image is admitted, whatever follows
/// in storage.
pub proof fn lemma_full_table_admits_nothing(
    imgs: Seq<ImageHeader>,
    i: nat,
    offset: nat,
    used: nat,
    region_len: nat,
    arena_len: nat,
)
    ensures
        scan(imgs, i, offset, used, 0, region_len, arena_len) == Seq::<Admission>::empty(),
{
}

/// A storage region without a well-formed image admits no process.
pub proof fn lemma_no_valid_image_admits_nothing(
    imgs: Seq<ImageHeader>,
    region_len: nat,
    arena_len: nat,
)
    requires
        forall|k: int| 0 <= k < imgs.len() ==> !(#[trigger] imgs[k]).well_formed,
    ensures
        admissions(imgs, region_len, arena_len) == Seq::<Admission>::empty(),
{
    lemma_scan_invalid_empty(imgs, 0, 0, 0, NUM_PROCS as nat, region_len, arena_len);
}

proof fn lemma_scan_invalid_empty(
    imgs: Seq<ImageHeader>,
    i: nat,
    offset: nat,
    used: nat,
    room: nat,
    region_len: nat,
    arena_len: nat,
)
    requires
        forall|k: int| 0 <= k < imgs.len() ==> !(#[trigger] imgs[k]).well_formed,
    ensures
        scan(imgs, i, offset, used, room, region_len, arena_len) == Seq::<Admission>::empty(),
    decreases imgs.len() - i,
{
    if i < imgs.len() && room > 0 {
        let h = imgs[i as int];
        lemma_scan_invalid_empty(imgs, (i + 1) as nat, (offset + h.total_size) as nat, used, room, region_len, arena_len);
    }
}

/// No table holds more processes than it has slots.
pub proof fn lemma_occupied_within_capacity(t: &ProcessTable)
    requires
        t.wf(),
    ensures
        t.occupied() <= NUM_PROCS,
{
    lemma_count_le_len(t.slots@);
}

/// Number of occupied entries.
pub open spec fn count_occupied(s: Seq<Option<Process>>) -> nat
    decreases s.len(),
{
    if s.len() == 0 {
        0
    } else {
        count_occupied(s.drop_last()) + if s.last() is Some {
            1nat
        } else {
            0nat
        }
    }
}

proof fn lemma_count_le_len(s: Seq<Option<Process>>)
    ensures
        count_occupied(s) <= s.len(),
    decreases s.len(),
{
    if s.len() > 0 {
        lemma_count_le_len(s.drop_last());
    }
}

proof fn lemma_count_prefix_filled(s: Seq<Option<Process>>, n: nat)
    requires
        n <= s.len(),
        forall|k: int| 0 <= k < n ==> (#[trigger] s[k]) is Some,
        forall|k: int| n <= k < s.len() ==> (#[trigger] s[k]) is None,
    ensures
        count_occupied(s) == n,
    decreases s.len(),
{
    if s.len() > 0 {
        let t = s.drop_last();
        if n == s.len() {
            lemma_count_prefix_filled(t, (n - 1) as nat);
        } else {
            lemma_count_prefix_filled(t, n);
        }
    }
}

/// The fixed table of process slots.
#[derive(Debug)]
pub struct ProcessTable {
    pub slots: Vec<Option<Process>>,
}

impl ProcessTable {
    /// The table has exactly `NUM_PROCS` slots.
    pub open spec fn wf(&self) -> bool {
        self.slots@.len() == NUM_PROCS
    }

    pub open spec fn all_empty(&self) -> bool {
        forall|k: int| 0 <= k < self.slots@.len() ==> (#[trigger] self.slots@[k]) is None
    }

    pub open spec fn occupied(&self) -> nat {
        count_occupied(self.slots@)
    }

    /// The memory of every process lies inside an arena of `arena_len` bytes,
    /// and no two processes share a byte.
    pub open spec fn partitions_arena(&self, arena_len: nat) -> bool {
        &&& forall|k: int|
            0 <= k < self.slots@.len() ==> match #[trigger] self.slots@[k] {
                Some(p) => p.mem_end() <= arena_len,
                None => true,
            }
        &&& forall|k: int, l: int|
            0 <= k < self.slots@.len() && 0 <= l < self.slots@.len() && k != l ==> match (
                #[trigger] self.slots@[k],
                #[trigger] self.slots@[l],
            ) {
                (Some(p), Some(q)) => p.mem_end() <= q.mem_start || q.mem_end() <= p.mem_start,
                _ => true,
            }
    }

    /// An empty table.
    pub fn new() -> (r: ProcessTable)
        ensures
            r.wf(),
            r.all_empty(),
            r.occupied() == 0,
    {
        let mut slots: Vec<Option<Process>> = Vec::new();
        let mut k: usize = 0;
        while k < NUM_PROCS
            invariant
                k <= NUM_PROCS,
                slots@.len() == k,
                forall|j: int| 0 <= j < k ==> (#[trigger] slots@[j]) is None,
            decreases NUM_PROCS - k,
        {
            slots.push(None);
            k = k + 1;
        }
        let r = ProcessTable { slots };
        proof {
            lemma_count_prefix_filled(r.slots@, 0);
        }
        r
    }

    /// The process in slot `i`, if any.
    pub fn get(&self, i: usize) -> (r: Option<&Process>)
        ensures
            i < self.slots@.len() ==> r == match self.slots@[i as int] {
                Some(p) => Some(&p),
                None => None::<&Process>,
            },
            i >= self.slots@.len() ==> r is None,
    {
        if i < self.slots.len() {
            match &self.slots[i] {
                Some(p) => Some(p),
                None => None,
            }
        } else {
            None
        }
    }

    /// Number of occupied slots.
    pub fn num_occupied(&self) -> (r: usize)
        ensures
            r == self.occupied(),
            r <= self.slots@.len(),
    {
        let mut n: usize = 0;
        let mut k: usize = 0;
        while k < self.slots.len()
            invariant
                k <= self.slots@.len(),
                n == count_occupied(self.slots@.take(k as int)),
                n <= k,
            decreases self.slots@.len() - k,
        {
            assert(self.slots@.take(k + 1).drop_last() =~= self.slots@.take(k as int));
            if self.slots[k].is_some() {
                n = n + 1;
            }
            k = k + 1;
        }
        assert(self.slots@.take(k as int) =~= self.slots@);
        n
    }
}

/// Scans the images in storage order and admits each well-formed one whose
/// memory request still fits the arena into the next free slot. Images that
/// are malformed or do not fit are skipped; the scan stops at an image of size
/// zero, at one that would run past the region's end, or when the table is
/// full.
pub fn load_processes(
    region: &StorageRegion,
    images: &Vec<ImageHeader>,
    arena: &[u8],
    table: &mut ProcessTable,
    fault_response: FaultResponse,
    _capability: &ProcessManagementCapability,
)
    requires
        region.wf(),
        old(table).wf(),
        old(table).all_empty(),
    ensures
        final(table).wf(),
        ({
            let adm = admissions(images@, region.len as nat, arena@.len());
            &&& forall|k: int|
                0 <= k < adm.len() ==> match #[trigger] final(table).slots@[k] {
                    Some(p) => is_admitted(p, adm[k], images@, region.base as nat, fault_response),
                    None => false,
                }
            &&& forall|k: int| adm.len() <= k < NUM_PROCS ==> (#[trigger] final(table).slots@[k]) is None
            &&& final(table).occupied() == adm.len()
        }),
        final(table).occupied() <= NUM_PROCS,
        final(table).partitions_arena(arena@.len()),
{
    let ghost imgs = images@;
    let ghost rlen = region.len as nat;
    let ghost alen = arena@.len();
    let ghost total = admissions(imgs, rlen, alen);
    let ghost mut done_adm: Seq<Admission> = seq![];
    let mut offset: u32 = 0;
    let mut used: usize = 0;
    let mut count: usize = 0;
    let mut i: usize = 0;
    let mut stop = false;
    while i < images.len() && !stop
        invariant
            table.wf(),
            imgs == images@,
            rlen == region.len,
            alen == arena@.len(),
            region.wf(),
            total == admissions(imgs, rlen, alen),
            offset <= region.len,
            used <= arena@.len(),
            count <= NUM_PROCS,
            i <= images@.len(),
            done_adm.len() == count,
            done_adm + scan(imgs, i as nat, offset as nat, used as nat, (NUM_PROCS - count) as nat, rlen, alen)
                == total,
            stop ==> scan(imgs, i as nat, offset as nat, used as nat, (NUM_PROCS - count) as nat, rlen, alen)
                == Seq::<Admission>::empty(),
            forall|k: int|
                0 <= k < count ==> match #[trigger] table.slots@[k] {
                    Some(p) => is_admitted(p, done_adm[k], imgs, region.base as nat, fault_response),
                    None => false,
                },
            forall|k: int| count <= k < NUM_PROCS ==> (#[trigger] table.slots@[k]) is None,
        decreases images@.len() - i, if stop { 0int } else { 1int },
    {
        let h = &images[i];
        if count == NUM_PROCS || h.total_size == 0 || h.total_size > region.len - offset {
            stop = true;
        } else {
            let ghost before = scan(imgs, i as nat, offset as nat, used as nat, (NUM_PROCS - count) as nat, rlen, alen);
            if h.well_formed && (h.min_ram as usize) <= arena.len() - used {
                let p = Process {
                    name: h.name.clone(),
                    flash_start: region.base + offset,
                    flash_size: h.total_size,
                    mem_start: used,
                    mem_size: h.min_ram as usize,
                    fault_response,
                };
                let ghost a = Admission {
                    image: i as nat,
                    flash_offset: offset as nat,
                    mem_start: used as nat,
                    mem_size: h.min_ram as nat,
                };
                table.slots.set(count, Some(p));
                proof {
                    let rest = scan(imgs, (i + 1) as nat, (offset + h.total_size) as nat, (used + h.min_ram) as nat,
                        (NUM_PROCS - count - 1) as nat, rlen, alen);
                    assert(before == seq![a] + rest);
                    assert(done_adm + before == (done_adm.push(a)) + rest);
                    done_adm = done_adm.push(a);
                }
                used = used + h.min_ram as usize;
                count = count + 1;
            }
            offset = offset + h.total_size;
            i = i + 1;
        }
    }
    proof {
        assert(done_adm =~= total);
        lemma_count_prefix_filled(table.slots@, count as nat);
        lemma_admissions_partition_arena(imgs, rlen, alen);
        assert forall|k: int, l: int|
            0 <= k < table.slots@.len() && 0 <= l < table.slots@.len() && k != l implies match (
                #[trigger] table.slots@[k],
                #[trigger] table.slots@[l],
            ) {
                (Some(p), Some(q)) => p.mem_end() <= q.mem_start || q.mem_end() <= p.mem_start,
                _ => true,
            } by {
            if k < count && l < count {
                let a = total[k];
                let b = total[l];
            }
        }
        assert forall|k: int| 0 <= k < table.slots@.len() implies match #[trigger] table.slots@[k] {
            Some(p) => p.mem_end() <= alen,
            None => true,
        } by {
            if k < count {
                let a = total[k];
            }
        }
    }
}

} // verus!
