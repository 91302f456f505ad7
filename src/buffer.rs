//! The firmware's staging buffers: the requests that configure them, the
//! two-buffer layout every dump uses, and the bookkeeping of raw banks.
use vstd::prelude::*;

use crate::opcodes::{
    ALLOCATE_BUFFER0, ALLOCATE_BUFFER1, BUFF_PAYLOAD, DICT_BUFFER, GET_CUR_BUFF_STATUS,
    RAW_BUFFER_RESET, SET_MAP_N_MAPVAR, SET_MEM_N_PART, SET_RELOAD_PAGENUM0, SET_RELOAD_PAGENUM1,
};
use crate::transport::{
    read_device, read_device_no_check, spec_request, ControlRequest, DumpError,
};

verus! {

/// Size in bytes of one raw bank of staging memory.
pub const RAW_BANK_SIZE: u16 = 32;

/// Number of raw banks the firmware has.
pub const NUM_RAW_BANKS: u8 = 16;

/// Bytes drained from the device per chunk.
pub const CHUNK_SIZE: u16 = 128;

/// Unallocates every buffer.
pub fn raw_buffer_reset() -> (r: ControlRequest)
    ensures
        r == spec_request(DICT_BUFFER, RAW_BUFFER_RESET, 0, 0, 1, true),
{
    read_device(DICT_BUFFER, RAW_BUFFER_RESET, 0, 0, 1)
}

/// Allocates buffer 0: operand holds id (high byte) and base bank, misc the
/// number of banks.
pub fn allocate_buffer0(operand: u16, misc: u8) -> (r: ControlRequest)
    ensures
        r == spec_request(DICT_BUFFER, ALLOCATE_BUFFER0, operand, misc, 1, true),
{
    read_device(DICT_BUFFER, ALLOCATE_BUFFER0, operand, misc, 1)
}

/// Allocates buffer 1, laid out as for buffer 0.
pub fn allocate_buffer1(operand: u16, misc: u8) -> (r: ControlRequest)
    ensures
        r == spec_request(DICT_BUFFER, ALLOCATE_BUFFER1, operand, misc, 1, true),
{
    read_device(DICT_BUFFER, ALLOCATE_BUFFER1, operand, misc, 1)
}

/// Sets buffer 0's first page (operand) and reload increment (misc).
pub fn set_reload_pagenum0(operand: u16, misc: u8) -> (r: ControlRequest)
    ensures
        r == spec_request(DICT_BUFFER, SET_RELOAD_PAGENUM0, operand, misc, 1, true),
{
    read_device(DICT_BUFFER, SET_RELOAD_PAGENUM0, operand, misc, 1)
}

/// Sets buffer 1's first page (operand) and reload increment (misc).
pub fn set_reload_pagenum1(operand: u16, misc: u8) -> (r: ControlRequest)
    ensures
        r == spec_request(DICT_BUFFER, SET_RELOAD_PAGENUM1, operand, misc, 1, true),
{
    read_device(DICT_BUFFER, SET_RELOAD_PAGENUM1, operand, misc, 1)
}

/// Sets memory kind (operand high byte) and part number (low byte) of the
/// buffer numbered by misc.
pub fn set_mem_n_part(operand: u16, misc: u8) -> (r: ControlRequest)
    ensures
        r == spec_request(DICT_BUFFER, SET_MEM_N_PART, operand, misc, 1, true),
{
    read_device(DICT_BUFFER, SET_MEM_N_PART, operand, misc, 1)
}

/// Sets mapper (operand high byte) and mapper variant (low byte) of the
/// buffer numbered by misc.
pub fn set_map_n_mapvar(operand: u16, misc: u8) -> (r: ControlRequest)
    ensures
        r == spec_request(DICT_BUFFER, SET_MAP_N_MAPVAR, operand, misc, 1, true),
{
    read_device(DICT_BUFFER, SET_MAP_N_MAPVAR, operand, misc, 1)
}

/// Asks for the state of the buffer the device is working on; the state is
/// the data byte of the three-byte response.
pub fn get_cur_buff_status() -> (r: ControlRequest)
    ensures
        r == spec_request(DICT_BUFFER, GET_CUR_BUFF_STATUS, 0, 0, 3, true),
{
    read_device(DICT_BUFFER, GET_CUR_BUFF_STATUS, 0, 0, 3)
}

/// Drains a captured chunk; the response is payload only.
pub fn buff_payload(length: u16) -> (r: ControlRequest)
    ensures
        r == spec_request(DICT_BUFFER, BUFF_PAYLOAD, 0, 0, length, false),
{
    read_device_no_check(DICT_BUFFER, BUFF_PAYLOAD, 0, 0, length)
}

/// How one buffer is allocated and advanced.
#[derive(Debug, Clone, Copy, PartialEq, Eq, Structural)]
pub struct BufferConfig {
    /// Tag byte; its top bit gives address bit A7 for half-page buffers.
    pub id: u8,
    pub base_bank: u8,
    pub num_banks: u8,
    /// Page the buffer reads first.
    pub first_page: u16,
    /// Pages added after each load cycle.
    pub reload: u8,
}

/// The two buffers of a dump.
#[derive(Debug, Clone, Copy, PartialEq, Eq, Structural)]
pub struct BufferPlan {
    /// Bytes per buffer.
    pub buff_size: u16,
    pub buff0: BufferConfig,
    pub buff1: BufferConfig,
}

/// The two supported layouts: two 128-byte buffers splitting each 256-byte
/// page in halves, or two 256-byte buffers taking even and odd pages.
pub open spec fn spec_buffer_plan(num_buffers: u16, buff_size: u16) -> Option<BufferPlan> {
    if num_buffers == 2 && buff_size == 128 {
        Some(
            BufferPlan {
                buff_size: 128,
                buff0: BufferConfig { id: 0x00, base_bank: 0, num_banks: 4, first_page: 0, reload: 1 },
                buff1: BufferConfig { id: 0x80, base_bank: 4, num_banks: 4, first_page: 0, reload: 1 },
            },
        )
    } else if num_buffers == 2 && buff_size == 256 {
        Some(
            BufferPlan {
                buff_size: 256,
                buff0: BufferConfig { id: 0x00, base_bank: 0, num_banks: 8, first_page: 0, reload: 2 },
                buff1: BufferConfig { id: 0x00, base_bank: 8, num_banks: 8, first_page: 1, reload: 2 },
            },
        )
    } else {
        None
    }
}

/// Chooses the buffer layout for `num_buffers` buffers of `buff_size` bytes;
/// any shape but the two supported ones is a configuration error.
pub fn buffer_allocate(num_buffers: u16, buff_size: u16) -> (r: Result<BufferPlan, DumpError>)
    ensures
        spec_buffer_plan(num_buffers, buff_size) is Some ==> r == Ok::<BufferPlan, DumpError>(
            spec_buffer_plan(num_buffers, buff_size).unwrap(),
        ),
        spec_buffer_plan(num_buffers, buff_size) is None ==> r == Err::<BufferPlan, DumpError>(
            DumpError::Configuration,
        ),
{
    let numbanks: u8 = (buff_size / RAW_BANK_SIZE) as u8;
    if num_buffers == 2 && buff_size == 128 {
        Ok(
            BufferPlan {
                buff_size,
                buff0: BufferConfig { id: 0x00, base_bank: 0, num_banks: numbanks, first_page: 0, reload: 1 },
                buff1: BufferConfig {
                    id: 0x80,
                    base_bank: numbanks,
                    num_banks: numbanks,
                    first_page: 0,
                    reload: 1,
                },
            },
        )
    } else if num_buffers == 2 && buff_size == 256 {
        Ok(
            BufferPlan {
                buff_size,
                buff0: BufferConfig { id: 0x00, base_bank: 0, num_banks: numbanks, first_page: 0, reload: 2 },
                buff1: BufferConfig {
                    id: 0x00,
                    base_bank: numbanks,
                    num_banks: numbanks,
                    first_page: 1,
                    reload: 2,
                },
            },
        )
    } else {
        Err(DumpError::Configuration)
    }
}

pub open spec fn spec_plan_requests(plan: BufferPlan) -> Seq<ControlRequest> {
    seq![
        spec_request(DICT_BUFFER, ALLOCATE_BUFFER0,
            (plan.buff0.id as int * 256 + plan.buff0.base_bank as int) as u16, plan.buff0.num_banks, 1, true),
        spec_request(DICT_BUFFER, ALLOCATE_BUFFER1,
            (plan.buff1.id as int * 256 + plan.buff1.base_bank as int) as u16, plan.buff1.num_banks, 1, true),
        spec_request(DICT_BUFFER, SET_RELOAD_PAGENUM0, plan.buff0.first_page, plan.buff0.reload, 1, true),
        spec_request(DICT_BUFFER, SET_RELOAD_PAGENUM1, plan.buff1.first_page, plan.buff1.reload, 1, true),
    ]
}

/// The four transfers that put `plan` in place: allocate both buffers, then
/// set their first pages and reloads.
pub fn plan_requests(plan: &BufferPlan) -> (r: Vec<ControlRequest>)
    ensures
        r@ == spec_plan_requests(*plan),
{
    let mut r: Vec<ControlRequest> = Vec::new();
    r.push(allocate_buffer0((plan.buff0.id as u16) * 256 + plan.buff0.base_bank as u16, plan.buff0.num_banks));
    r.push(allocate_buffer1((plan.buff1.id as u16) * 256 + plan.buff1.base_bank as u16, plan.buff1.num_banks));
    r.push(set_reload_pagenum0(plan.buff0.first_page, plan.buff0.reload));
    r.push(set_reload_pagenum1(plan.buff1.first_page, plan.buff1.reload));
    r
}

/// Byte offset, within the dumped address range, of the `k`-th chunk drained
/// under `plan`: chunks alternate between buffer 0 and buffer 1, each buffer
/// reading page `first_page + cycle * reload`, and a half-page buffer reading
/// the upper half when the top bit of its id is set.
pub open spec fn chunk_offset(plan: BufferPlan, k: nat) -> int {
    let cycle = k / 2;
    let buf = if k % 2 == 0 {
        plan.buff0
    } else {
        plan.buff1
    };
    let page = buf.first_page as int + cycle * buf.reload as int;
    let half = if plan.buff_size == 128 && buf.id >= 0x80 {
        128int
    } else {
        0int
    };
    page * 256 + half
}

/// In both supported layouts the chunks cover the address range in order,
/// one after the other: chunk `k` starts at `k * buff_size`, so no chunk
/// repeats, overlaps or skips another.
pub proof fn lemma_interleave_gap_free(num_buffers: u16, buff_size: u16, k: nat)
    requires
        spec_buffer_plan(num_buffers, buff_size) is Some,
    ensures
        chunk_offset(spec_buffer_plan(num_buffers, buff_size).unwrap(), k) == k * buff_size,
{
    let plan = spec_buffer_plan(num_buffers, buff_size).unwrap();
    if buff_size == 128 {
        assert(k == 2 * (k / 2) + k % 2);
        assert(chunk_offset(plan, k) == k * 128) by (nonlinear_arith)
            requires
                chunk_offset(plan, k) == (k / 2) * 256 + (if k % 2 == 0 { 0int } else { 128int }),
                k == 2 * (k / 2) + k % 2,
                k % 2 == 0 || k % 2 == 1,
        ;
    } else {
        assert(k == 2 * (k / 2) + k % 2);
        assert(chunk_offset(plan, k) == k * 256) by (nonlinear_arith)
            requires
                chunk_offset(plan, k) == ((if k % 2 == 0 { 0int } else { 1int }) + (k / 2) * 2) * 256,
                k == 2 * (k / 2) + k % 2,
                k % 2 == 0 || k % 2 == 1,
        ;
    }
}

/// Offsets of the first `n` chunks drained under `plan`.
pub fn chunk_offsets(plan: &BufferPlan, n: u32) -> (r: Vec<u64>)
    requires
        plan.buff_size == 128 || plan.buff_size == 256,
    ensures
        r@.len() == n,
        forall|k: int| 0 <= k < n ==> r@[k] as int == chunk_offset(*plan, k as nat),
{
    let mut r: Vec<u64> = Vec::new();
    let mut k: u32 = 0;
    while k < n
        invariant
            k <= n,
            plan.buff_size == 128 || plan.buff_size == 256,
            r@.len() == k,
            forall|j: int| 0 <= j < k ==> r@[j] as int == chunk_offset(*plan, j as nat),
        decreases n - k,
    {
        let buf = if k % 2 == 0 {
            plan.buff0
        } else {
            plan.buff1
        };
        let cycle: u64 = (k / 2) as u64;
        assert(cycle * buf.reload <= 0xFFFF_FFFF * 255) by (nonlinear_arith)
            requires
                cycle <= 0xFFFF_FFFF,
                buf.reload <= 255,
        ;
        let page: u64 = buf.first_page as u64 + cycle * buf.reload as u64;
        let half: u64 = if plan.buff_size == 128 && buf.id >= 0x80 {
            128
        } else {
            0
        };
        assert(page * 256 <= 0x1_0000_0000_0000 * 256) by (nonlinear_arith)
            requires
                page <= 0x1_0000_0000_0000,
        ;
        r.push(page * 256 + half);
        k = k + 1;
    }
    r
}

/// Raw banks held by one allocated buffer.
#[derive(Debug, Clone, Copy, PartialEq, Eq, Structural)]
pub struct Allocation {
    pub id: u8,
    pub base_bank: u8,
    pub num_banks: u8,
}

/// The host's record of which raw banks the two buffers hold.
#[derive(Debug, Clone, Copy, PartialEq, Eq, Structural)]
pub struct BankPool {
    pub buffer0: Option<Allocation>,
    pub buffer1: Option<Allocation>,
}

pub open spec fn banks_of(a: Option<Allocation>) -> nat {
    match a {
        Some(x) => x.num_banks as nat,
        None => 0,
    }
}

pub open spec fn fits(a: Option<Allocation>) -> bool {
    match a {
        Some(x) => x.num_banks > 0 && x.base_bank as int + x.num_banks as int <= NUM_RAW_BANKS as int,
        None => true,
    }
}

pub open spec fn disjoint(a: Option<Allocation>, b: Option<Allocation>) -> bool {
    match (a, b) {
        (Some(x), Some(y)) => x.base_bank as int + x.num_banks as int <= y.base_bank as int
            || y.base_bank as int + y.num_banks as int <= x.base_bank as int,
        _ => true,
    }
}

/// The transfer that allocates buffer `index`.
pub open spec fn spec_allocate_request(index: int, id: u8, base_bank: u8, num_banks: u8) -> ControlRequest {
    spec_request(
        DICT_BUFFER,
        if index == 0 { ALLOCATE_BUFFER0 } else { ALLOCATE_BUFFER1 },
        (id as int * 256 + base_bank as int) as u16,
        num_banks,
        1,
        true,
    )
}

impl BankPool {
    /// Every allocation lies inside the pool and the two do not overlap.
    pub open spec fn wf(&self) -> bool {
        fits(self.buffer0) && fits(self.buffer1) && disjoint(self.buffer0, self.buffer1)
    }

    pub open spec fn total_banks(&self) -> nat {
        banks_of(self.buffer0) + banks_of(self.buffer1)
    }

    pub open spec fn slot(&self, index: int) -> Option<Allocation> {
        if index == 0 {
            self.buffer0
        } else {
            self.buffer1
        }
    }

    /// Whether buffer `index` may take `num_banks` banks from `base_bank` on.
    pub open spec fn can_allocate(&self, index: int, base_bank: u8, num_banks: u8) -> bool {
        let a = Some(Allocation { id: 0, base_bank, num_banks });
        &&& 0 <= index < 2
        &&& self.slot(index) is None
        &&& fits(a)
        &&& disjoint(a, self.slot(1 - index))
    }

    /// A pool with nothing allocated.
    pub fn new() -> (r: BankPool)
        ensures
            r.wf(),
            r.buffer0 is None,
            r.buffer1 is None,
    {
        BankPool { buffer0: None, buffer1: None }
    }

    /// Returns every bank to the pool; the transfer that does so on the device.
    pub fn reset(&mut self) -> (r: ControlRequest)
        ensures
            final(self).wf(),
            final(self).buffer0 is None,
            final(self).buffer1 is None,
            r == spec_request(DICT_BUFFER, RAW_BUFFER_RESET, 0, 0, 1, true),
    {
        self.buffer0 = None;
        self.buffer1 = None;
        raw_buffer_reset()
    }

    /// Records an allocation of buffer `index` and gives the transfer that
    /// makes it. An index other than 0 or 1, a buffer already allocated, an
    /// empty or out-of-range run of banks, or one that overlaps the other
    /// buffer is a configuration error, and no transfer is made.
    pub fn allocate(&mut self, index: usize, id: u8, base_bank: u8, num_banks: u8) -> (r: Result<
        ControlRequest,
        DumpError,
    >)
        requires
            old(self).wf(),
        ensures
            final(self).wf(),
            old(self).can_allocate(index as int, base_bank, num_banks) ==> {
                &&& r == Ok::<ControlRequest, DumpError>(
                    spec_allocate_request(index as int, id, base_bank, num_banks),
                )
                &&& final(self).slot(index as int) == Some(Allocation { id, base_bank, num_banks })
                &&& final(self).slot(1 - index as int) == old(self).slot(1 - index as int)
            },
            !old(self).can_allocate(index as int, base_bank, num_banks) ==> {
                &&& r == Err::<ControlRequest, DumpError>(DumpError::Configuration)
                &&& *final(self) == *old(self)
            },
    {
        if index >= 2 || num_banks == 0 || base_bank as u16 + num_banks as u16 > NUM_RAW_BANKS as u16 {
            return Err(DumpError::Configuration);
        }
        let (mine, other) = if index == 0 {
            (self.buffer0, self.buffer1)
        } else {
            (self.buffer1, self.buffer0)
        };
        if mine.is_some() {
            return Err(DumpError::Configuration);
        }
        if let Some(o) = other {
            if !(base_bank as u16 + num_banks as u16 <= o.base_bank as u16 || o.base_bank as u16
                + o.num_banks as u16 <= base_bank as u16) {
                return Err(DumpError::Configuration);
            }
        }
        let a = Allocation { id, base_bank, num_banks };
        let operand: u16 = (id as u16) * 256 + base_bank as u16;
        if index == 0 {
            self.buffer0 = Some(a);
            Ok(allocate_buffer0(operand, num_banks))
        } else {
            self.buffer1 = Some(a);
            Ok(allocate_buffer1(operand, num_banks))
        }
    }
}

/// However allocations are made, a well-formed pool never holds more raw
/// banks than the firmware has.
pub proof fn lemma_pool_within_capacity(pool: BankPool)
    requires
        pool.wf(),
    ensures
        pool.total_banks() <= NUM_RAW_BANKS as nat,
{
}

/// The layouts `buffer_allocate` chooses are accepted, one buffer after the
/// other, by an empty pool, and the pool's transfers for them are the two
/// allocation transfers every dump session sends.
pub proof fn lemma_plan_fits_pool(num_buffers: u16, buff_size: u16)
    requires
        spec_buffer_plan(num_buffers, buff_size) is Some,
    ensures
        ({
            let plan = spec_buffer_plan(num_buffers, buff_size).unwrap();
            let empty = BankPool { buffer0: None, buffer1: None };
            let after0 = BankPool {
                buffer0: Some(
                    Allocation { id: plan.buff0.id, base_bank: plan.buff0.base_bank, num_banks: plan.buff0.num_banks },
                ),
                buffer1: None,
            };
            &&& empty.can_allocate(0, plan.buff0.base_bank, plan.buff0.num_banks)
            &&& after0.can_allocate(1, plan.buff1.base_bank, plan.buff1.num_banks)
            &&& spec_allocate_request(0, plan.buff0.id, plan.buff0.base_bank, plan.buff0.num_banks)
                == spec_plan_requests(plan)[0]
            &&& spec_allocate_request(1, plan.buff1.id, plan.buff1.base_bank, plan.buff1.num_banks)
                == spec_plan_requests(plan)[1]
        }),
{
}

} // verus!
