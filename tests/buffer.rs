use inlretro::buffer::{
    allocate_buffer0, buffer_allocate, chunk_offsets, get_cur_buff_status, plan_requests,
    BankPool, BufferConfig, BufferPlan,
};
use inlretro::transport::DumpError;

#[test]
fn half_page_layout() {
    let plan = buffer_allocate(2, 128).unwrap();
    assert_eq!(plan.buff_size, 128);
    assert_eq!(plan.buff0, BufferConfig { id: 0x00, base_bank: 0, num_banks: 4, first_page: 0, reload: 1 });
    assert_eq!(plan.buff1, BufferConfig { id: 0x80, base_bank: 4, num_banks: 4, first_page: 0, reload: 1 });
}

#[test]
fn even_odd_page_layout() {
    let plan = buffer_allocate(2, 256).unwrap();
    assert_eq!(plan.buff0, BufferConfig { id: 0x00, base_bank: 0, num_banks: 8, first_page: 0, reload: 2 });
    assert_eq!(plan.buff1, BufferConfig { id: 0x00, base_bank: 8, num_banks: 8, first_page: 1, reload: 2 });
}

#[test]
fn other_layouts_are_configuration_errors() {
    assert_eq!(buffer_allocate(1, 128), Err(DumpError::Configuration));
    assert_eq!(buffer_allocate(2, 64), Err(DumpError::Configuration));
    assert_eq!(buffer_allocate(4, 128), Err(DumpError::Configuration));
    assert_eq!(buffer_allocate(0, 0), Err(DumpError::Configuration));
}

#[test]
fn layout_requests() {
    let plan = buffer_allocate(2, 128).unwrap();
    let reqs = plan_requests(&plan);
    assert_eq!(reqs.len(), 4);
    assert_eq!(reqs[0], allocate_buffer0(0x0000, 4));
    assert_eq!(reqs[1].value, 0x0481);
    assert_eq!(reqs[1].index, 0x8004);
    assert_eq!(reqs[2].value, 0x0190);
    assert_eq!(reqs[2].index, 0);
    assert_eq!(reqs[3].value, 0x0191);
    assert_eq!(reqs[3].index, 0);
}

fn assert_gap_free(plan: &BufferPlan, n: u32) {
    let offs = chunk_offsets(plan, n);
    assert_eq!(offs.len(), n as usize);
    let size = plan.buff_size as u64;
    for (k, off) in offs.iter().enumerate() {
        assert_eq!(*off, k as u64 * size, "chunk {} misplaced", k);
    }
    for w in offs.windows(2) {
        assert!(w[0] < w[1]);
        assert_eq!(w[1] - w[0], size);
    }
}

#[test]
fn interleave_half_pages_over_a_thousand_cycles() {
    let plan = buffer_allocate(2, 128).unwrap();
    assert_gap_free(&plan, 2000);
}

#[test]
fn interleave_even_odd_pages_over_a_thousand_cycles() {
    let plan = buffer_allocate(2, 256).unwrap();
    assert_gap_free(&plan, 2000);
}

#[test]
fn pool_takes_both_layouts() {
    for size in [128u16, 256] {
        let plan = buffer_allocate(2, size).unwrap();
        let mut pool = BankPool::new();
        let r0 = pool.allocate(0, plan.buff0.id, plan.buff0.base_bank, plan.buff0.num_banks);
        let r1 = pool.allocate(1, plan.buff1.id, plan.buff1.base_bank, plan.buff1.num_banks);
        let reqs = plan_requests(&plan);
        assert_eq!(r0, Ok(reqs[0]));
        assert_eq!(r1, Ok(reqs[1]));
        assert!(pool.buffer0.unwrap().num_banks + pool.buffer1.unwrap().num_banks <= 16);
    }
}

#[test]
fn pool_refuses_beyond_capacity() {
    let mut pool = BankPool::new();
    assert!(pool.allocate(0, 0, 0, 12).is_ok());
    let before = pool;
    assert_eq!(pool.allocate(1, 0, 12, 8), Err(DumpError::Configuration));
    assert_eq!(pool, before);
    assert_eq!(pool.allocate(1, 0, 12, 4).map(|r| r.index), Ok(12));
}

#[test]
fn pool_refuses_overlap_reuse_and_bad_index() {
    let mut pool = BankPool::new();
    assert!(pool.allocate(1, 0x80, 4, 4).is_ok());
    assert_eq!(pool.allocate(0, 0, 6, 4), Err(DumpError::Configuration));
    assert_eq!(pool.allocate(1, 0, 10, 2), Err(DumpError::Configuration));
    assert_eq!(pool.allocate(2, 0, 10, 2), Err(DumpError::Configuration));
    assert_eq!(pool.allocate(0, 0, 0, 0), Err(DumpError::Configuration));
    assert_eq!(pool.allocate(0, 0, 17, 1), Err(DumpError::Configuration));
    assert!(pool.allocate(0, 0, 0, 4).is_ok());
    let reset = pool.reset();
    assert_eq!(reset.value, 0x0000);
    assert_eq!(reset.request, 5);
    assert!(pool.buffer0.is_none() && pool.buffer1.is_none());
}

#[test]
fn status_request_layout() {
    let r = get_cur_buff_status();
    assert_eq!(r.request, 5);
    assert_eq!(r.value, 0x61);
    assert_eq!(r.length, 3);
}
