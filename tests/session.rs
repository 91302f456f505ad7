use inlretro::nes::create_header;
use inlretro::nes::Mirroring;
use inlretro::nes_mappers::nrom;
use inlretro::session::{dump, dump_setup, ChunkDump, Session, Step, DEFAULT_MAX_ATTEMPTS};
use inlretro::transport::{ControlRequest, DumpError};

const STATUS: u16 = 0x61;
const PAYLOAD: u16 = 0x70;

/// A device that always has its chunk ready; payload bytes count up.
fn ready_device(counter: &mut u8, req: &ControlRequest) -> Vec<u8> {
    if req.request == 5 && req.value == STATUS {
        vec![0, 1, 0xD8]
    } else if req.request == 5 && req.value == PAYLOAD {
        let mut v = Vec::new();
        for _ in 0..req.length {
            v.push(*counter);
            *counter = counter.wrapping_add(1);
        }
        v
    } else {
        let mut v = vec![0u8; req.length as usize];
        if v.len() >= 3 {
            v[1] = (v.len() - 2) as u8;
            v[2] = 0x5A;
        }
        v
    }
}

fn run(plan: Vec<Step>) -> (Session, Vec<ControlRequest>) {
    let mut s = Session::new(plan, DEFAULT_MAX_ATTEMPTS);
    let mut counter = 0u8;
    let mut log = Vec::new();
    while let Some(req) = s.current_request() {
        log.push(req);
        let resp = ready_device(&mut counter, &req);
        s.on_response(&resp, resp.len());
    }
    (s, log)
}

#[test]
fn nrom_32kb_prg_is_one_session_of_256_drains() {
    let plan = nrom::dump_prgrom(32);
    assert_eq!(plan, vec![Step::Dump(ChunkDump { size_kb: 32, map: 0x08, mem: 0x20 })]);
    let (s, log) = run(plan);
    assert_eq!(s.outcome(), Some(Ok(())));
    let drains = log.iter().filter(|r| r.request == 5 && r.value == PAYLOAD).count();
    assert_eq!(drains, 256);
    let setups = log.iter().filter(|r| r.request == 7 && r.value == 0 && r.index == 0xD2).count();
    assert_eq!(setups, 1);
    assert_eq!(s.output().len(), 32768);
    let chr_size = 8u16;
    let header = create_header(32, chr_size, 0, Mirroring::VERT);
    assert_eq!(header[4], 2);
    assert_eq!(header[5] as u16, chr_size / 8);
}

#[test]
fn session_walks_setup_polls_drains_teardown_in_order() {
    let d = ChunkDump { size_kb: 1, map: 0x08, mem: 0x20 };
    let (s, log) = run(vec![Step::Dump(d)]);
    assert_eq!(s.outcome(), Some(Ok(())));
    let setup = dump_setup(&d);
    assert_eq!(setup.len(), 11);
    assert_eq!(&log[..11], &setup[..]);
    assert_eq!(setup[0].request, 7);
    assert_eq!(setup[0].index, 0x01);
    assert_eq!(setup[1].request, 5);
    assert_eq!(setup[6].index, 0x20DD);
    assert_eq!(setup[6].value, 0x0030);
    assert_eq!(setup[7].value, 0x0130);
    assert_eq!(setup[8].index, 0x0800);
    assert_eq!(setup[9].value, 0x0132);
    assert_eq!(setup[10].index, 0xD2);
    // 8 chunks, each one poll and one drain, then the two teardown transfers.
    assert_eq!(log.len(), 11 + 16 + 2);
    for c in 0..8 {
        assert_eq!(log[11 + 2 * c].value, STATUS);
        assert_eq!(log[12 + 2 * c].value, PAYLOAD);
        assert!(!log[12 + 2 * c].checked);
    }
    assert_eq!(log[27].request, 7);
    assert_eq!(log[27].index, 0x01);
    assert_eq!(log[28].request, 5);
    assert_eq!(log[28].value, 0x00);
    let out = s.output();
    assert_eq!(out.len(), 1024);
    for (i, b) in out.iter().enumerate() {
        assert_eq!(*b, (i % 256) as u8);
    }
}

#[test]
fn poll_timeout_after_twenty_attempts_keeps_no_partial_chunk() {
    let d = ChunkDump { size_kb: 1, map: 0x08, mem: 0x20 };
    let mut s = Session::new(vec![Step::Dump(d)], DEFAULT_MAX_ATTEMPTS);
    let mut polls = 0;
    let mut drained = 0;
    while let Some(req) = s.current_request() {
        if req.value == STATUS {
            polls += 1;
            // The first chunk is ready; the second never is.
            let status = if polls == 1 { 0xD8 } else { 0xD3 };
            s.on_response(&[0, 1, status], 3);
        } else if req.value == PAYLOAD {
            drained += 1;
            s.on_response(&[0xEE; 128], 128);
        } else {
            s.on_response(&[0], 1);
        }
    }
    assert_eq!(s.outcome(), Some(Err(DumpError::PollTimeout)));
    assert_eq!(polls, 1 + 20);
    assert_eq!(drained, 1);
    assert_eq!(s.output().len(), 128);
    assert!(s.is_finished());
    assert_eq!(s.current_request(), None);
}

#[test]
fn device_error_stops_the_session() {
    let mut s = Session::new(vec![dump(1, 0x08, 0x20), dump(1, 0x08, 0x20)], DEFAULT_MAX_ATTEMPTS);
    let first = s.current_request().unwrap();
    assert_eq!(first.request, 7);
    s.on_response(&[0], 1);
    s.on_response(&[0x05], 1);
    assert_eq!(s.outcome(), Some(Err(DumpError::Device(5))));
    assert_eq!(s.current_request(), None);
    s.on_response(&[0], 1);
    assert_eq!(s.outcome(), Some(Err(DumpError::Device(5))));
}

#[test]
fn short_drain_is_transport_error() {
    let d = ChunkDump { size_kb: 1, map: 0x00, mem: 0x21 };
    let mut s = Session::new(vec![Step::Dump(d)], DEFAULT_MAX_ATTEMPTS);
    while let Some(req) = s.current_request() {
        if req.value == STATUS {
            s.on_response(&[0, 1, 0xD8], 3);
        } else if req.value == PAYLOAD {
            s.on_response(&[1u8; 128], 100);
        } else {
            s.on_response(&[0], 1);
        }
    }
    assert_eq!(s.outcome(), Some(Err(DumpError::Transport)));
    assert_eq!(s.output().len(), 0);
}

#[test]
fn failed_transfer_is_transport_error() {
    let mut s = Session::new(vec![dump(1, 0x08, 0x20)], DEFAULT_MAX_ATTEMPTS);
    s.on_response(&[], 0);
    assert_eq!(s.outcome(), Some(Err(DumpError::Transport)));
}

#[test]
fn single_transfers_keep_their_payload() {
    let plan = vec![
        Step::Transfer(inlretro::nes::cpu_rd(0x8000)),
        Step::Transfer(inlretro::nes::cpu_wr(0x8000, 1)),
        Step::Transfer(inlretro::pinport::ctl_rd(11)),
    ];
    let mut s = Session::new(plan, 1);
    s.on_response(&[0, 1, 0x42], 3);
    s.on_response(&[0], 1);
    s.on_response(&[0, 2, 0x34, 0x12], 4);
    assert_eq!(s.outcome(), Some(Ok(())));
    assert_eq!(s.readback(), &vec![0x42, 0x34, 0x12]);
    assert!(s.output().is_empty());
}

#[test]
fn empty_plan_is_done_at_once() {
    let s = Session::new(Vec::new(), DEFAULT_MAX_ATTEMPTS);
    assert_eq!(s.outcome(), Some(Ok(())));
    assert_eq!(s.current_request(), None);
}

#[test]
fn zero_size_dump_goes_from_setup_to_teardown() {
    let (s, log) = run(vec![dump(0, 0x08, 0x20)]);
    assert_eq!(s.outcome(), Some(Ok(())));
    assert_eq!(log.len(), 13);
    assert!(s.output().is_empty());
}
