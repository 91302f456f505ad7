//! A dump session: the state machine that walks a plan of transfers and
//! buffered dumps, one transfer at a time. The caller performs each transfer
//! the session asks for and hands the response back.
use vstd::prelude::*;

use crate::buffer::{
    buff_payload, buffer_allocate, get_cur_buff_status, plan_requests, raw_buffer_reset,
    set_map_n_mapvar, set_mem_n_part, spec_buffer_plan, spec_plan_requests, CHUNK_SIZE,
};
use crate::opcodes::{
    BUFF_PAYLOAD, DICT_BUFFER, DICT_OPER, GET_CUR_BUFF_STATUS, OPERATION_RESET, OPERATION_STARTDUMP,
    PART_DEFAULT, RAW_BUFFER_RESET, SET_MAP_N_MAPVAR, SET_MEM_N_PART, SET_OPERATION, STATUS_DUMPED,
};
use crate::operation::set_operation;
use crate::transport::{check_response, spec_check, spec_request, ControlRequest, DumpError};

verus! {

/// Polls allowed per chunk before the session gives up.
pub const DEFAULT_MAX_ATTEMPTS: u32 = 20;

/// Transfers that prepare a buffered dump.
pub const SETUP_LEN: usize = 11;

/// Transfers that end a buffered dump.
pub const TEARDOWN_LEN: usize = 2;

/// One buffered dump: `size_kb` kilobytes of memory kind `mem`, read through
/// mapper window `map`.
#[derive(Debug, Clone, Copy, PartialEq, Eq, Structural)]
pub struct ChunkDump {
    pub size_kb: u16,
    pub map: u8,
    pub mem: u8,
}

/// One item of a plan.
#[derive(Debug, Clone, Copy, PartialEq, Eq, Structural)]
pub enum Step {
    /// A single transfer; the payload of its response, if any, is kept.
    Transfer(ControlRequest),
    /// A buffered dump; the drained chunks are kept.
    Dump(ChunkDump),
}

/// Where a session stands within the current step.
#[derive(Debug, Clone, Copy, PartialEq, Eq, Structural)]
pub enum Phase {
    Single,
    Setup(usize),
    Poll,
    Drain,
    Teardown(usize),
}

/// The buffered dump `size_kb` kilobytes long.
pub fn dump(size_kb: u16, map: u8, mem: u8) -> (r: Step)
    ensures
        r == Step::Dump(ChunkDump { size_kb, map, mem }),
{
    Step::Dump(ChunkDump { size_kb, map, mem })
}

/// Chunks a dump drains.
pub open spec fn chunk_count(d: ChunkDump) -> nat {
    d.size_kb as nat * 8
}

pub open spec fn spec_set_operation(operand: u16) -> ControlRequest {
    spec_request(DICT_OPER, SET_OPERATION, operand, 0, 1, true)
}

/// The transfers before the first poll: reset, unallocate, lay out the two
/// buffers, point both at the memory and mapper, start the dump.
pub open spec fn spec_setup(d: ChunkDump) -> Seq<ControlRequest> {
    let mem_operand = (d.mem as int * 256 + PART_DEFAULT as int) as u16;
    let map_operand = (d.map as int * 256) as u16;
    seq![
        spec_set_operation(OPERATION_RESET),
        spec_request(DICT_BUFFER, RAW_BUFFER_RESET, 0, 0, 1, true),
    ] + spec_plan_requests(spec_buffer_plan(2, 128).unwrap()) + seq![
        spec_request(DICT_BUFFER, SET_MEM_N_PART, mem_operand, 0, 1, true),
        spec_request(DICT_BUFFER, SET_MEM_N_PART, mem_operand, 1, 1, true),
        spec_request(DICT_BUFFER, SET_MAP_N_MAPVAR, map_operand, 0, 1, true),
        spec_request(DICT_BUFFER, SET_MAP_N_MAPVAR, map_operand, 1, 1, true),
        spec_set_operation(OPERATION_STARTDUMP),
    ]
}

/// The transfers after the last chunk: reset, unallocate.
pub open spec fn spec_teardown() -> Seq<ControlRequest> {
    seq![
        spec_set_operation(OPERATION_RESET),
        spec_request(DICT_BUFFER, RAW_BUFFER_RESET, 0, 0, 1, true),
    ]
}

pub open spec fn spec_poll() -> ControlRequest {
    spec_request(DICT_BUFFER, GET_CUR_BUFF_STATUS, 0, 0, 3, true)
}

pub open spec fn spec_drain() -> ControlRequest {
    spec_request(DICT_BUFFER, BUFF_PAYLOAD, 0, 0, CHUNK_SIZE, false)
}

/// The setup transfers of `d`.
pub fn dump_setup(d: &ChunkDump) -> (r: Vec<ControlRequest>)
    ensures
        r@ == spec_setup(*d),
{
    let mut r: Vec<ControlRequest> = Vec::new();
    r.push(set_operation(OPERATION_RESET));
    r.push(raw_buffer_reset());
    let plan = match buffer_allocate(2, CHUNK_SIZE) {
        Ok(p) => p,
        Err(_) => {
            return r;
        },
    };
    let mut layout = plan_requests(&plan);
    r.append(&mut layout);
    let mem_operand: u16 = (d.mem as u16) * 256 + PART_DEFAULT as u16;
    let map_operand: u16 = (d.map as u16) * 256;
    r.push(set_mem_n_part(mem_operand, 0));
    r.push(set_mem_n_part(mem_operand, 1));
    r.push(set_map_n_mapvar(map_operand, 0));
    r.push(set_map_n_mapvar(map_operand, 1));
    r.push(set_operation(OPERATION_STARTDUMP));
    assert(r@ =~= spec_setup(*d));
    r
}

/// The bytes of `src` from `from` up to `to`.
pub fn copy_bytes(src: &[u8], from: usize, to: usize) -> (r: Vec<u8>)
    requires
        from <= to <= src@.len(),
    ensures
        r@ == src@.subrange(from as int, to as int),
{
    let mut r: Vec<u8> = Vec::new();
    let mut j: usize = from;
    while j < to
        invariant
            from <= j <= to,
            to <= src@.len(),
            r@ == src@.subrange(from as int, j as int),
        decreases to - j,
    {
        r.push(src[j]);
        j = j + 1;
        assert(r@ =~= src@.subrange(from as int, j as int));
    }
    r
}

/// What a session knows, as a mathematical value.
pub struct SessionModel {
    /// Index of the current step in the plan.
    pub step: nat,
    pub phase: Phase,
    /// Chunks drained so far in the current dump.
    pub chunk: nat,
    /// Polls made so far for the current chunk.
    pub attempts: nat,
    /// Every drained chunk, in order.
    pub output: Seq<u8>,
    /// The payload of every single transfer, in order.
    pub readback: Seq<u8>,
    /// `None` while running; the result once finished.
    pub outcome: Option<Result<(), DumpError>>,
}

/// The state on entering step `k` of `plan`: the first transfer of that
/// step, or the end of the plan.
pub open spec fn spec_enter(plan: Seq<Step>, k: nat, output: Seq<u8>, readback: Seq<u8>) -> SessionModel {
    SessionModel {
        step: k,
        phase: if k < plan.len() && plan[k as int] is Dump {
            Phase::Setup(0)
        } else {
            Phase::Single
        },
        chunk: 0,
        attempts: 0,
        output,
        readback,
        outcome: if k < plan.len() {
            None
        } else {
            Some(Ok(()))
        },
    }
}

/// The transfer a session in state `s` asks for, if it is still running.
pub open spec fn spec_current(plan: Seq<Step>, s: SessionModel) -> Option<ControlRequest> {
    if s.outcome is Some || s.step >= plan.len() {
        None
    } else {
        match plan[s.step as int] {
            Step::Transfer(req) => Some(req),
            Step::Dump(d) => match s.phase {
                Phase::Setup(i) => Some(spec_setup(d)[i as int]),
                Phase::Poll => Some(spec_poll()),
                Phase::Drain => Some(spec_drain()),
                Phase::Teardown(i) => Some(spec_teardown()[i as int]),
                Phase::Single => None,
            },
        }
    }
}

/// The payload of a single transfer's response: what follows the status and
/// length bytes.
pub open spec fn spec_payload(req: ControlRequest, resp: Seq<u8>) -> Seq<u8> {
    if req.length >= 3 {
        resp.subrange(2, req.length as int)
    } else {
        Seq::empty()
    }
}

/// The state after the response `resp`, of which `received` bytes arrived, to
/// the transfer the session asked for. A failed check ends the session with
/// its error. A poll that reports the dumped state moves on to draining; one
/// that does not counts an attempt, and the last allowed attempt ends the
/// session with `PollTimeout`, with no part of the chunk kept. A drain keeps
/// the whole chunk.
pub open spec fn spec_advance(
    plan: Seq<Step>,
    max_attempts: nat,
    s: SessionModel,
    resp: Seq<u8>,
    received: nat,
) -> SessionModel {
    match spec_current(plan, s) {
        None => s,
        Some(req) => match spec_check(req, resp, received) {
            Err(e) => SessionModel { outcome: Some(Err(e)), ..s },
            Ok(_) => match plan[s.step as int] {
                Step::Transfer(_) => spec_enter(
                    plan,
                    s.step + 1,
                    s.output,
                    s.readback + spec_payload(req, resp),
                ),
                Step::Dump(d) => match s.phase {
                    Phase::Setup(i) => if i + 1 < SETUP_LEN {
                        SessionModel { phase: Phase::Setup((i + 1) as usize), ..s }
                    } else if chunk_count(d) > 0 {
                        SessionModel { phase: Phase::Poll, chunk: 0, attempts: 0, ..s }
                    } else {
                        SessionModel { phase: Phase::Teardown(0), ..s }
                    },
                    Phase::Poll => if resp[2] == STATUS_DUMPED {
                        SessionModel { phase: Phase::Drain, attempts: 0, ..s }
                    } else if s.attempts + 1 >= max_attempts {
                        SessionModel { outcome: Some(Err(DumpError::PollTimeout)), ..s }
                    } else {
                        SessionModel { attempts: s.attempts + 1, ..s }
                    },
                    Phase::Drain => {
                        let out = s.output + resp.subrange(0, CHUNK_SIZE as int);
                        if s.chunk + 1 >= chunk_count(d) {
                            SessionModel { phase: Phase::Teardown(0), chunk: s.chunk + 1, output: out, ..s }
                        } else {
                            SessionModel { phase: Phase::Poll, chunk: s.chunk + 1, attempts: 0, output: out, ..s }
                        }
                    },
                    Phase::Teardown(i) => if i + 1 < TEARDOWN_LEN {
                        SessionModel { phase: Phase::Teardown((i + 1) as usize), ..s }
                    } else {
                        spec_enter(plan, s.step + 1, s.output, s.readback)
                    },
                    Phase::Single => s,
                },
            },
        },
    }
}

/// The state after the responses `events`, each a response and the count of
/// its bytes that arrived, one after the other.
pub open spec fn spec_run(
    plan: Seq<Step>,
    max_attempts: nat,
    s: SessionModel,
    events: Seq<(Seq<u8>, nat)>,
) -> SessionModel
    decreases events.len(),
{
    if events.len() == 0 {
        s
    } else {
        spec_run(plan, max_attempts, spec_advance(plan, max_attempts, s, events[0].0, events[0].1), events.drop_first())
    }
}

/// Whether `e` is a complete, successful status response reporting a state
/// other than dumped.
pub open spec fn not_dumped_status(e: (Seq<u8>, nat)) -> bool {
    &&& e.1 == 3
    &&& e.0.len() == 3
    &&& e.0[0] == 0
    &&& e.0[2] != STATUS_DUMPED
}

proof fn lemma_finished_stays(plan: Seq<Step>, max_attempts: nat, s: SessionModel, events: Seq<(Seq<u8>, nat)>)
    requires
        s.outcome is Some,
    ensures
        spec_run(plan, max_attempts, s, events) == s,
    decreases events.len(),
{
    if events.len() > 0 {
        lemma_finished_stays(plan, max_attempts, s, events.drop_first());
    }
}

proof fn lemma_polls_exhaust(plan: Seq<Step>, max_attempts: nat, s: SessionModel, events: Seq<(Seq<u8>, nat)>)
    requires
        s.outcome is None,
        s.step < plan.len(),
        plan[s.step as int] is Dump,
        s.phase == Phase::Poll,
        events.len() >= 1,
        s.attempts + events.len() == max_attempts,
        forall|i: int| 0 <= i < events.len() ==> not_dumped_status(#[trigger] events[i]),
    ensures
        spec_run(plan, max_attempts, s, events).outcome == Some(Err::<(), DumpError>(DumpError::PollTimeout)),
        spec_run(plan, max_attempts, s, events).output == s.output,
    decreases events.len(),
{
    let e = events[0];
    assert(not_dumped_status(e));
    let s1 = spec_advance(plan, max_attempts, s, e.0, e.1);
    let rest = events.drop_first();
    assert forall|i: int| 0 <= i < rest.len() implies not_dumped_status(#[trigger] rest[i]) by {
        assert(rest[i] == events[i + 1]);
    }
    if s.attempts + 1 >= max_attempts {
        assert(s1.outcome == Some(Err::<(), DumpError>(DumpError::PollTimeout)));
        lemma_finished_stays(plan, max_attempts, s1, rest);
    } else {
        assert(s1.attempts == s.attempts + 1);
        lemma_polls_exhaust(plan, max_attempts, s1, rest);
    }
}

/// A chunk whose every poll, up to the attempt budget, is answered with a
/// state other than dumped ends the session with `PollTimeout`, and nothing
/// of that chunk is kept.
pub proof fn lemma_poll_timeout(plan: Seq<Step>, max_attempts: nat, s: SessionModel, events: Seq<(Seq<u8>, nat)>)
    requires
        max_attempts > 0,
        s.outcome is None,
        s.step < plan.len(),
        plan[s.step as int] is Dump,
        s.phase == Phase::Poll,
        s.attempts == 0,
        events.len() == max_attempts,
        forall|i: int| 0 <= i < events.len() ==> not_dumped_status(#[trigger] events[i]),
    ensures
        spec_run(plan, max_attempts, s, events).outcome == Some(Err::<(), DumpError>(DumpError::PollTimeout)),
        spec_run(plan, max_attempts, s, events).output == s.output,
{
    lemma_polls_exhaust(plan, max_attempts, s, events);
}

/// A running or finished walk of a plan.
pub struct Session {
    plan: Vec<Step>,
    max_attempts: u32,
    step: usize,
    phase: Phase,
    chunk: u32,
    attempts: u32,
    output: Vec<u8>,
    readback: Vec<u8>,
    outcome: Option<Result<(), DumpError>>,
}

impl View for Session {
    type V = SessionModel;

    closed spec fn view(&self) -> SessionModel {
        SessionModel {
            step: self.step as nat,
            phase: self.phase,
            chunk: self.chunk as nat,
            attempts: self.attempts as nat,
            output: self.output@,
            readback: self.readback@,
            outcome: self.outcome,
        }
    }
}

impl Session {
    pub closed spec fn spec_plan(&self) -> Seq<Step> {
        self.plan@
    }

    pub closed spec fn spec_max_attempts(&self) -> nat {
        self.max_attempts as nat
    }

    /// The phase fits the current step, counters stay below their bounds, and
    /// a session past its last step has finished.
    pub closed spec fn wf(&self) -> bool {
        &&& self.step <= self.plan@.len()
        &&& self.step == self.plan@.len() ==> self.outcome is Some
        &&& self.max_attempts > 0
        &&& self.attempts < self.max_attempts
        &&& self.step < self.plan@.len() ==> match self.plan@[self.step as int] {
            Step::Transfer(_) => self.phase is Single,
            Step::Dump(d) => match self.phase {
                Phase::Single => false,
                Phase::Setup(i) => i < SETUP_LEN,
                Phase::Poll => self.chunk < chunk_count(d),
                Phase::Drain => self.chunk < chunk_count(d),
                Phase::Teardown(i) => i < TEARDOWN_LEN,
            },
        }
    }

    /// A session at the start of `plan`, allowing `max_attempts` polls per
    /// chunk.
    pub fn new(plan: Vec<Step>, max_attempts: u32) -> (r: Session)
        requires
            max_attempts > 0,
        ensures
            r.wf(),
            r.spec_plan() == plan@,
            r.spec_max_attempts() == max_attempts,
            r@ == spec_enter(plan@, 0, Seq::empty(), Seq::empty()),
    {
        let first_is_dump = plan.len() > 0 && match plan[0] {
            Step::Dump(_) => true,
            Step::Transfer(_) => false,
        };
        let outcome = if plan.len() > 0 {
            None
        } else {
            Some(Ok(()))
        };
        Session {
            plan,
            max_attempts,
            step: 0,
            phase: if first_is_dump {
                Phase::Setup(0)
            } else {
                Phase::Single
            },
            chunk: 0,
            attempts: 0,
            output: Vec::new(),
            readback: Vec::new(),
            outcome,
        }
    }

    /// The transfer to perform next, or `None` once the session has finished.
    pub fn current_request(&self) -> (r: Option<ControlRequest>)
        requires
            self.wf(),
        ensures
            r == spec_current(self.spec_plan(), self@),
    {
        if self.outcome.is_some() || self.step >= self.plan.len() {
            return None;
        }
        match self.plan[self.step] {
            Step::Transfer(req) => Some(req),
            Step::Dump(d) => match self.phase {
                Phase::Setup(i) => {
                    let setup = dump_setup(&d);
                    Some(setup[i])
                },
                Phase::Poll => Some(get_cur_buff_status()),
                Phase::Drain => Some(buff_payload(CHUNK_SIZE)),
                Phase::Teardown(i) => {
                    if i == 0 {
                        Some(set_operation(OPERATION_RESET))
                    } else {
                        Some(raw_buffer_reset())
                    }
                },
                Phase::Single => None,
            },
        }
    }

    fn enter(&mut self, k: usize)
        requires
            k <= old(self).plan@.len(),
        ensures
            final(self).plan == old(self).plan,
            final(self).max_attempts == old(self).max_attempts,
            final(self)@ == spec_enter(old(self).plan@, k as nat, old(self).output@, old(self).readback@),
    {
        self.step = k;
        self.chunk = 0;
        self.attempts = 0;
        if k < self.plan.len() {
            self.phase = match self.plan[k] {
                Step::Dump(_) => Phase::Setup(0),
                Step::Transfer(_) => Phase::Single,
            };
            self.outcome = None;
        } else {
            self.phase = Phase::Single;
            self.outcome = Some(Ok(()));
        }
    }

    /// Hands the session the response to the transfer it asked for: `resp`
    /// holds the bytes, of which `received` arrived (0 when the transfer
    /// itself failed). Does nothing once the session has finished.
    pub fn on_response(&mut self, resp: &[u8], received: usize)
        requires
            old(self).wf(),
        ensures
            final(self).wf(),
            final(self).spec_plan() == old(self).spec_plan(),
            final(self).spec_max_attempts() == old(self).spec_max_attempts(),
            final(self)@ == spec_advance(
                old(self).spec_plan(),
                old(self).spec_max_attempts(),
                old(self)@,
                resp@,
                received as nat,
            ),
    {
        let req = match self.current_request() {
            None => {
                return;
            },
            Some(req) => req,
        };
        let plan_len = self.plan.len();
        assert(self.step < plan_len);
        match check_response(&req, resp, received) {
            Err(e) => {
                self.outcome = Some(Err(e));
                return;
            },
            Ok(_) => {},
        }
        match self.plan[self.step] {
            Step::Transfer(_) => {
                if req.length >= 3 {
                    let mut payload = copy_bytes(resp, 2, req.length as usize);
                    self.readback.append(&mut payload);
                }
                let next = self.step + 1;
                self.enter(next);
            },
            Step::Dump(d) => match self.phase {
                Phase::Setup(i) => {
                    if i + 1 < SETUP_LEN {
                        self.phase = Phase::Setup(i + 1);
                    } else if d.size_kb > 0 {
                        self.phase = Phase::Poll;
                        self.chunk = 0;
                        self.attempts = 0;
                    } else {
                        self.phase = Phase::Teardown(0);
                    }
                },
                Phase::Poll => {
                    if resp[2] == STATUS_DUMPED {
                        self.phase = Phase::Drain;
                        self.attempts = 0;
                    } else if self.attempts + 1 >= self.max_attempts {
                        self.outcome = Some(Err(DumpError::PollTimeout));
                    } else {
                        self.attempts = self.attempts + 1;
                    }
                },
                Phase::Drain => {
                    let mut chunk = copy_bytes(resp, 0, CHUNK_SIZE as usize);
                    self.output.append(&mut chunk);
                    let total: u32 = d.size_kb as u32 * 8;
                    if self.chunk + 1 >= total {
                        self.phase = Phase::Teardown(0);
                        self.chunk = self.chunk + 1;
                    } else {
                        self.phase = Phase::Poll;
                        self.chunk = self.chunk + 1;
                        self.attempts = 0;
                    }
                },
                Phase::Teardown(i) => {
                    if i + 1 < TEARDOWN_LEN {
                        self.phase = Phase::Teardown(i + 1);
                    } else {
                        let next = self.step + 1;
                        self.enter(next);
                    }
                },
                Phase::Single => {},
            },
        }
    }

    /// `None` while running; the result once finished.
    pub fn outcome(&self) -> (r: Option<Result<(), DumpError>>)
        ensures
            r == self@.outcome,
    {
        self.outcome
    }

    /// Whether the session has finished, well or not.
    pub fn is_finished(&self) -> (r: bool)
        ensures
            r == (self@.outcome is Some),
    {
        self.outcome.is_some()
    }

    /// Every drained chunk so far, in order.
    pub fn output(&self) -> (r: &Vec<u8>)
        ensures
            r@ == self@.output,
    {
        &self.output
    }

    /// The payload of every single transfer so far, in order.
    pub fn readback(&self) -> (r: &Vec<u8>)
        ensures
            r@ == self@.readback,
    {
        &self.readback
    }
}

} // verus!
