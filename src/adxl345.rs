//! The accelerometer driver: register protocol, sampling scheduler, drain on
//! stop, and the replies it produces.
//!
//! The driver never touches the bus itself. Each entry point returns the bus
//! operation to perform next; the caller performs it and reports completion
//! through `written` or `transferred`, which may ask for a further operation.
//! Replies accumulate in an outbox taken with `take_replies`.

use vstd::prelude::*;
use crate::buffer::SampleBuffer;
use crate::sample::{fifo_depth, fifo_of, is_valid, sample_of, FIFO_CAPACITY, PACKED_LEN, RAW_LEN};
use crate::time::{InstantShort, tick_after, tick_diff, tick_range};

verus! {

/// Capacity of the driver's sample buffer, in bytes.
pub const BUFFER_SIZE: usize = 50;

/// Most FIFO-status reads performed while draining on stop.
pub const DRAIN_LIMIT: u8 = 33;

/// A FIFO depth at or above this counts as a possible overflow.
pub const NEAR_FULL: u8 = 31;

/// Address flag: read rather than write.
pub const AF_READ: u8 = 0x80;

/// Address flag: auto-increment over several registers.
pub const AF_MULTI: u8 = 0x40;

/// POWER_CTL value that enables measurement.
pub const POWER_MEASURE: u8 = 0x08;

/// The device registers the driver addresses.
#[derive(Clone, Copy, Debug, PartialEq, Eq, Structural)]
pub enum Register {
    DevId,
    PowerCtl,
    DataX0,
    FifoStatus,
}

impl Register {
    pub open spec fn spec_addr(self) -> u8 {
        match self {
            Register::DevId => 0,
            Register::PowerCtl => 45,
            Register::DataX0 => 50,
            Register::FifoStatus => 57,
        }
    }

    /// The register's bus address.
    #[verifier::when_used_as_spec(spec_addr)]
    pub fn addr(self) -> (r: u8)
        ensures
            r == self.spec_addr(),
    {
        match self {
            Register::DevId => 0,
            Register::PowerCtl => 45,
            Register::DataX0 => 50,
            Register::FifoStatus => 57,
        }
    }
}

/// Burst read of the data registers through the FIFO trailer.
pub open spec fn sample_request() -> Seq<u8> {
    seq![Register::DataX0.spec_addr() | AF_MULTI | AF_READ, 0u8, 0, 0, 0, 0, 0, 0, 0]
}

/// Read of the FIFO status register.
pub open spec fn fifo_request() -> Seq<u8> {
    seq![Register::FifoStatus.spec_addr() | AF_READ, 0u8]
}

/// Read of the device id, used to prime the bus.
pub open spec fn probe_request() -> Seq<u8> {
    seq![Register::DevId.spec_addr() | AF_READ, 0u8]
}

/// Write of POWER_CTL with the given value.
pub open spec fn power_request(on: bool) -> Seq<u8> {
    seq![Register::PowerCtl.spec_addr(), if on { POWER_MEASURE } else { 0u8 }]
}

/// Longest diagnostic transfer passed through to the bus.
pub const PASSTHROUGH_MAX: usize = 32;

/// The part of a diagnostic transfer command that goes on the bus.
pub open spec fn passthrough_request(data: Seq<u8>) -> Seq<u8> {
    if data.len() <= PASSTHROUGH_MAX {
        data
    } else {
        data.take(PASSTHROUGH_MAX as int)
    }
}

/// Increment modulo 2^16.
pub open spec fn next16(x: u16) -> u16 {
    if x == u16::MAX {
        0
    } else {
        (x + 1) as u16
    }
}

/// A bus operation for the caller to perform.
#[derive(Debug, PartialEq, Eq)]
pub enum BusOp {
    /// Nothing to do.
    Idle,
    /// Write these bytes with chip select asserted; then call `written`.
    Write(Vec<u8>),
    /// Exchange these bytes full-duplex; then call `transferred` with the
    /// bytes received, as many as were sent.
    Transfer(Vec<u8>),
}

pub enum BusOpView {
    Idle,
    Write(Seq<u8>),
    Transfer(Seq<u8>),
}

impl View for BusOp {
    type V = BusOpView;

    open spec fn view(&self) -> BusOpView {
        match self {
            BusOp::Idle => BusOpView::Idle,
            BusOp::Write(v) => BusOpView::Write(v@),
            BusOp::Transfer(v) => BusOpView::Transfer(v@),
        }
    }
}

/// Periodic status: timing of the bracketed bus read and the backlog.
#[derive(Clone, Copy, Debug, PartialEq, Eq, Structural)]
pub struct StatusReply {
    pub oid: u8,
    /// Tick count before the bus transaction.
    pub clock: u32,
    /// Ticks the transaction took, modulo 2^32.
    pub query_ticks: u32,
    pub next_sequence: u16,
    /// The backlog, composed as the driver's `StatusFormat` says.
    pub buffered: u32,
    pub possible_overflows: u16,
}

/// A reply for the host.
#[derive(Debug, PartialEq, Eq)]
pub enum Reply {
    /// A batch of packed samples.
    Data { oid: u8, sequence: u16, data: Vec<u8> },
    Status(StatusReply),
    /// The bytes received by a diagnostic transfer.
    Transfer { oid: u8, response: Vec<u8> },
}

pub enum ReplyView {
    Data { oid: u8, sequence: u16, data: Seq<u8> },
    Status(StatusReply),
    Transfer { oid: u8, response: Seq<u8> },
}

impl View for Reply {
    type V = ReplyView;

    open spec fn view(&self) -> ReplyView {
        match self {
            Reply::Data { oid, sequence, data } => ReplyView::Data {
                oid: *oid,
                sequence: *sequence,
                data: data@,
            },
            Reply::Status(s) => ReplyView::Status(*s),
            Reply::Transfer { oid, response } => ReplyView::Transfer {
                oid: *oid,
                response: response@,
            },
        }
    }
}

/// How the status reply's backlog field is composed.
#[derive(Clone, Copy, Debug, PartialEq, Eq, Structural)]
pub enum StatusFormat {
    /// Buffered bytes plus the bytes still queued in the device FIFO.
    BulkSensor,
    /// Buffered bytes only.
    DeviceSpecific,
}

/// Lifecycle of the sampling session.
#[derive(Clone, Copy, Debug, PartialEq, Eq, Structural)]
pub enum Phase {
    Idle,
    ScheduledStart,
    Running,
    Draining,
}

/// The bus operation the driver is waiting on.
#[derive(Clone, Copy, Debug, PartialEq, Eq, Structural)]
pub enum Step {
    Ready,
    PowerOn,
    /// A periodic sample read, issued at `clock`.
    Sample { clock: InstantShort },
    Status,
    PowerDown,
    /// A FIFO-status read while draining; `done` reads came before it.
    DrainStatus { before: InstantShort, after: InstantShort, done: u8 },
    /// A sample read while draining, after a read that reported `fifo`.
    DrainSample { before: InstantShort, after: InstantShort, done: u8, fifo: u8 },
    Passthrough { oid: u8 },
}

impl Step {
    /// A response of `n` bytes is what this step's transfer yields.
    pub open spec fn accepts(self, n: nat) -> bool {
        match self {
            Step::Sample { .. } | Step::DrainSample { .. } => n == RAW_LEN,
            Step::Status | Step::DrainStatus { .. } => n == 2,
            _ => true,
        }
    }
}

/// The driver's state as a mathematical value.
pub struct AdxlModel {
    pub oid: u8,
    pub rest_ticks: u32,
    pub sequence: u16,
    pub limit: u16,
    pub format: StatusFormat,
    pub wake: Option<InstantShort>,
    pub phase: Phase,
    pub step: Step,
    pub buffer: Seq<u8>,
    pub replies: Seq<ReplyView>,
}

impl AdxlModel {
    /// The buffer has room for one more sample.
    pub open spec fn wf(self) -> bool {
        self.buffer.len() + PACKED_LEN <= BUFFER_SIZE
    }

    /// Emit the buffered samples as a data reply, clear, and advance the
    /// sequence number.
    pub open spec fn report(self) -> AdxlModel {
        AdxlModel {
            buffer: Seq::empty(),
            sequence: next16(self.sequence),
            replies: self.replies.push(
                ReplyView::Data { oid: self.oid, sequence: self.sequence, data: self.buffer },
            ),
            ..self
        }
    }

    pub open spec fn status_reply(self, before: InstantShort, after: InstantShort, fifo: u8) -> StatusReply {
        StatusReply {
            oid: self.oid,
            clock: before.ticks,
            query_ticks: tick_diff(after.ticks, before.ticks) as u32,
            next_sequence: self.sequence,
            buffered: match self.format {
                StatusFormat::BulkSensor => (self.buffer.len() + fifo * PACKED_LEN) as u32,
                StatusFormat::DeviceSpecific => self.buffer.len() as u32,
            },
            possible_overflows: self.limit,
        }
    }

    pub open spec fn send_status(self, before: InstantShort, after: InstantShort, fifo: u8) -> AdxlModel {
        AdxlModel {
            replies: self.replies.push(ReplyView::Status(self.status_reply(before, after, fifo))),
            ..self
        }
    }

    /// One sample read answered by `d`: the new state and the delay before
    /// the next read.
    pub open spec fn query(self, d: Seq<u8>) -> (AdxlModel, u32) {
        let fifo = fifo_of(d);
        let pushed = AdxlModel { buffer: self.buffer + sample_of(d), ..self };
        let flushed = if pushed.buffer.len() + PACKED_LEN > BUFFER_SIZE {
            pushed.report()
        } else {
            pushed
        };
        let counted = if fifo >= NEAR_FULL {
            AdxlModel { limit: next16(self.limit), ..flushed }
        } else {
            flushed
        };
        (counted, if fifo > 0 { 0 } else { self.rest_ticks })
    }

    /// End of a drain: flush what is left, report status, go idle.
    pub open spec fn finish_drain(self, before: InstantShort, after: InstantShort, fifo: u8) -> AdxlModel {
        let flushed = if self.buffer.len() > 0 { self.report() } else { self };
        AdxlModel { phase: Phase::Idle, step: Step::Ready, ..flushed.send_status(before, after, fifo) }
    }

    pub open spec fn start(self, clock: InstantShort, rest_ticks: u32) -> AdxlModel {
        AdxlModel {
            limit: 0,
            sequence: 0,
            buffer: Seq::empty(),
            rest_ticks,
            wake: Some(clock),
            phase: Phase::ScheduledStart,
            step: Step::Ready,
            ..self
        }
    }

    pub open spec fn stop(self) -> (AdxlModel, BusOpView) {
        (
            AdxlModel { wake: None, phase: Phase::Draining, step: Step::PowerDown, ..self },
            BusOpView::Write(power_request(false)),
        )
    }

    /// The wake deadline is set and `now` is at or after it.
    pub open spec fn due(self, now: InstantShort) -> bool {
        &&& self.wake is Some
        &&& (now.ticks == self.wake->0.ticks || tick_after(now.ticks, self.wake->0.ticks))
        &&& self.step == Step::Ready
    }

    pub open spec fn run(self, now: InstantShort) -> (AdxlModel, BusOpView) {
        if self.phase == Phase::ScheduledStart && self.due(now) {
            (
                AdxlModel {
                    phase: Phase::Running,
                    wake: Some(InstantShort { ticks: ((now.ticks + self.rest_ticks) % tick_range()) as u32 }),
                    step: Step::PowerOn,
                    ..self
                },
                BusOpView::Write(power_request(true)),
            )
        } else if self.phase == Phase::Running && self.due(now) {
            (AdxlModel { step: Step::Sample { clock: now }, ..self }, BusOpView::Transfer(sample_request()))
        } else {
            (self, BusOpView::Idle)
        }
    }

    pub open spec fn written(self, before: InstantShort, after: InstantShort) -> (AdxlModel, BusOpView) {
        match self.step {
            Step::PowerOn => (AdxlModel { step: Step::Ready, ..self }, BusOpView::Idle),
            Step::PowerDown => (
                AdxlModel { step: Step::DrainStatus { before, after, done: 0 }, ..self },
                BusOpView::Transfer(fifo_request()),
            ),
            _ => (self, BusOpView::Idle),
        }
    }

    pub open spec fn transferred(self, before: InstantShort, after: InstantShort, resp: Seq<u8>) -> (AdxlModel, BusOpView) {
        match self.step {
            Step::Sample { clock } => {
                let (m, delay) = self.query(resp);
                (
                    AdxlModel {
                        wake: Some(InstantShort { ticks: ((clock.ticks + delay) % tick_range()) as u32 }),
                        step: Step::Ready,
                        ..m
                    },
                    BusOpView::Idle,
                )
            },
            Step::Status => (
                AdxlModel { step: Step::Ready, ..self.send_status(before, after, resp[1] & 0x7f) },
                BusOpView::Idle,
            ),
            Step::DrainStatus { before: b, after: a, done } => {
                let depth = resp[1] & 0x7f;
                if depth == 0 || depth > FIFO_CAPACITY {
                    (self.finish_drain(b, a, depth), BusOpView::Idle)
                } else {
                    (
                        AdxlModel { step: Step::DrainSample { before: b, after: a, done, fifo: depth }, ..self },
                        BusOpView::Transfer(sample_request()),
                    )
                }
            },
            Step::DrainSample { before: b, after: a, done, fifo } => {
                let m = self.query(resp).0;
                if done + 1 < DRAIN_LIMIT {
                    (
                        AdxlModel { step: Step::DrainStatus { before: b, after: a, done: (done + 1) as u8 }, ..m },
                        BusOpView::Transfer(fifo_request()),
                    )
                } else {
                    (m.finish_drain(b, a, fifo), BusOpView::Idle)
                }
            },
            Step::Passthrough { oid } => (
                AdxlModel {
                    step: Step::Ready,
                    replies: self.replies.push(ReplyView::Transfer { oid, response: resp }),
                    ..self
                },
                BusOpView::Idle,
            ),
            _ => (self, BusOpView::Idle),
        }
    }
}

/// The driver's state. Created once, bound to one device.
pub struct Adxl {
    oid: u8,
    wake_time: Option<InstantShort>,
    rest_ticks: u32,
    sequence: u16,
    limit: u16,
    format: StatusFormat,
    buffer: SampleBuffer<BUFFER_SIZE>,
    phase: Phase,
    step: Step,
    replies: Vec<Reply>,
}

impl View for Adxl {
    type V = AdxlModel;

    closed spec fn view(&self) -> AdxlModel {
        AdxlModel {
            oid: self.oid,
            rest_ticks: self.rest_ticks,
            sequence: self.sequence,
            limit: self.limit,
            format: self.format,
            wake: self.wake_time,
            phase: self.phase,
            step: self.step,
            buffer: self.buffer@,
            replies: self.replies@.map_values(|r: Reply| r@),
        }
    }
}

fn next16_exec(x: u16) -> (r: u16)
    ensures
        r == next16(x),
{
    x.wrapping_add(1)
}

impl Adxl {
    /// The buffer always has room for one more sample: a full buffer is
    /// flushed before the next read.
    #[verifier::type_invariant]
    spec fn inv(&self) -> bool {
        self@.wf()
    }

    /// A new driver: idle, nothing buffered, no replies pending; with the
    /// read of the device id that primes the bus.
    pub fn init() -> (r: (Self, BusOp))
        ensures
            r.0@ == (AdxlModel {
                oid: 0,
                rest_ticks: 0,
                sequence: 0,
                limit: 0,
                format: StatusFormat::BulkSensor,
                wake: None,
                phase: Phase::Idle,
                step: Step::Ready,
                buffer: Seq::empty(),
                replies: Seq::empty(),
            }),
            r.1@ == BusOpView::Write(probe_request()),
    {
        let a = Adxl {
            oid: 0,
            wake_time: None,
            rest_ticks: 0,
            sequence: 0,
            limit: 0,
            format: StatusFormat::BulkSensor,
            buffer: SampleBuffer::init(),
            phase: Phase::Idle,
            step: Step::Ready,
            replies: Vec::new(),
        };
        assert(a@.replies =~= Seq::empty());
        let probe = BusOp::Write(vec![Register::DevId.addr() | AF_READ, 0]);
        assert(probe@ == BusOpView::Write(probe_request()));
        (a, probe)
    }

    fn push_reply(&mut self, reply: Reply)
        ensures
            final(self)@ == (AdxlModel { replies: old(self)@.replies.push(reply@), ..old(self)@ }),
    {
        proof {
            use_type_invariant(&*self);
        }
        let mut out: Vec<Reply> = Vec::new();
        std::mem::swap(&mut out, &mut self.replies);
        out.push(reply);
        std::mem::swap(&mut out, &mut self.replies);
        assert(self@.replies =~= old(self)@.replies.push(reply@));
    }

    /// Emits the buffered samples as a data reply, clears the buffer and
    /// advances the sequence number modulo 2^16.
    pub fn report(&mut self)
        ensures
            final(self)@ == old(self)@.report(),
    {
        proof {
            use_type_invariant(&*self);
        }
        let data = vstd::slice::slice_to_vec(self.buffer.contents());
        self.buffer.clear();
        self.emit_data(data);
        assert(self@.buffer =~= Seq::<u8>::empty());
    }

    /// Sends `data` as a data reply with the current sequence number, then
    /// advances it.
    fn emit_data(&mut self, data: Vec<u8>)
        ensures
            final(self)@ == (AdxlModel {
                sequence: next16(old(self)@.sequence),
                replies: old(self)@.replies.push(
                    ReplyView::Data { oid: old(self)@.oid, sequence: old(self)@.sequence, data: data@ },
                ),
                ..old(self)@
            }),
    {
        proof {
            use_type_invariant(&*self);
        }
        let reply = Reply::Data { oid: self.oid, sequence: self.sequence, data };
        self.push_reply(reply);
        self.sequence = next16_exec(self.sequence);
    }

    /// Emits a status reply for a bus read bracketed by `before` and
    /// `after`, with `fifo` samples still queued in the device.
    pub fn send_status(&mut self, before: InstantShort, after: InstantShort, fifo: u8)
        ensures
            final(self)@ == old(self)@.send_status(before, after, fifo),
    {
        proof {
            use_type_invariant(&*self);
        }
        let status = StatusReply {
            oid: self.oid,
            clock: before.ticks,
            query_ticks: after.since(&before),
            next_sequence: self.sequence,
            buffered: match self.format {
                StatusFormat::BulkSensor => self.buffer.count() as u32 + (fifo as u32) * (
                PACKED_LEN as u32),
                StatusFormat::DeviceSpecific => self.buffer.count() as u32,
            },
            possible_overflows: self.limit,
        };
        self.push_reply(Reply::Status(status));
    }

    /// Records one sample read answered by `msgi`: pushes its packed form, or
    /// the sentinel if it fails validation; flushes when full; counts a
    /// near-full FIFO. Returns the delay before the next read: 0 while the
    /// device FIFO holds more, else the rest interval.
    pub fn query(&mut self, msgi: &[u8]) -> (r: u32)
        requires
            msgi@.len() == RAW_LEN,
        ensures
            (final(self)@, r) == old(self)@.query(msgi@),
            final(self)@.wf(),
    {
        proof {
            use_type_invariant(&*self);
        }
        let fifo = fifo_depth(msgi);
        // Fill a detached buffer so the driver's own one always has room.
        let mut buf = SampleBuffer::init();
        std::mem::swap(&mut buf, &mut self.buffer);
        if is_valid(msgi) {
            buf.push(msgi);
        } else {
            let placeholder: [u8; 7] = [0xff; 7];
            buf.push(&placeholder);
        }
        if buf.full() {
            let data = vstd::slice::slice_to_vec(buf.contents());
            buf.clear();
            std::mem::swap(&mut buf, &mut self.buffer);
            self.emit_data(data);
        } else {
            std::mem::swap(&mut buf, &mut self.buffer);
        }
        if fifo >= NEAR_FULL {
            self.limit = next16_exec(self.limit);
        }
        if fifo > 0 {
            0
        } else {
            self.rest_ticks
        }
    }
}

impl Adxl {
    /// Sets the identity that replies carry.
    pub fn configure(&mut self, oid: u8)
        ensures
            final(self)@ == (AdxlModel { oid, ..old(self)@ }),
    {
        proof {
            use_type_invariant(&*self);
        }
        self.oid = oid;
    }

    /// Selects how status replies compose their backlog field.
    pub fn set_status_format(&mut self, format: StatusFormat)
        ensures
            final(self)@ == (AdxlModel { format, ..old(self)@ }),
    {
        proof {
            use_type_invariant(&*self);
        }
        self.format = format;
    }

    /// Arms a session starting at `clock` and sampling every `rest_ticks`:
    /// resets the sequence number and overflow counter and discards any
    /// buffered samples.
    pub fn start(&mut self, clock: InstantShort, rest_ticks: u32)
        ensures
            final(self)@ == old(self)@.start(clock, rest_ticks),
    {
        proof {
            use_type_invariant(&*self);
        }
        self.limit = 0;
        self.sequence = 0;
        self.buffer.clear();
        self.rest_ticks = rest_ticks;
        self.wake_time = Some(clock);
        self.phase = Phase::ScheduledStart;
        self.step = Step::Ready;
    }

    /// Ends the session: powers measurement down, then drains the device
    /// FIFO through `written` and `transferred`, and finally flushes and
    /// reports status.
    pub fn stop(&mut self) -> (r: BusOp)
        ensures
            (final(self)@, r@) == old(self)@.stop(),
    {
        proof {
            use_type_invariant(&*self);
        }
        self.wake_time = None;
        self.phase = Phase::Draining;
        self.step = Step::PowerDown;
        let r = BusOp::Write(vec![Register::PowerCtl.addr(), 0]);
        assert(r@ == BusOpView::Write(power_request(false)));
        r
    }

    /// Reads the FIFO depth; the status reply follows in `transferred`.
    pub fn status(&mut self) -> (r: BusOp)
        ensures
            final(self)@ == (AdxlModel { step: Step::Status, ..old(self)@ }),
            r@ == BusOpView::Transfer(fifo_request()),
    {
        proof {
            use_type_invariant(&*self);
        }
        self.step = Step::Status;
        let r = BusOp::Transfer(vec![Register::FifoStatus.addr() | AF_READ, 0]);
        assert(r@ == BusOpView::Transfer(fifo_request()));
        r
    }

    /// Writes `data` to the device as given.
    pub fn send(&self, data: &[u8]) -> (r: BusOp)
        ensures
            r@ == BusOpView::Write(data@),
    {
        BusOp::Write(vstd::slice::slice_to_vec(data))
    }

    /// Exchanges `data` with the device; the bytes received come back as a
    /// reply tagged `oid`.
    pub fn transfer(&mut self, oid: u8, data: &[u8]) -> (r: BusOp)
        ensures
            final(self)@ == (AdxlModel { step: Step::Passthrough { oid }, ..old(self)@ }),
            r@ == BusOpView::Transfer(data@),
    {
        proof {
            use_type_invariant(&*self);
        }
        self.step = Step::Passthrough { oid };
        BusOp::Transfer(vstd::slice::slice_to_vec(data))
    }

    fn sample_op() -> (r: BusOp)
        ensures
            r@ == BusOpView::Transfer(sample_request()),
    {
        let r = BusOp::Transfer(
            vec![Register::DataX0.addr() | AF_MULTI | AF_READ, 0, 0, 0, 0, 0, 0, 0, 0],
        );
        assert(r@ == BusOpView::Transfer(sample_request()));
        r
    }

    fn fifo_op() -> (r: BusOp)
        ensures
            r@ == BusOpView::Transfer(fifo_request()),
    {
        let r = BusOp::Transfer(vec![Register::FifoStatus.addr() | AF_READ, 0]);
        assert(r@ == BusOpView::Transfer(fifo_request()));
        r
    }

    /// Called once per control-loop iteration. A scheduled start whose
    /// deadline has come powers measurement on and arms the first read
    /// `rest_ticks` later; a running session whose deadline has come reads a
    /// sample. Otherwise nothing happens.
    pub fn run(&mut self, clock: InstantShort) -> (r: BusOp)
        ensures
            (final(self)@, r@) == old(self)@.run(clock),
    {
        proof {
            use_type_invariant(&*self);
        }
        let due = match self.wake_time {
            Some(w) => clock.reached(&w) && self.step == Step::Ready,
            None => false,
        };
        if self.phase == Phase::ScheduledStart && due {
            self.phase = Phase::Running;
            self.wake_time = Some(clock.offset(self.rest_ticks));
            self.step = Step::PowerOn;
            let r = BusOp::Write(vec![Register::PowerCtl.addr(), POWER_MEASURE]);
            assert(r@ == BusOpView::Write(power_request(true)));
            r
        } else if self.phase == Phase::Running && due {
            self.step = Step::Sample { clock };
            Self::sample_op()
        } else {
            BusOp::Idle
        }
    }

    /// Completion of a write, bracketed by `before` and `after`.
    pub fn written(&mut self, before: InstantShort, after: InstantShort) -> (r: BusOp)
        ensures
            (final(self)@, r@) == old(self)@.written(before, after),
    {
        proof {
            use_type_invariant(&*self);
        }
        match self.step {
            Step::PowerOn => {
                self.step = Step::Ready;
                BusOp::Idle
            },
            Step::PowerDown => {
                self.step = Step::DrainStatus { before, after, done: 0 };
                Self::fifo_op()
            },
            _ => BusOp::Idle,
        }
    }

    fn finish_drain(&mut self, before: InstantShort, after: InstantShort, fifo: u8)
        ensures
            final(self)@ == old(self)@.finish_drain(before, after, fifo),
            final(self)@.wf(),
    {
        proof {
            use_type_invariant(&*self);
        }
        if !self.buffer.empty() {
            self.report();
        }
        self.send_status(before, after, fifo);
        self.phase = Phase::Idle;
        self.step = Step::Ready;
    }

    /// Completion of a transfer bracketed by `before` and `after`, with the
    /// bytes received.
    pub fn transferred(&mut self, before: InstantShort, after: InstantShort, resp: &[u8]) -> (r: BusOp)
        requires
            old(self)@.step.accepts(resp@.len()),
        ensures
            (final(self)@, r@) == old(self)@.transferred(before, after, resp@),
            final(self)@.wf(),
    {
        proof {
            use_type_invariant(&*self);
        }
        match self.step {
            Step::Sample { clock } => {
                let delay = self.query(resp);
                self.wake_time = Some(clock.offset(delay));
                self.step = Step::Ready;
                BusOp::Idle
            },
            Step::Status => {
                self.send_status(before, after, resp[1] & 0x7f);
                self.step = Step::Ready;
                BusOp::Idle
            },
            Step::DrainStatus { before: b, after: a, done } => {
                let depth = resp[1] & 0x7f;
                if depth == 0 || depth > FIFO_CAPACITY {
                    self.finish_drain(b, a, depth);
                    BusOp::Idle
                } else {
                    self.step = Step::DrainSample { before: b, after: a, done, fifo: depth };
                    Self::sample_op()
                }
            },
            Step::DrainSample { before: b, after: a, done, fifo } => {
                self.query(resp);
                if done < DRAIN_LIMIT - 1 {
                    self.step = Step::DrainStatus { before: b, after: a, done: done + 1 };
                    Self::fifo_op()
                } else {
                    self.finish_drain(b, a, fifo);
                    BusOp::Idle
                }
            },
            Step::Passthrough { oid } => {
                self.push_reply(Reply::Transfer { oid, response: vstd::slice::slice_to_vec(resp) });
                self.step = Step::Ready;
                BusOp::Idle
            },
            _ => BusOp::Idle,
        }
    }

    /// Hands out the replies produced so far, leaving none.
    pub fn take_replies(&mut self) -> (r: Vec<Reply>)
        ensures
            r@.map_values(|x: Reply| x@) == old(self)@.replies,
            final(self)@ == (AdxlModel { replies: Seq::empty(), ..old(self)@ }),
    {
        proof {
            use_type_invariant(&*self);
        }
        let mut out: Vec<Reply> = Vec::new();
        std::mem::swap(&mut out, &mut self.replies);
        assert(self@.replies =~= Seq::empty());
        out
    }
}

impl Adxl {
    pub fn oid(&self) -> (r: u8)
        ensures
            r == self@.oid,
    {
        self.oid
    }

    pub fn rest_ticks(&self) -> (r: u32)
        ensures
            r == self@.rest_ticks,
    {
        self.rest_ticks
    }

    /// The sequence number the next data reply will carry.
    pub fn sequence(&self) -> (r: u16)
        ensures
            r == self@.sequence,
    {
        self.sequence
    }

    /// The possible-overflow counter.
    pub fn limit(&self) -> (r: u16)
        ensures
            r == self@.limit,
    {
        self.limit
    }

    /// When the next scheduled action is due, if any.
    pub fn wake_time(&self) -> (r: Option<InstantShort>)
        ensures
            r == self@.wake,
    {
        self.wake_time
    }

    pub fn phase(&self) -> (r: Phase)
        ensures
            r == self@.phase,
    {
        self.phase
    }

    pub fn status_format(&self) -> (r: StatusFormat)
        ensures
            r == self@.format,
    {
        self.format
    }

    pub fn step(&self) -> (r: Step)
        ensures
            r == self@.step,
    {
        self.step
    }

    /// The samples buffered and not yet reported.
    pub fn buffer(&self) -> (r: &SampleBuffer<BUFFER_SIZE>)
        ensures
            r@ == self@.buffer,
    {
        &self.buffer
    }
}

/// The completion of a bus operation, as the caller reports it.
pub enum Completion {
    Written { before: InstantShort, after: InstantShort },
    Transferred { before: InstantShort, after: InstantShort, resp: Seq<u8> },
}

impl AdxlModel {
    pub open spec fn complete(self, c: Completion) -> (AdxlModel, BusOpView) {
        match c {
            Completion::Written { before, after } => self.written(before, after),
            Completion::Transferred { before, after, resp } => self.transferred(before, after, resp),
        }
    }

    /// A stop is in progress and waiting on a bus operation.
    pub open spec fn draining(self) -> bool {
        &&& self.phase == Phase::Draining
        &&& match self.step {
            Step::PowerDown => true,
            Step::DrainStatus { done, .. } => done < DRAIN_LIMIT,
            Step::DrainSample { done, .. } => done < DRAIN_LIMIT,
            _ => false,
        }
    }

    /// Upper bound on the bus operations left before a drain ends.
    pub open spec fn drain_measure(self) -> nat {
        match self.step {
            Step::PowerDown => (2 * DRAIN_LIMIT + 1) as nat,
            Step::DrainStatus { done, .. } => (2 * (DRAIN_LIMIT - done)) as nat,
            Step::DrainSample { done, .. } => (2 * (DRAIN_LIMIT - done) - 1) as nat,
            _ => 0,
        }
    }

    /// `c` is the kind of completion the pending operation produces.
    pub open spec fn fits(self, c: Completion) -> bool {
        match c {
            Completion::Written { .. } => self.step is PowerDown,
            Completion::Transferred { resp, .. } => !(self.step is PowerDown) && self.step.accepts(resp.len()),
        }
    }
}

/// No status reply among `r` from index `from` on.
pub open spec fn no_status_from(r: Seq<ReplyView>, from: int) -> bool {
    forall|i: int| from <= i < r.len() ==> !(#[trigger] r[i] is Status)
}

/// After a report the buffer is empty and the sequence number has advanced
/// by exactly one modulo 2^16; the reply carries the old number and the
/// buffered bytes.
pub proof fn lemma_report_sequence(s: AdxlModel)
    ensures
        s.report().buffer.len() == 0,
        s.report().sequence as int == (s.sequence + 1) % 0x10000,
        s.report().replies == s.replies.push(
            ReplyView::Data { oid: s.oid, sequence: s.sequence, data: s.buffer },
        ),
{
}

/// Stopping starts a drain and emits nothing yet.
pub proof fn lemma_stop_begins_drain(s: AdxlModel)
    ensures
        s.stop().0.draining(),
        s.stop().0.replies == s.replies,
        s.stop().0.buffer == s.buffer,
{
}

/// Each step of a drain either continues it, strictly closer to its end and
/// without a status reply, or ends it: idle, buffer empty, and exactly one
/// status reply, the last one emitted. So a stop always ends within
/// `2 * DRAIN_LIMIT + 1` bus operations with one status reply.
pub proof fn lemma_drain_step(s: AdxlModel, c: Completion)
    requires
        s.wf(),
        s.draining(),
        s.fits(c),
    ensures
        ({
            let (t, op) = s.complete(c);
            &&& t.wf()
            &&& t.replies.len() >= s.replies.len()
            &&& t.replies.take(s.replies.len() as int) == s.replies
            &&& if t.draining() {
                &&& op is Transfer
                &&& t.drain_measure() < s.drain_measure()
                &&& no_status_from(t.replies, s.replies.len() as int)
            } else {
                &&& op is Idle
                &&& t.phase == Phase::Idle
                &&& t.buffer.len() == 0
                &&& t.replies.last() is Status
                &&& no_status_from(t.replies.drop_last(), s.replies.len() as int)
            }
        }),
{
    let (t, op) = s.complete(c);
    assert(t.replies.take(s.replies.len() as int) =~= s.replies);
}

} // verus!
