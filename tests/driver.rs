use rampon::adxl345::{Adxl, BusOp, Phase, Reply, StatusFormat, StatusReply, Step};
use rampon::commands::{config_adxl345, query_adxl345, query_adxl345_status, spi_send, spi_transfer};
use rampon::time::InstantShort;

const SAMPLE_REQ: [u8; 9] = [0xf2, 0, 0, 0, 0, 0, 0, 0, 0];
const FIFO_REQ: [u8; 2] = [0xb9, 0];

fn t(x: u32) -> InstantShort {
    InstantShort::new(x)
}

fn raw(x: u8, fifo: u8) -> [u8; 9] {
    [0x00, x, 0x00, 0x34, 0x00, 0x56, 0x00, 0x90, fifo]
}

fn running(rest: u32) -> Adxl {
    let (mut a, _) = Adxl::init();
    a.configure(7);
    a.start(t(0), rest);
    assert_eq!(a.run(t(0)), BusOp::Write(vec![45, 0x08]));
    assert_eq!(a.written(t(0), t(1)), BusOp::Idle);
    a
}

fn status_count(r: &[Reply]) -> usize {
    r.iter().filter(|x| matches!(x, Reply::Status(_))).count()
}

#[test]
fn init_is_idle_and_probe_reads_devid() {
    let (a, probe) = Adxl::init();
    assert_eq!(probe, BusOp::Write(vec![0x80, 0]));
    assert_eq!(a.phase(), Phase::Idle);
    assert_eq!(a.step(), Step::Ready);
    assert_eq!(a.sequence(), 0);
    assert_eq!(a.limit(), 0);
    assert_eq!(a.wake_time(), None);
    assert!(a.buffer().empty());
    assert_eq!(a.status_format(), StatusFormat::BulkSensor);
}

#[test]
fn scenario_query_valid_sample_waits_rest_interval() {
    let mut a = running(50);
    let d = [0x00, 0x12, 0x00, 0x34, 0x00, 0x56, 0x00, 0x90, 0x00];
    assert_eq!(a.query(&d), 50);
    assert_eq!(a.buffer().contents(), &[0x12, 0x34, 0x56, 0x00, 0x00]);
    assert_eq!(a.limit(), 0);
}

#[test]
fn scenario_query_bad_sign_extension_pushes_sentinel() {
    let mut a = running(50);
    let mut d = raw(0x12, 4);
    d[2] = 0xa0;
    // A rejected sample's FIFO depth counts as 0: the next read waits the
    // full rest interval, and no overflow is counted.
    assert_eq!(a.query(&d), 50);
    assert_eq!(a.buffer().contents(), &[0xff, 0xff, 0xff, 0xff, 0x7f]);
    assert_eq!(a.limit(), 0);
}

#[test]
fn sentinel_same_for_every_fault() {
    let mut faults = Vec::new();
    let mut d = raw(1, 0);
    d[2] = 0xa0;
    faults.push(d);
    let mut d = raw(1, 0);
    d[7] = 0x00;
    faults.push(d);
    faults.push(raw(1, 40));
    let mut d = raw(1, 0);
    d[6] = 0x80;
    faults.push(d);
    for d in faults {
        let mut a = running(50);
        assert_eq!(a.query(&d), 50);
        assert_eq!(a.buffer().contents(), &[0xff, 0xff, 0xff, 0xff, 0x7f]);
    }
}

#[test]
fn query_with_backlog_returns_zero_delay() {
    let mut a = running(50);
    assert_eq!(a.query(&raw(1, 3)), 0);
    assert_eq!(a.limit(), 0);
}

#[test]
fn near_full_fifo_counts_overflow() {
    let mut a = running(50);
    a.query(&raw(1, 30));
    assert_eq!(a.limit(), 0);
    a.query(&raw(1, 31));
    assert_eq!(a.limit(), 1);
    a.query(&raw(1, 32));
    assert_eq!(a.limit(), 2);
    a.query(&raw(1, 33));
    assert_eq!(a.limit(), 2);
}

#[test]
fn scenario_schedule_then_ticks() {
    let (mut a, _) = Adxl::init();
    a.start(t(100), 50);
    assert_eq!(a.phase(), Phase::ScheduledStart);
    assert_eq!(a.run(t(99)), BusOp::Idle);
    assert_eq!(a.run(t(100)), BusOp::Write(vec![45, 0x08]));
    assert_eq!(a.phase(), Phase::Running);
    assert_eq!(a.wake_time(), Some(t(150)));
    assert_eq!(a.written(t(100), t(101)), BusOp::Idle);
    assert_eq!(a.run(t(149)), BusOp::Idle);
    assert_eq!(a.buffer().count(), 0);
    assert_eq!(a.run(t(150)), BusOp::Transfer(SAMPLE_REQ.to_vec()));
    assert_eq!(a.transferred(t(150), t(151), &raw(0x12, 0)), BusOp::Idle);
    assert_eq!(a.buffer().count(), 5);
    assert_eq!(a.wake_time(), Some(t(200)));
    assert_eq!(a.run(t(160)), BusOp::Idle);
}

#[test]
fn backlog_rearms_immediately() {
    let mut a = running(50);
    a.run(t(60));
    assert_eq!(a.transferred(t(60), t(61), &raw(1, 2)), BusOp::Idle);
    assert_eq!(a.wake_time(), Some(t(60)));
    assert_eq!(a.run(t(60)), BusOp::Transfer(SAMPLE_REQ.to_vec()));
}

#[test]
fn start_discards_buffer_and_resets_counters() {
    let mut a = running(50);
    a.query(&raw(1, 31));
    a.report();
    a.query(&raw(1, 0));
    a.start(t(500), 20);
    assert_eq!(a.sequence(), 0);
    assert_eq!(a.limit(), 0);
    assert_eq!(a.buffer().count(), 0);
    assert_eq!(a.rest_ticks(), 20);
    assert_eq!(a.wake_time(), Some(t(500)));
}

#[test]
fn scenario_auto_flush_when_full() {
    let mut a = running(50);
    for i in 0..9 {
        a.query(&raw(i, 0));
    }
    assert_eq!(a.buffer().count(), 45);
    assert_eq!(a.sequence(), 0);
    assert!(a.take_replies().is_empty());
    a.query(&raw(9, 0));
    assert_eq!(a.buffer().count(), 0);
    assert_eq!(a.sequence(), 1);
    let r = a.take_replies();
    assert_eq!(r.len(), 1);
    match &r[0] {
        Reply::Data { oid, sequence, data } => {
            assert_eq!(*oid, 7);
            assert_eq!(*sequence, 0);
            assert_eq!(data.len(), 50);
            assert_eq!(data[45], 9);
        }
        other => panic!("unexpected reply {:?}", other),
    }
}

#[test]
fn report_advances_sequence_and_wraps() {
    let mut a = running(50);
    a.query(&raw(1, 0));
    a.report();
    assert_eq!(a.buffer().count(), 0);
    assert_eq!(a.sequence(), 1);
    for _ in 1..65535u32 {
        a.report();
    }
    assert_eq!(a.sequence(), 65535);
    a.report();
    assert_eq!(a.sequence(), 0);
    let r = a.take_replies();
    assert_eq!(r.len(), 65536);
    assert_eq!(r[0], Reply::Data { oid: 7, sequence: 0, data: vec![1, 0x34, 0x56, 0, 0] });
    assert_eq!(r[65535], Reply::Data { oid: 7, sequence: 65535, data: vec![] });
}

#[test]
fn status_reply_fields() {
    let mut a = running(50);
    a.query(&raw(1, 0));
    a.query(&raw(2, 0));
    assert_eq!(a.status(), BusOp::Transfer(FIFO_REQ.to_vec()));
    assert_eq!(a.transferred(t(0xffff_fffe), t(3), &[0x00, 0x80 | 4]), BusOp::Idle);
    assert_eq!(a.step(), Step::Ready);
    assert_eq!(a.buffer().count(), 10);
    assert_eq!(
        a.take_replies(),
        vec![Reply::Status(StatusReply {
            oid: 7,
            clock: 0xffff_fffe,
            query_ticks: 5,
            next_sequence: 0,
            buffered: 10 + 4 * 5,
            possible_overflows: 0,
        })]
    );
}

#[test]
fn stop_drains_fifo_then_reports() {
    let mut a = running(50);
    a.query(&raw(1, 0));
    assert_eq!(a.stop(), BusOp::Write(vec![45, 0]));
    assert_eq!(a.phase(), Phase::Draining);
    assert_eq!(a.run(t(1000)), BusOp::Idle);
    assert_eq!(a.written(t(10), t(12)), BusOp::Transfer(FIFO_REQ.to_vec()));
    assert_eq!(a.transferred(t(13), t(14), &[0, 2]), BusOp::Transfer(SAMPLE_REQ.to_vec()));
    assert_eq!(a.transferred(t(15), t(16), &raw(2, 1)), BusOp::Transfer(FIFO_REQ.to_vec()));
    assert_eq!(a.transferred(t(17), t(18), &[0, 1]), BusOp::Transfer(SAMPLE_REQ.to_vec()));
    assert_eq!(a.transferred(t(19), t(20), &raw(3, 0)), BusOp::Transfer(FIFO_REQ.to_vec()));
    assert_eq!(a.transferred(t(21), t(22), &[0, 0]), BusOp::Idle);
    assert_eq!(a.phase(), Phase::Idle);
    assert!(a.buffer().empty());
    assert_eq!(a.wake_time(), None);
    let r = a.take_replies();
    assert_eq!(status_count(&r), 1);
    assert_eq!(
        r,
        vec![
            Reply::Data {
                oid: 7,
                sequence: 0,
                data: vec![1, 0x34, 0x56, 0, 0, 2, 0x34, 0x56, 0, 0, 3, 0x34, 0x56, 0, 0],
            },
            Reply::Status(StatusReply {
                oid: 7,
                clock: 10,
                query_ticks: 2,
                next_sequence: 1,
                buffered: 0,
                possible_overflows: 0,
            }),
        ]
    );
}

#[test]
fn stop_with_empty_buffer_sends_status_only() {
    let mut a = running(50);
    a.stop();
    assert_eq!(a.written(t(10), t(11)), BusOp::Transfer(FIFO_REQ.to_vec()));
    assert_eq!(a.transferred(t(12), t(13), &[0, 0x80]), BusOp::Idle);
    let r = a.take_replies();
    assert_eq!(r.len(), 1);
    assert_eq!(status_count(&r), 1);
}

#[test]
fn stop_ends_on_invalid_depth() {
    let mut a = running(50);
    a.stop();
    a.written(t(10), t(11));
    assert_eq!(a.transferred(t(12), t(13), &[0, 40]), BusOp::Idle);
    assert_eq!(a.phase(), Phase::Idle);
    let r = a.take_replies();
    assert_eq!(
        r,
        vec![Reply::Status(StatusReply {
            oid: 7,
            clock: 10,
            query_ticks: 1,
            next_sequence: 0,
            buffered: 200,
            possible_overflows: 0,
        })]
    );
}

#[test]
fn stop_drain_is_bounded() {
    let mut a = running(50);
    let mut op = a.stop();
    op = match op {
        BusOp::Write(_) => a.written(t(1), t(2)),
        other => other,
    };
    let mut status_reads = 0;
    let mut ops = 1;
    loop {
        match op {
            BusOp::Transfer(req) if req == FIFO_REQ.to_vec() => {
                status_reads += 1;
                op = a.transferred(t(3), t(4), &[0, 5]);
            }
            BusOp::Transfer(_) => {
                op = a.transferred(t(3), t(4), &raw(1, 5));
            }
            BusOp::Idle => break,
            BusOp::Write(_) => panic!("unexpected write"),
        }
        ops += 1;
        assert!(ops <= 67);
    }
    assert_eq!(status_reads, 33);
    assert_eq!(a.phase(), Phase::Idle);
    assert!(a.buffer().empty());
    let r = a.take_replies();
    assert_eq!(status_count(&r), 1);
    assert!(matches!(r.last(), Some(Reply::Status(s)) if s.buffered == 25));
    // 33 samples: three full flushes of ten and a final report of three.
    assert_eq!(r.len(), 5);
}

#[test]
fn passthrough_commands() {
    let (mut a, _) = Adxl::init();
    assert_eq!(spi_send(&a, 0, &[1, 2, 3]), BusOp::Write(vec![1, 2, 3]));
    let long: Vec<u8> = (0..40).collect();
    assert_eq!(spi_transfer(&mut a, 9, &long), BusOp::Transfer((0..32).collect()));
    assert_eq!(a.transferred(t(0), t(1), &[5; 32]), BusOp::Idle);
    assert_eq!(a.take_replies(), vec![Reply::Transfer { oid: 9, response: vec![5; 32] }]);
    assert_eq!(spi_transfer(&mut a, 9, &[0x80, 0]), BusOp::Transfer(vec![0x80, 0]));
}

#[test]
fn driver_transfer_passes_data_unchanged() {
    let (mut a, _) = Adxl::init();
    let long: Vec<u8> = (0..40).collect();
    assert_eq!(a.transfer(2, &long), BusOp::Transfer(long.clone()));
    assert_eq!(a.step(), Step::Passthrough { oid: 2 });
}

#[test]
fn run_respects_half_range_across_wrap() {
    let (mut a, _) = Adxl::init();
    a.start(t(0xffff_ffe0), 0x10);
    // Exactly 2^31 ticks after the start deadline is not "at or after" it.
    assert_eq!(a.run(t(0x7fff_ffe0)), BusOp::Idle);
    assert_eq!(a.phase(), Phase::ScheduledStart);
    assert_eq!(a.run(t(0xffff_ffe0)), BusOp::Write(vec![45, 0x08]));
    assert_eq!(a.wake_time(), Some(t(0xffff_fff0)));
    a.written(t(0), t(0));
    assert_eq!(a.run(t(0x7fff_fff0)), BusOp::Idle);
    assert_eq!(a.run(t(0xffff_ffef)), BusOp::Idle);
    assert_eq!(a.run(t(0x0000_0005)), BusOp::Transfer(SAMPLE_REQ.to_vec()));
}

#[test]
fn rate_command_starts_and_stops() {
    let (mut a, _) = Adxl::init();
    config_adxl345(&mut a, 3, 0);
    assert_eq!(a.oid(), 3);
    assert_eq!(query_adxl345(&mut a, t(42), 3, 100), BusOp::Idle);
    assert_eq!(a.phase(), Phase::ScheduledStart);
    assert_eq!(a.rest_ticks(), 100);
    assert_eq!(query_adxl345(&mut a, t(43), 3, 0), BusOp::Write(vec![45, 0]));
    assert_eq!(a.phase(), Phase::Draining);
    assert_eq!(query_adxl345_status(&mut a, 3), BusOp::Transfer(FIFO_REQ.to_vec()));
}

#[test]
fn device_specific_status_counts_buffer_only() {
    let mut a = running(50);
    a.set_status_format(StatusFormat::DeviceSpecific);
    a.query(&raw(1, 0));
    a.status();
    a.transferred(t(100), t(104), &[0x00, 6]);
    assert_eq!(
        a.take_replies(),
        vec![Reply::Status(StatusReply {
            oid: 7,
            clock: 100,
            query_ticks: 4,
            next_sequence: 0,
            buffered: 5,
            possible_overflows: 0,
        })]
    );
}
