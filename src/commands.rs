//! Host command entry points. Each acts on the driver and returns the bus
//! operation to perform, if any.

use vstd::prelude::*;
use crate::adxl345::{passthrough_request, fifo_request, PASSTHROUGH_MAX, Adxl, AdxlModel, BusOp, BusOpView, Step};
use crate::time::InstantShort;

verus! {

/// Binds the driver to the reply identity `oid`.
pub fn config_adxl345(adxl: &mut Adxl, oid: u8, _spi_oid: u8)
    ensures
        final(adxl)@ == (AdxlModel { oid, ..old(adxl)@ }),
{
    adxl.configure(oid);
}

/// Sets the sampling rate: a nonzero `rest_ticks` starts a session at
/// `clock`, zero stops the current one.
pub fn query_adxl345(adxl: &mut Adxl, clock: InstantShort, _oid: u8, rest_ticks: u32) -> (r: BusOp)
    ensures
        rest_ticks != 0 ==> final(adxl)@ == old(adxl)@.start(clock, rest_ticks) && r@ == BusOpView::Idle,
        rest_ticks == 0 ==> (final(adxl)@, r@) == old(adxl)@.stop(),
{
    if rest_ticks != 0 {
        adxl.start(clock, rest_ticks);
        BusOp::Idle
    } else {
        adxl.stop()
    }
}

/// Asks for a status reply.
pub fn query_adxl345_status(adxl: &mut Adxl, _oid: u8) -> (r: BusOp)
    ensures
        final(adxl)@ == (AdxlModel { step: Step::Status, ..old(adxl)@ }),
        r@ == BusOpView::Transfer(fifo_request()),
{
    adxl.status()
}

/// Raw write to the device.
pub fn spi_send(adxl: &Adxl, _oid: u8, data: &[u8]) -> (r: BusOp)
    ensures
        r@ == BusOpView::Write(data@),
{
    adxl.send(data)
}

/// Raw full-duplex transfer of at most the first 32 bytes of `data`; the
/// bytes received come back tagged `oid`.
pub fn spi_transfer(adxl: &mut Adxl, oid: u8, data: &[u8]) -> (r: BusOp)
    ensures
        final(adxl)@ == (AdxlModel { step: Step::Passthrough { oid }, ..old(adxl)@ }),
        r@ == BusOpView::Transfer(passthrough_request(data@)),
{
    let len = if data.len() <= PASSTHROUGH_MAX {
        data.len()
    } else {
        PASSTHROUGH_MAX
    };
    let r = adxl.transfer(oid, &data[0..len]);
    assert(data@.subrange(0, len as int) =~= passthrough_request(data@));
    r
}

} // verus!
