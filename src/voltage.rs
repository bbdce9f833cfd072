//! Battery-voltage telemetry: decoding a response and the bounded retry of a
//! zero reading.

use vstd::prelude::*;
use crate::hex::PACKET_LEN;

verus! {

/// Offset in a response of the high byte of the voltage; the low byte follows.
pub const VOLTAGE_OFFSET: usize = 12;

/// The big-endian 16-bit value at `VOLTAGE_OFFSET` of a response.
pub open spec fn spec_voltage_of(response: Seq<u8>) -> u16 {
    (response[VOLTAGE_OFFSET as int] as int * 256 + response[VOLTAGE_OFFSET + 1] as int) as u16
}

/// Reads the voltage, in millivolts, out of a response buffer.
pub fn voltage_of(response: &[u8; PACKET_LEN]) -> (r: u16)
    ensures
        r == spec_voltage_of(response@),
        r as int == response@[12] as int * 256 + response@[13] as int,
{
    let hi = response[VOLTAGE_OFFSET] as u16;
    let lo = response[VOLTAGE_OFFSET + 1] as u16;
    assert(hi * 256 + lo <= 0xffff) by (nonlinear_arith)
        requires hi <= 255, lo <= 255;
    hi * 256 + lo
}

/// What a caller of the voltage query does next.
#[derive(Debug, Clone, Copy, PartialEq, Eq, Structural)]
pub enum VoltageStep {
    /// The reading is final.
    Done(u16),
    /// Send the query again and hand in the new response.
    Retry,
    /// The device gave no usable reading: report a transport failure.
    Failed,
}

/// The one-retry policy: a zero reading is taken for a glitch once, and a
/// second zero reading fails. Returns whether a retry has been spent, and the
/// step to take.
pub open spec fn voltage_step(retried: bool, reading: u16) -> (bool, VoltageStep) {
    if reading != 0 {
        (retried, VoltageStep::Done(reading))
    } else if !retried {
        (true, VoltageStep::Retry)
    } else {
        (true, VoltageStep::Failed)
    }
}

/// One voltage query in progress: the caller sends the query packet, reads a
/// response, hands it in, and does what comes back.
pub struct VoltageQuery {
    retried: bool,
}

impl VoltageQuery {
    pub closed spec fn spec_retried(&self) -> bool {
        self.retried
    }

    /// A query that has not retried yet.
    pub fn new() -> (q: Self)
        ensures
            !q.spec_retried(),
    {
        VoltageQuery { retried: false }
    }

    /// Takes the response to the latest query and decides the next step.
    pub fn on_response(&mut self, response: &[u8; PACKET_LEN]) -> (r: VoltageStep)
        ensures
            (final(self).spec_retried(), r) == voltage_step(
                old(self).spec_retried(),
                spec_voltage_of(response@),
            ),
    {
        let reading = voltage_of(response);
        if reading != 0 {
            VoltageStep::Done(reading)
        } else if !self.retried {
            self.retried = true;
            VoltageStep::Retry
        } else {
            VoltageStep::Failed
        }
    }
}

/// The steps taken on a sequence of readings, from a query that has retried
/// or not.
pub open spec fn voltage_run(retried: bool, readings: Seq<u16>) -> Seq<VoltageStep>
    decreases readings.len(),
{
    if readings.len() == 0 {
        seq![]
    } else {
        let (next, step) = voltage_step(retried, readings[0]);
        seq![step] + voltage_run(next, readings.drop_first())
    }
}

/// A zero reading is never reported as a voltage, a fresh query retries a zero
/// reading exactly once, and a zero reading on the retry fails.
pub proof fn lemma_zero_reading_retried_once(retried: bool, reading: u16)
    ensures
        voltage_step(retried, reading).1 matches VoltageStep::Done(v) ==> v != 0 && v == reading,
        voltage_step(retried, reading).1 == VoltageStep::Retry ==> !retried,
        voltage_run(false, seq![0u16, 0u16]) == seq![VoltageStep::Retry, VoltageStep::Failed],
{
    let s = seq![0u16, 0u16];
    assert(s.drop_first().drop_first() =~= Seq::<u16>::empty());
    assert(voltage_run(true, s.drop_first().drop_first()) == Seq::<VoltageStep>::empty());
    assert(voltage_run(true, s.drop_first()) =~= seq![VoltageStep::Failed]);
    assert(voltage_run(false, s) =~= seq![VoltageStep::Retry, VoltageStep::Failed]);
}

/// Along any sequence of readings from a fresh query, at most one retry is
/// asked for.
pub proof fn lemma_at_most_one_retry(readings: Seq<u16>, i: int, j: int)
    requires
        0 <= i < j < readings.len(),
        voltage_run(false, readings)[i] == VoltageStep::Retry,
    ensures
        voltage_run(false, readings)[j] != VoltageStep::Retry,
    decreases readings.len(),
{
    lemma_run_len(false, readings);
    if readings[0] != 0 {
        lemma_at_most_one_retry(readings.drop_first(), i - 1, j - 1);
    } else {
        lemma_retried_never_retries(true, readings.drop_first(), j - 1);
    }
}

proof fn lemma_run_len(retried: bool, readings: Seq<u16>)
    ensures
        voltage_run(retried, readings).len() == readings.len(),
    decreases readings.len(),
{
    if readings.len() > 0 {
        lemma_run_len(voltage_step(retried, readings[0]).0, readings.drop_first());
    }
}

proof fn lemma_retried_never_retries(retried: bool, readings: Seq<u16>, j: int)
    requires
        retried,
        0 <= j < readings.len(),
    ensures
        voltage_run(retried, readings)[j] != VoltageStep::Retry,
    decreases readings.len(),
{
    lemma_run_len(retried, readings);
    if j > 0 {
        lemma_retried_never_retries(true, readings.drop_first(), j - 1);
    }
}

} // verus!
