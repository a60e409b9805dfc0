//! What holds of the driver whatever the hardware answers.

use vstd::prelude::*;
use crate::bus::{Action, Event};
use crate::decode::{spec_capture_done, spec_connected, spec_fifo_length};
use crate::driver::{
    capture_script, chipid_script, connected_script, drain_script, init_script, length_script,
    poll_script, register_read, register_write, resolution_script, sensor_read, sensor_write,
    table_script,
};
use crate::exchange::{payload, refusal, Operation, Progress, Report};
use crate::tables::RegisterTables;
use crate::types::{Error, Resolution};

verus! {

/// An answer that completes its action and carries exactly one byte.
pub open spec fn one_byte(event: Event) -> bool {
    event matches Event::Completed(bytes) && bytes@.len() == 1
}

/// An answer that completes its action and carries no bytes.
pub open spec fn no_bytes(event: Event) -> bool {
    event matches Event::Completed(bytes) && bytes@.len() == 0
}

/// An answer changes neither the operation nor its actions, never takes a
/// step back, and completes at most one action.
pub proof fn lemma_step_keeps_script(p: Progress, event: Event)
    ensures
        p.step(event).operation == p.operation,
        p.step(event).script == p.script,
        p.done <= p.step(event).done <= p.done + 1,
        p.failure is Some ==> p.step(event) == p,
{
}

/// An operation that has failed stays as it is, whatever answers follow: it
/// asks for no further action and completes none.
pub proof fn lemma_failure_is_final(p: Progress, events: Seq<Event>)
    requires
        p.failure is Some,
    ensures
        p.run(events) == p,
        p.run(events).pending() is None,
        p.run(events).outcome() == Some(Err::<Report, Error>(p.failure->Some_0)),
    decreases events.len(),
{
    if events.len() > 0 {
        lemma_failure_is_final(p, events.drop_first());
    }
}

/// A finished operation stays as it is, whatever answers follow.
pub proof fn lemma_finished_is_final(p: Progress, events: Seq<Event>)
    requires
        p.pending() is None,
    ensures
        p.run(events) == p,
    decreases events.len(),
{
    if events.len() > 0 {
        lemma_finished_is_final(p, events.drop_first());
    }
}

/// The first transport failure ends the operation with the error of the bus
/// that the failed action used. Whatever answers follow, the count of
/// completed actions stays where it was and nothing more is asked for.
pub proof fn lemma_first_failure_aborts(p: Progress, later: Seq<Event>)
    requires
        p.pending() is Some,
    ensures
        p.step(Event::Failed).run(later).outcome() == Some(
            Err::<Report, Error>(p.pending()->Some_0.spec_failure()),
        ),
        p.step(Event::Failed).run(later).pending() is None,
        p.step(Event::Failed).run(later).done == p.done,
{
    lemma_failure_is_final(p.step(Event::Failed), later);
}

/// Answering with `first` and then with `rest` is answering with both in a
/// row.
pub proof fn lemma_run_split(p: Progress, first: Seq<Event>, rest: Seq<Event>)
    ensures
        p.run(first + rest) == p.run(first).run(rest),
    decreases first.len(),
{
    if first.len() == 0 {
        assert(first + rest =~= rest);
    } else {
        assert((first + rest).drop_first() =~= first.drop_first() + rest);
        lemma_run_split(p.step(first[0]), first.drop_first(), rest);
    }
}

/// Each of `events` completes the action it answers and carries as many
/// bytes as that action reads, the first answering the pending action of
/// `p`, the next the action after it, and so on.
pub open spec fn all_fit(p: Progress, events: Seq<Event>) -> bool {
    forall|i: int|
        0 <= i < events.len() ==> p.done + i < p.script.len() && (#[trigger] refusal(
            p.script[p.done + i],
            events[i],
        )) is None
}

/// Answers that fit carry the operation forward by one action each, without
/// a failure.
pub proof fn lemma_fitting_run_advances(p: Progress, events: Seq<Event>)
    requires
        p.failure is None,
        all_fit(p, events),
    ensures
        p.run(events).failure is None,
        p.run(events).done == p.done + events.len(),
        p.run(events).script == p.script,
        p.run(events).operation == p.operation,
    decreases events.len(),
{
    if events.len() > 0 {
        let q = p.step(events[0]);
        let rest = events.drop_first();
        assert(refusal(p.script[p.done + 0int], events[0]) is None);
        assert forall|i: int| 0 <= i < rest.len() implies q.done + i < q.script.len() && (
        #[trigger] refusal(q.script[q.done + i], rest[i])) is None by {
            assert(rest[i] == events[i + 1]);
            assert(refusal(p.script[p.done + (i + 1)], events[i + 1]) is None);
        }
        lemma_fitting_run_advances(q, rest);
    }
}

/// Success is owed when the hardware plays along: an operation whose every
/// action gets a fitting answer ends without a failure, with the result
/// decoded from the bytes read, and asks for nothing more.
pub proof fn lemma_fitting_run_completes(p: Progress, events: Seq<Event>)
    requires
        p.failure is None,
        all_fit(p, events),
        p.done + events.len() == p.script.len(),
    ensures
        p.run(events).pending() is None,
        p.run(events).outcome() is Some,
        p.run(events).outcome()->Some_0 == crate::exchange::conclude(
            p.operation,
            p.run(events).received,
        ),
{
    lemma_fitting_run_advances(p, events);
}

/// No partial success and no retry: when the answers `before` fit and the
/// next answer is a transport failure, the operation ends with the error of
/// the bus of the action that failed, exactly `before.len()` further actions
/// have completed, and whatever is answered `later` changes nothing.
pub proof fn lemma_failure_stops_operation(p: Progress, before: Seq<Event>, later: Seq<Event>)
    requires
        p.failure is None,
        all_fit(p, before),
        p.done + before.len() < p.script.len(),
    ensures
        ({
            let end = p.run(before + seq![Event::Failed] + later);
            let failed = p.script[p.done + before.len() as int];
            &&& end.outcome() == Some(Err::<Report, Error>(failed.spec_failure()))
            &&& end.pending() is None
            &&& end.done == p.done + before.len()
        }),
{
    let q = p.run(before);
    lemma_fitting_run_advances(p, before);
    lemma_run_split(p, before + seq![Event::Failed], later);
    lemma_run_split(p, before, seq![Event::Failed]);
    let one = seq![Event::Failed];
    assert(one.drop_first() =~= Seq::<Event>::empty());
    assert(q.run(one) == q.step(Event::Failed).run(one.drop_first()));
    assert(q.run(one) == q.step(Event::Failed));
    lemma_first_failure_aborts(q, later);
}

/// A running operation asks for its actions in the order of its script: the
/// pending action is the one at the count of completed actions, and an
/// answer that fits it moves the count on by one and appends its bytes.
pub proof fn lemma_fitting_answer_advances(p: Progress, event: Event)
    requires
        p.pending() is Some,
        refusal(p.pending()->Some_0, event) is None,
    ensures
        p.pending() == Some(p.script[p.done as int]),
        p.step(event).done == p.done + 1,
        p.step(event).received == p.received + payload(event),
        p.step(event).failure is None,
{
}

/// Initialisation opens with the reset pulse on the register bus, goes on
/// to the sensor bus, and sends one write for every pair of the bootstrap,
/// colour-space and format tables and of the table of the resolution, in
/// that order, with bank 1 selected and the mode register cleared before the
/// last table.
pub proof fn lemma_init_script_shape(tables: RegisterTables, resolution: Resolution)
    ensures
        ({
            let script = init_script(tables, resolution);
            let boot = 8 + tables.jpeg_init@.len() as int;
            let fixed = boot + tables.yuv422@.len() + tables.jpeg@.len();
            let size = resolution_script(tables, resolution);
            &&& script.len() == fixed + 2 + size.len()
            &&& script[0] == (Action::RegisterWrite { addr: 0x87, data: 0x80 })
            &&& script[1] == (Action::Delay { ms: 100 })
            &&& script[2] == (Action::RegisterWrite { addr: 0x87, data: 0x00 })
            &&& script[3] == (Action::Delay { ms: 100 })
            &&& script[4] == sensor_write(0xFF, 0x01)
            &&& script[5] == (Action::Delay { ms: 100 })
            &&& script[6] == sensor_write(0x12, 0x80)
            &&& script[7] == (Action::Delay { ms: 100 })
            &&& script.subrange(8, boot) == table_script(tables.jpeg_init@)
            &&& script[fixed] == sensor_write(0xFF, 0x01)
            &&& script[fixed + 1] == sensor_write(0x15, 0x00)
            &&& script.subrange(fixed + 2, script.len() as int) == size
        }),
{
    assert(0x07u8 | 0x80 == 0x87) by (bit_vector);
    let script = init_script(tables, resolution);
    let boot = 8 + tables.jpeg_init@.len() as int;
    let fixed = boot + tables.yuv422@.len() + tables.jpeg@.len();
    assert(script.subrange(8, boot) =~= table_script(tables.jpeg_init@));
    assert(script.subrange(fixed + 2, script.len() as int) =~= resolution_script(
        tables,
        resolution,
    ));
}

/// Initialisation reads nothing: when every action is answered as
/// completed without bytes, it ends in success after as many answers as the
/// script has actions.
pub proof fn lemma_init_succeeds(
    tables: RegisterTables,
    resolution: Resolution,
    events: Seq<Event>,
)
    requires
        events.len() == init_script(tables, resolution).len(),
        forall|i: int| 0 <= i < events.len() ==> no_bytes(#[trigger] events[i]),
    ensures
        ({
            let end = Progress::start(Operation::Init, init_script(tables, resolution)).run(events);
            &&& end.pending() is None
            &&& end.outcome() == Some(Ok::<Report, Error>(Report::Done))
        }),
{
    let p = Progress::start(Operation::Init, init_script(tables, resolution));
    lemma_init_script_shape(tables, resolution);
    assert forall|i: int| 0 <= i < events.len() implies p.done + i < p.script.len() && (
    #[trigger] refusal(p.script[p.done + i], events[i])) is None by {
        assert(no_bytes(events[i]));
        lemma_init_reads_nothing(tables, resolution, i);
    }
    lemma_fitting_run_completes(p, events);
}

/// No action of the initialisation reads a byte.
pub proof fn lemma_init_reads_nothing(tables: RegisterTables, resolution: Resolution, i: int)
    requires
        0 <= i < init_script(tables, resolution).len(),
    ensures
        init_script(tables, resolution)[i].spec_reply_len() == 0,
{
}

/// Reading the FIFO length asks for the low, middle and high register in
/// that order, each framed as a read, and decodes the three bytes into a
/// count that never exceeds 0x7FFFFF.
pub proof fn lemma_fifo_length_exchange(low: Event, mid: Event, high: Event)
    requires
        one_byte(low),
        one_byte(mid),
        one_byte(high),
    ensures
        ({
            let p0 = Progress::start(Operation::GetFifoLength, length_script());
            let p1 = p0.step(low);
            let p2 = p1.step(mid);
            let p3 = p2.step(high);
            let len = spec_fifo_length(payload(low)[0], payload(mid)[0], payload(high)[0]);
            &&& p0.pending() == Some(Action::RegisterRead { addr: 0x42 })
            &&& p1.pending() == Some(Action::RegisterRead { addr: 0x43 })
            &&& p2.pending() == Some(Action::RegisterRead { addr: 0x44 })
            &&& p3.pending() is None
            &&& p3.outcome() == Some(Ok::<Report, Error>(Report::Length(len)))
            &&& 0 <= len <= 0x7F_FFFF
        }),
{
    assert(0x42u8 & 0x7F == 0x42 && 0x43u8 & 0x7F == 0x43 && 0x44u8 & 0x7F == 0x44)
        by (bit_vector);
    let p0 = Progress::start(Operation::GetFifoLength, length_script());
    let p1 = p0.step(low);
    let p2 = p1.step(mid);
    let p3 = p2.step(high);
    assert(p3.received =~= seq![payload(low)[0], payload(mid)[0], payload(high)[0]]);
}

/// Polling for the end of a capture reads the trigger register once and
/// answers with bit 3 of the byte read; no other bit counts.
pub proof fn lemma_capture_done_exchange(answer: Event)
    requires
        one_byte(answer),
    ensures
        ({
            let p0 = Progress::start(Operation::IsCaptureDone, poll_script());
            let p1 = p0.step(answer);
            let trig = payload(answer)[0];
            &&& p0.pending() == Some(Action::RegisterRead { addr: 0x41 })
            &&& p1.pending() is None
            &&& p1.outcome() == Some(Ok::<Report, Error>(Report::Flag(spec_capture_done(trig))))
            &&& spec_capture_done(trig) <==> trig & 0x08 != 0
        }),
{
    assert(0x41u8 & 0x7F == 0x41) by (bit_vector);
    let trig = payload(answer)[0];
    assert(((trig / 8) % 2 == 1) == (trig & 0x08 != 0)) by (bit_vector);
    let p1 = Progress::start(Operation::IsCaptureDone, poll_script()).step(answer);
    assert(p1.received =~= seq![trig]);
}

/// Starting a capture writes the clear mask and then the start mask to the
/// FIFO control register, both framed as writes.
pub proof fn lemma_start_capture_exchange(first: Event, second: Event)
    requires
        no_bytes(first),
        no_bytes(second),
    ensures
        ({
            let p0 = Progress::start(Operation::StartCapture, capture_script());
            let p1 = p0.step(first);
            let p2 = p1.step(second);
            &&& p0.pending() == Some(Action::RegisterWrite { addr: 0x84, data: 0x01 })
            &&& p1.pending() == Some(Action::RegisterWrite { addr: 0x84, data: 0x02 })
            &&& p2.pending() is None
            &&& p2.outcome() == Some(Ok::<Report, Error>(Report::Done))
        }),
{
    assert(0x04u8 | 0x80 == 0x84) by (bit_vector);
}

/// Draining an image into room for `len` bytes is one burst that reads
/// exactly `len` bytes, followed by the write that clears the buffer. The
/// result is the bytes of the burst. A burst that fails ends the operation
/// with the register-bus error, and the buffer is not cleared.
pub proof fn lemma_drain_exchange(len: usize, burst: Event, cleared: Event)
    requires
        burst matches Event::Completed(bytes) && bytes@.len() == len,
        no_bytes(cleared),
    ensures
        ({
            let p0 = Progress::start(Operation::ReadCapturedImage, drain_script(len));
            let p1 = p0.step(burst);
            let p2 = p1.step(cleared);
            &&& p0.script.len() == 2
            &&& p0.pending() == Some(Action::RegisterBurst { opcode: 0x3C, len })
            &&& p1.pending() == Some(Action::RegisterWrite { addr: 0x84, data: 0x01 })
            &&& p2.pending() is None
            &&& p2.outcome() == Some(Ok::<Report, Error>(Report::Image(payload(burst))))
            &&& p0.step(Event::Failed).pending() is None
            &&& p0.step(Event::Failed).outcome() == Some(Err::<Report, Error>(Error::Spi))
        }),
{
    assert(0x04u8 | 0x80 == 0x84) by (bit_vector);
    let p0 = Progress::start(Operation::ReadCapturedImage, drain_script(len));
    let p2 = p0.step(burst).step(cleared);
    assert(p2.received =~= payload(burst));
}

/// Reading the sensor's identity selects bank 1 and reads the high and the
/// low identity register, one byte each; the result is those two bytes.
pub proof fn lemma_chipid_exchange(bank: Event, high: Event, low: Event)
    requires
        no_bytes(bank),
        one_byte(high),
        one_byte(low),
    ensures
        ({
            let p0 = Progress::start(Operation::GetSensorChipid, chipid_script());
            let p1 = p0.step(bank);
            let p2 = p1.step(high);
            let p3 = p2.step(low);
            &&& p0.pending() == Some(Action::SensorWrite { device: 0x30, reg: 0xFF, data: 0x01 })
            &&& p1.pending() == Some(Action::SensorRead { device: 0x30, reg: 0x0A, len: 1 })
            &&& p2.pending() == Some(Action::SensorRead { device: 0x30, reg: 0x0B, len: 1 })
            &&& p3.pending() is None
            &&& p3.outcome() == Some(
                Ok::<Report, Error>(Report::ChipId(payload(high)[0], payload(low)[0])),
            )
        }),
{
    let p0 = Progress::start(Operation::GetSensorChipid, chipid_script());
    let p3 = p0.step(bank).step(high).step(low);
    assert(p3.received =~= seq![payload(high)[0], payload(low)[0]]);
}

/// The connectivity test writes the test pattern to the scratch register,
/// reads it back, reads the sensor's identity, and decides from the three
/// bytes read.
pub proof fn lemma_connected_exchange(
    written: Event,
    readback: Event,
    bank: Event,
    high: Event,
    low: Event,
)
    requires
        no_bytes(written),
        one_byte(readback),
        no_bytes(bank),
        one_byte(high),
        one_byte(low),
    ensures
        ({
            let p0 = Progress::start(Operation::IsConnected, connected_script());
            let p1 = p0.step(written);
            let p2 = p1.step(readback);
            let p5 = p2.step(bank).step(high).step(low);
            &&& p0.pending() == Some(Action::RegisterWrite { addr: 0x80, data: 0x52 })
            &&& p1.pending() == Some(Action::RegisterRead { addr: 0x00 })
            &&& p2.pending() == Some(Action::SensorWrite { device: 0x30, reg: 0xFF, data: 0x01 })
            &&& p5.pending() is None
            &&& p5.outcome() == Some(
                Ok::<Report, Error>(
                    Report::Flag(
                        spec_connected(payload(readback)[0], payload(high)[0], payload(low)[0]),
                    ),
                ),
            )
        }),
{
    assert(0x00u8 | 0x80 == 0x80 && 0x00u8 & 0x7F == 0x00) by (bit_vector);
    let p0 = Progress::start(Operation::IsConnected, connected_script());
    assert(p0.script =~= seq![
        register_write(0x00, 0x52),
        register_read(0x00),
        sensor_write(0xFF, 0x01),
        sensor_read(0x0A, 1),
        sensor_read(0x0B, 1),
    ]);
    let p5 = p0.step(written).step(readback).step(bank).step(high).step(low);
    assert(p5.received =~= seq![payload(readback)[0], payload(high)[0], payload(low)[0]]);
}

/// On the register bus a write always goes out with bit 7 of the address
/// set and a read with bit 7 cleared, whatever bit 7 of the register's
/// address was; the low seven bits are those of the register.
pub proof fn lemma_register_framing(addr: u8, data: u8)
    ensures
        register_write(addr, data) matches Action::RegisterWrite { addr: framed, data: sent }
            && sent == data && framed & 0x80 == 0x80 && framed & 0x7F == addr & 0x7F,
        register_read(addr) matches Action::RegisterRead { addr: framed } && framed & 0x80 == 0
            && framed & 0x7F == addr & 0x7F,
        register_write(addr, data) == register_write(addr | 0x80, data),
        register_read(addr) == register_read(addr | 0x80),
{
    assert((addr | 0x80) & 0x80 == 0x80 && (addr | 0x80) & 0x7F == addr & 0x7F) by (bit_vector);
    assert((addr & 0x7F) & 0x80 == 0 && (addr & 0x7F) & 0x7F == addr & 0x7F) by (bit_vector);
    assert((addr | 0x80) | 0x80 == addr | 0x80 && (addr | 0x80) & 0x7F == addr & 0x7F)
        by (bit_vector);
}

/// The decoded FIFO length takes nothing from bit 7 of the high byte and
/// never exceeds 0x7FFFFF.
pub proof fn lemma_fifo_length_masked(low: u8, mid: u8, high: u8)
    ensures
        0 <= spec_fifo_length(low, mid, high) <= 0x7F_FFFF,
        spec_fifo_length(low, mid, high) == spec_fifo_length(low, mid, high & 0x7F),
        spec_fifo_length(low, mid, high) == spec_fifo_length(low, mid, high | 0x80),
{
    assert((high & 0x7F) % 128 == high % 128 && (high | 0x80) % 128 == high % 128)
        by (bit_vector);
}

} // verus!
