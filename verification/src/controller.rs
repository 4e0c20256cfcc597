//! The sampling cycle: composing a record from the sensor readings,
//! buffering it, admission control with its backpressure band, and handing
//! batches to the transfer agent.

use vstd::prelude::*;
use crate::currentlogs::{appended, drained, CurrentLog, CurrentRecord};
use crate::displayctl::{DisplayPanel, LoggingStatus, PanelModel, WifiStatus};
use crate::transfer::{batch_body, submitted, submitted_count, Transfer, TransferModel};

verus! {

/// Nominal pause between two sampling cycles, in milliseconds.
pub const SAMPLE_PERIOD_MS: u64 = 100;

/// Capacity of the measurement buffer where none is configured.
pub const DEFAULT_MAX_RECORDS: usize = 1023;

/// What the sensors gave in one cycle. A quantity whose read failed is
/// absent.
#[derive(Clone, Copy, Debug, PartialEq, Eq, Structural)]
pub struct Sample {
    /// Capture time in nanoseconds since the epoch.
    pub clock: u128,
    /// Bus voltage in nanovolts.
    pub voltage: Option<i64>,
    /// Current in nanoamperes.
    pub current: Option<i64>,
    /// Power in nanowatts.
    pub power: Option<i64>,
    /// Battery voltage in nanovolts.
    pub battery: i64,
}

/// The state of admission control.
#[derive(Clone, Copy, Debug, PartialEq, Eq, Structural)]
pub struct Admission {
    /// Whether records are appended to the buffer.
    pub logging: bool,
    /// Whether logging was switched off because the buffer was full.
    pub stopped_by_full: bool,
}

/// What one cycle did.
#[derive(Clone, Copy, Debug, PartialEq, Eq, Structural)]
pub struct CycleReport {
    /// The record composed from the sample.
    pub record: CurrentLog,
    /// Fill of the buffer in percent, before any records were handed on.
    pub water_mark: u32,
    /// Number of records handed to the transfer agent and removed from the
    /// buffer.
    pub submitted: usize,
}

/// The record for a sample: each quantity as read, or as it was in the last
/// record where its read failed.
pub open spec fn composed(last: CurrentLog, sample: Sample) -> CurrentLog {
    CurrentLog {
        voltage: match sample.voltage {
            Some(value) => value,
            None => last.voltage,
        },
        current: match sample.current {
            Some(value) => value,
            None => last.current,
        },
        power: match sample.power {
            Some(value) => value,
            None => last.power,
        },
        clock: sample.clock,
        battery: sample.battery,
    }
}

/// Admission control after the buffer was found to hold `size` records of
/// `capacity`: a full buffer switches logging off, and logging that was
/// switched off so comes back once the buffer is under half full.
pub open spec fn admission_next(state: Admission, size: nat, capacity: nat) -> Admission {
    let full = if size >= capacity {
        Admission { logging: false, stopped_by_full: true }
    } else {
        state
    };
    if full.stopped_by_full && !full.logging && size < capacity / 2 {
        Admission { logging: true, stopped_by_full: false }
    } else {
        full
    }
}

/// Fill of a buffer in percent, rounded down.
pub open spec fn water_mark(size: nat, capacity: nat) -> nat {
    size * 100 / capacity
}

/// What a controller is.
pub struct ControllerModel {
    /// The records waiting for transfer, oldest first.
    pub buffer: Seq<CurrentLog>,
    pub admission: Admission,
    /// The number of records at which logging stops.
    pub capacity: nat,
    /// The record of the last cycle.
    pub last: CurrentLog,
}

/// The buffer of a cycle after the record was taken in, before anything was
/// handed on.
pub open spec fn admitted_buffer(before: ControllerModel, sample: Sample) -> Seq<CurrentLog> {
    if before.admission.logging {
        appended(before.buffer, composed(before.last, sample))
    } else {
        before.buffer
    }
}

/// The controller after the first half of a cycle: the record composed and,
/// while logging, buffered, and admission control brought up to date.
pub open spec fn admitted(before: ControllerModel, sample: Sample) -> ControllerModel {
    let buffer = admitted_buffer(before, sample);
    ControllerModel {
        buffer,
        admission: admission_next(before.admission, buffer.len(), before.capacity),
        capacity: before.capacity,
        last: composed(before.last, sample),
    }
}

/// Whether a cycle offers its buffer to the transfer agent.
pub open spec fn offers(before: ControllerModel, connected: bool) -> bool {
    connected && before.buffer.len() > 0
}

/// The number of records that the second half of a cycle hands on.
pub open spec fn offered_count(
    before: ControllerModel,
    connected: bool,
    agent: TransferModel,
) -> nat {
    if offers(before, connected) {
        submitted_count(agent, before.buffer)
    } else {
        0
    }
}

/// The controller after the second half of a cycle: the records that the
/// transfer agent took are gone from the buffer.
pub open spec fn offered(
    before: ControllerModel,
    connected: bool,
    agent: TransferModel,
) -> ControllerModel {
    ControllerModel {
        buffer: drained(before.buffer, offered_count(before, connected, agent)),
        ..before
    }
}

/// The transfer agent after the second half of a cycle.
pub open spec fn agent_after_offer(
    before: ControllerModel,
    connected: bool,
    agent: TransferModel,
) -> TransferModel {
    if offers(before, connected) {
        submitted(agent, before.buffer)
    } else {
        agent
    }
}

/// The panel after a cycle has pushed its results.
pub open spec fn published(
    panel: PanelModel,
    admission: Admission,
    record: CurrentLog,
    connected: bool,
    water_mark: u32,
) -> PanelModel {
    PanelModel {
        wifi: if connected {
            WifiStatus::Connected
        } else {
            WifiStatus::Disconnected
        },
        status: if admission.logging {
            LoggingStatus::Start
        } else {
            LoggingStatus::Stop
        },
        battery: record.battery,
        voltage: record.voltage,
        current: record.current,
        power: record.power,
        buffer_water_mark: water_mark,
        ..panel
    }
}

/// Composes the record for a sample.
pub fn compose(last: &CurrentLog, sample: &Sample) -> (record: CurrentLog)
    ensures
        record == composed(*last, *sample),
{
    CurrentLog {
        voltage: match sample.voltage {
            Some(value) => value,
            None => last.voltage,
        },
        current: match sample.current {
            Some(value) => value,
            None => last.current,
        },
        power: match sample.power {
            Some(value) => value,
            None => last.power,
        },
        clock: sample.clock,
        battery: sample.battery,
    }
}

impl Admission {
    /// Admission control as a cycle starts out: logging, never stopped.
    pub fn new() -> (state: Admission)
        ensures
            state == (Admission { logging: true, stopped_by_full: false }),
    {
        Admission { logging: true, stopped_by_full: false }
    }

    /// Admission control after the buffer was found to hold `size` records
    /// of `capacity`.
    pub fn next(self, size: usize, capacity: usize) -> (state: Admission)
        ensures
            state == admission_next(self, size as nat, capacity as nat),
    {
        let full: Admission = if size >= capacity {
            Admission { logging: false, stopped_by_full: true }
        } else {
            self
        };
        if full.stopped_by_full && !full.logging && size < capacity / 2 {
            Admission { logging: true, stopped_by_full: false }
        } else {
            full
        }
    }
}

/// The sampling controller: owner of the measurement buffer and of admission
/// control.
pub struct Controller {
    buffer: CurrentRecord,
    admission: Admission,
    capacity: usize,
    last: CurrentLog,
}

impl View for Controller {
    type V = ControllerModel;

    closed spec fn view(&self) -> ControllerModel {
        ControllerModel {
            buffer: self.buffer@,
            admission: self.admission,
            capacity: self.capacity as nat,
            last: self.last,
        }
    }
}

/// Whether a controller is in a state that cycles can lead to: the capacity
/// is not zero, the buffer holds no more than the capacity, and fewer while
/// logging is on.
pub open spec fn sound(controller: ControllerModel) -> bool {
    &&& controller.capacity >= 1
    &&& controller.buffer.len() <= controller.capacity
    &&& controller.admission.logging ==> controller.buffer.len() < controller.capacity
}

impl Controller {
    /// A controller is always sound.
    #[verifier::type_invariant]
    pub closed spec fn wf(&self) -> bool {
        sound(self@)
    }

    /// A controller with an empty buffer of the given capacity, logging.
    /// There is none for a capacity of zero.
    pub fn new(capacity: usize) -> (controller: Option<Controller>)
        ensures
            capacity == 0 ==> controller is None,
            capacity > 0 ==> controller is Some && controller->0@ == (ControllerModel {
                buffer: Seq::<CurrentLog>::empty(),
                admission: Admission { logging: true, stopped_by_full: false },
                capacity: capacity as nat,
                last: CurrentLog { voltage: 0, current: 0, power: 0, clock: 0, battery: 0 },
            }) && controller->0.wf(),
    {
        if capacity == 0 {
            None
        } else {
            Some(
                Controller {
                    buffer: CurrentRecord::new(),
                    admission: Admission::new(),
                    capacity,
                    last: CurrentLog::default(),
                },
            )
        }
    }

    /// Whether records are being appended to the buffer.
    pub fn is_logging(&self) -> (logging: bool)
        ensures
            logging == self@.admission.logging,
    {
        self.admission.logging
    }

    /// The state of admission control.
    pub fn admission(&self) -> (state: Admission)
        ensures
            state == self@.admission,
    {
        self.admission
    }

    /// The number of records at which logging stops.
    pub fn capacity(&self) -> (capacity: usize)
        ensures
            capacity == self@.capacity,
            capacity >= 1,
    {
        proof {
            use_type_invariant(self);
        }
        self.capacity
    }

    /// The number of records in the buffer.
    pub fn buffered(&self) -> (size: usize)
        ensures
            size == self@.buffer.len(),
            size <= self@.capacity,
    {
        proof {
            use_type_invariant(self);
        }
        self.buffer.get_size()
    }

    /// The records in the buffer, oldest first.
    pub fn records(&self) -> (records: &Vec<CurrentLog>)
        ensures
            records@ == self@.buffer,
    {
        self.buffer.get_all_data()
    }

    /// Fill of the buffer in percent, rounded down.
    pub fn water_mark(&self) -> (percent: u32)
        ensures
            percent == water_mark(self@.buffer.len(), self@.capacity),
            percent <= 100,
    {
        proof {
            use_type_invariant(self);
        }
        let size: u128 = self.buffer.get_size() as u128;
        let capacity: u128 = self.capacity as u128;
        assert(size as int * 100 / (capacity as int) <= 100) by (nonlinear_arith)
            requires
                size <= capacity,
                capacity >= 1,
        ;
        (size * 100 / capacity) as u32
    }

    /// Empties the buffer. This is for the operator; no cycle does it.
    pub fn clear(&mut self)
        ensures
            final(self)@ == (ControllerModel { buffer: Seq::<CurrentLog>::empty(), ..old(self)@ }),
            final(self).wf(),
    {
        proof {
            use_type_invariant(&*self);
        }
        self.buffer = CurrentRecord::new();
    }

    /// Takes the buffer out for a change and leaves an empty one in its
    /// place.
    fn take_buffer(&mut self) -> (buffer: CurrentRecord)
        ensures
            buffer@ == old(self)@.buffer,
            final(self)@ == (ControllerModel { buffer: Seq::<CurrentLog>::empty(), ..old(self)@ }),
    {
        proof {
            use_type_invariant(&*self);
        }
        let mut buffer: CurrentRecord = CurrentRecord::new();
        std::mem::swap(&mut self.buffer, &mut buffer);
        buffer
    }

    /// The first half of a cycle: composes the record for `sample`, appends
    /// it to the buffer while logging is on, and brings admission control up
    /// to date. Returns the record.
    pub fn take_in(&mut self, sample: &Sample) -> (record: CurrentLog)
        ensures
            record == composed(old(self)@.last, *sample),
            final(self)@ == admitted(old(self)@, *sample),
            final(self).wf(),
    {
        proof {
            use_type_invariant(&*self);
        }
        let record: CurrentLog = compose(&self.last, sample);
        let was_logging: bool = self.admission.logging;
        let held: usize = self.buffer.get_size();
        let size: usize = if was_logging {
            held + 1
        } else {
            held
        };
        self.admission = self.admission.next(size, self.capacity);
        self.last = record;
        if was_logging {
            let mut buffer: CurrentRecord = self.take_buffer();
            buffer.record(record);
            self.buffer = buffer;
        }
        record
    }

    /// The second half of a cycle: while the link is up and the buffer is
    /// not empty, offers the buffer to the transfer agent and removes the
    /// records that the agent took. Returns their number.
    pub fn offer(&mut self, connected: bool, agent: &mut Transfer) -> (count: usize)
        ensures
            count == offered_count(old(self)@, connected, old(agent)@),
            final(self)@ == offered(old(self)@, connected, old(agent)@),
            final(agent)@ == agent_after_offer(old(self)@, connected, old(agent)@),
            final(self).wf(),
            final(agent).wf(),
    {
        proof {
            use_type_invariant(&*self);
            use_type_invariant(&*agent);
        }
        if connected && self.buffer.get_size() > 0 {
            let count: usize = agent.set_transfer_data(self.buffer.get_all_data());
            if count > 0 {
                let mut buffer: CurrentRecord = self.take_buffer();
                buffer.remove_data(count);
                self.buffer = buffer;
            }
            assert(self.buffer@ =~= drained(old(self)@.buffer, count as nat));
            count
        } else {
            assert(self.buffer@ =~= drained(old(self)@.buffer, 0));
            0
        }
    }

    /// One sampling cycle: takes the sample in, hands records on, and pushes
    /// the link state, the logging state, the record and the fill of the
    /// buffer to the panel.
    pub fn cycle(
        &mut self,
        sample: &Sample,
        connected: bool,
        agent: &mut Transfer,
        panel: &mut DisplayPanel,
    ) -> (report: CycleReport)
        ensures
            report.record == composed(old(self)@.last, *sample),
            report.water_mark == water_mark(
                admitted(old(self)@, *sample).buffer.len(),
                old(self)@.capacity,
            ),
            report.submitted == offered_count(admitted(old(self)@, *sample), connected, old(agent)@),
            final(self)@ == offered(admitted(old(self)@, *sample), connected, old(agent)@),
            final(agent)@ == agent_after_offer(admitted(old(self)@, *sample), connected, old(agent)@),
            final(panel)@ == published(
                old(panel)@,
                final(self)@.admission,
                report.record,
                connected,
                report.water_mark,
            ),
            final(self).wf(),
            final(agent).wf(),
    {
        let record: CurrentLog = self.take_in(sample);
        let percent: u32 = self.water_mark();
        let submitted: usize = self.offer(connected, agent);
        panel.set_wifi_status(
            if connected {
                WifiStatus::Connected
            } else {
                WifiStatus::Disconnected
            },
        );
        panel.set_current_status(
            if self.admission.logging {
                LoggingStatus::Start
            } else {
                LoggingStatus::Stop
            },
        );
        panel.set_battery(record.battery);
        panel.set_voltage(record.voltage, record.current, record.power);
        panel.set_buffer_watermark(percent);
        CycleReport { record, water_mark: percent, submitted }
    }
}

/// Logging stops when the buffer is found full, whatever the state was.
pub proof fn lemma_full_buffer_stops_logging(state: Admission, size: nat, capacity: nat)
    requires
        capacity >= 1,
        size >= capacity,
    ensures
        admission_next(state, size, capacity) == (Admission {
            logging: false,
            stopped_by_full: true,
        }),
{
}

/// Logging that was stopped by a full buffer stays off while the buffer is
/// half full or more, and comes back once it is under half full.
pub proof fn lemma_stopped_logging_resumes_under_half(size: nat, capacity: nat)
    requires
        size < capacity,
    ensures
        size >= capacity / 2 ==> admission_next(
            Admission { logging: false, stopped_by_full: true },
            size,
            capacity,
        ) == (Admission { logging: false, stopped_by_full: true }),
        size < capacity / 2 ==> admission_next(
            Admission { logging: false, stopped_by_full: true },
            size,
            capacity,
        ) == (Admission { logging: true, stopped_by_full: false }),
{
}

/// Logging that is on stays on while the buffer has room.
pub proof fn lemma_logging_continues_with_room(size: nat, capacity: nat)
    requires
        size < capacity,
    ensures
        admission_next(Admission { logging: true, stopped_by_full: false }, size, capacity) == (
        Admission { logging: true, stopped_by_full: false }),
{
}

/// A cycle leaves a sound controller sound: the buffer never outgrows the
/// capacity.
pub proof fn lemma_cycle_keeps_sound(
    before: ControllerModel,
    sample: Sample,
    connected: bool,
    agent: TransferModel,
)
    requires
        sound(before),
    ensures
        sound(admitted(before, sample)),
        sound(offered(admitted(before, sample), connected, agent)),
{
}

/// What a cycle hands on is what leaves the buffer: the records taken and
/// the records left make up the buffer as it was, and where a body became
/// pending it holds the lines of the records taken, no more and no fewer.
pub proof fn lemma_offer_moves_the_oldest(
    before: ControllerModel,
    connected: bool,
    agent: TransferModel,
)
    ensures
        offered_count(before, connected, agent) <= before.buffer.len(),
        before.buffer == before.buffer.take(offered_count(before, connected, agent) as int) + offered(
            before,
            connected,
            agent,
        ).buffer,
        offered_count(before, connected, agent) > 0 ==> agent_after_offer(
            before,
            connected,
            agent,
        ).body == batch_body(
            agent.server.measurement,
            agent.server.tag,
            before.buffer.take(offered_count(before, connected, agent) as int),
        ),
        offered_count(before, connected, agent) == 0 ==> agent_after_offer(before, connected, agent)
            == agent,
{
    let count = offered_count(before, connected, agent) as int;
    assert(before.buffer =~= before.buffer.take(count) + offered(before, connected, agent).buffer);
}

} // verus!
