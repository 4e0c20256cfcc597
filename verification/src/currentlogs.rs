//! Measurement records and the FIFO buffer that holds them between sampling
//! and transfer.

use vstd::prelude::*;
use vstd::string::StringExecFns;
use crate::text::{decimal_digits, fixed_text, push_decimal, push_fixed};

verus! {

/// One measurement: a timestamp and the four quantities sampled with it.
#[derive(Clone, Copy, Debug, PartialEq, Eq, Structural)]
pub struct CurrentLog {
    /// Bus voltage in nanovolts.
    pub voltage: i64,
    /// Shunt current in nanoamperes.
    pub current: i64,
    /// Power in nanowatts.
    pub power: i64,
    /// Capture time in nanoseconds since the epoch.
    pub clock: u128,
    /// Battery voltage in nanovolts.
    pub battery: i64,
}

impl CurrentLog {
    /// The all-zero record.
    pub fn default() -> (log: CurrentLog)
        ensures
            log == (CurrentLog { voltage: 0, current: 0, power: 0, clock: 0, battery: 0 }),
    {
        CurrentLog { voltage: 0, current: 0, power: 0, clock: 0, battery: 0 }
    }
}

/// What a buffer holds after `data` was appended to `records`.
pub open spec fn appended(records: Seq<CurrentLog>, data: CurrentLog) -> Seq<CurrentLog> {
    records.push(data)
}

/// How many records a request to remove `size` of them takes from `records`.
pub open spec fn removable(records: Seq<CurrentLog>, size: nat) -> nat {
    if size < records.len() {
        size
    } else {
        records.len()
    }
}

/// What a buffer holds after the oldest `size` records, or all of them where
/// there are fewer, were removed from `records`.
pub open spec fn drained(records: Seq<CurrentLog>, size: nat) -> Seq<CurrentLog> {
    records.skip(removable(records, size) as int)
}

/// The line of a listing that stands for one record: the timestamp, then
/// voltage, current, power and battery voltage in base units with all nine
/// decimals.
pub open spec fn listing_line(record: CurrentLog) -> Seq<char> {
    decimal_digits(record.clock as nat) + ","@ + fixed_text(record.voltage as int, 0, 9) + ","@
        + fixed_text(record.current as int, 0, 9) + ","@ + fixed_text(record.power as int, 0, 9)
        + ","@ + fixed_text(record.battery as int, 0, 9)
}

/// A buffer of measurement records in capture order.
///
/// The buffer itself is unbounded; the capacity policy belongs to its user.
pub struct CurrentRecord {
    rec: Vec<CurrentLog>,
}

impl View for CurrentRecord {
    type V = Seq<CurrentLog>;

    closed spec fn view(&self) -> Seq<CurrentLog> {
        self.rec@
    }
}

impl CurrentRecord {
    /// An empty buffer.
    pub fn new() -> (buffer: CurrentRecord)
        ensures
            buffer@ == Seq::<CurrentLog>::empty(),
    {
        CurrentRecord { rec: Vec::new() }
    }

    /// Appends `data` behind the records already held.
    pub fn record(&mut self, data: CurrentLog)
        ensures
            final(self)@ == appended(old(self)@, data),
    {
        self.rec.push(data);
    }

    /// A listing of the records for a log: a heading, then one line for each
    /// record, oldest first.
    pub fn dump(&self) -> (lines: Vec<String>)
        ensures
            lines@.len() == self@.len() + 1,
            lines@[0]@ == "time,voltage,current,power,battery"@,
            forall|i: int| 0 <= i < self@.len() ==> (#[trigger] lines@[i + 1])@ == listing_line(self@[i]),
    {
        let mut lines: Vec<String> = Vec::new();
        lines.push(String::from_str("time,voltage,current,power,battery"));
        let mut i: usize = 0;
        while i < self.rec.len()
            invariant
                i <= self.rec@.len(),
                lines@.len() == i + 1,
                lines@[0]@ == "time,voltage,current,power,battery"@,
                forall|k: int| 0 <= k < i ==> (#[trigger] lines@[k + 1])@ == listing_line(self.rec@[k]),
            decreases self.rec@.len() - i,
        {
            let record: &CurrentLog = &self.rec[i];
            let mut line: String = String::new();
            push_decimal(&mut line, record.clock);
            line.append(",");
            push_fixed(&mut line, record.voltage, 0, 9);
            line.append(",");
            push_fixed(&mut line, record.current, 0, 9);
            line.append(",");
            push_fixed(&mut line, record.power, 0, 9);
            line.append(",");
            push_fixed(&mut line, record.battery, 0, 9);
            assert(line@ =~= listing_line(*record));
            lines.push(line);
            i += 1;
        }
        lines
    }

    /// Removes every record.
    pub fn clear(&mut self)
        ensures
            final(self)@ == Seq::<CurrentLog>::empty(),
    {
        self.rec.clear();
    }

    /// The number of records held.
    pub fn get_size(&self) -> (size: usize)
        ensures
            size == self@.len(),
    {
        self.rec.len()
    }

    /// The records held, oldest first.
    pub fn get_all_data(&self) -> (records: &Vec<CurrentLog>)
        ensures
            records@ == self@,
    {
        &self.rec
    }

    /// Removes the oldest `size` records, or all of them where fewer are held.
    /// The records that stay keep their order.
    pub fn remove_data(&mut self, size: usize)
        ensures
            final(self)@ == drained(old(self)@, size as nat),
            final(self)@.len() == old(self)@.len() - removable(old(self)@, size as nat),
            size >= old(self)@.len() ==> final(self)@ == Seq::<CurrentLog>::empty(),
    {
        let held: usize = self.rec.len();
        let num: usize = if held < size { held } else { size };
        let mut rest: Vec<CurrentLog> = Vec::new();
        let mut i: usize = num;
        while i < held
            invariant
                num <= i <= held,
                held == self.rec@.len(),
                self.rec@ == old(self).rec@,
                rest@ == self.rec@.subrange(num as int, i as int),
            decreases held - i,
        {
            rest.push(self.rec[i]);
            i += 1;
        }
        assert(rest@ == self.rec@.skip(num as int));
        self.rec = rest;
    }
}

/// One change to a buffer.
pub enum BufferOp {
    /// A record is appended.
    Record(CurrentLog),
    /// The removal of this many of the oldest records is asked for.
    Remove(usize),
}

/// What an empty buffer holds after the changes `ops`, in their order.
pub open spec fn replayed(ops: Seq<BufferOp>) -> Seq<CurrentLog>
    decreases ops.len(),
{
    if ops.len() == 0 {
        Seq::<CurrentLog>::empty()
    } else {
        match ops.last() {
            BufferOp::Record(data) => appended(replayed(ops.drop_last()), data),
            BufferOp::Remove(size) => drained(replayed(ops.drop_last()), size as nat),
        }
    }
}

/// The number of records that the changes `ops` append.
pub open spec fn appended_total(ops: Seq<BufferOp>) -> nat
    decreases ops.len(),
{
    if ops.len() == 0 {
        0
    } else {
        match ops.last() {
            BufferOp::Record(_) => appended_total(ops.drop_last()) + 1,
            BufferOp::Remove(_) => appended_total(ops.drop_last()),
        }
    }
}

/// The number of records that the changes `ops` remove from a buffer that
/// starts out empty.
pub open spec fn removed_total(ops: Seq<BufferOp>) -> nat
    decreases ops.len(),
{
    if ops.len() == 0 {
        0
    } else {
        match ops.last() {
            BufferOp::Record(_) => removed_total(ops.drop_last()),
            BufferOp::Remove(size) => removed_total(ops.drop_last()) + removable(
                replayed(ops.drop_last()),
                size as nat,
            ),
        }
    }
}

/// After any sequence of changes, a buffer that started out empty holds as
/// many records as were appended less those that were removed.
pub proof fn lemma_size_is_appended_less_removed(ops: Seq<BufferOp>)
    ensures
        removed_total(ops) <= appended_total(ops),
        replayed(ops).len() == appended_total(ops) - removed_total(ops),
    decreases ops.len(),
{
    if ops.len() > 0 {
        lemma_size_is_appended_less_removed(ops.drop_last());
    }
}

/// A request to remove more records than are held empties the buffer.
pub proof fn lemma_remove_beyond_size_empties(records: Seq<CurrentLog>, size: nat)
    requires
        size >= records.len(),
    ensures
        drained(records, size) == Seq::<CurrentLog>::empty(),
{
    assert(drained(records, size) =~= Seq::<CurrentLog>::empty());
}

/// Removal takes the oldest records and leaves the others in their order:
/// the record at place `i` of what stays was at place `i` behind those
/// removed.
pub proof fn lemma_remove_keeps_order(records: Seq<CurrentLog>, size: nat, i: int)
    requires
        0 <= i < drained(records, size).len(),
    ensures
        drained(records, size)[i] == records[removable(records, size) + i],
{
}

} // verus!
