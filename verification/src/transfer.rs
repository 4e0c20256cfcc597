//! Transfer of measurement batches to a time-series endpoint.
//!
//! A batch is serialised into a line-oriented body and kept in a slot until
//! the delivery task has sent it. At most one body is in the slot at a time.

use vstd::prelude::*;
use vstd::string::StringExecFns;
use crate::currentlogs::CurrentLog;
use crate::text::{decimal_digits, fixed_text, push_decimal, push_fixed};

verus! {

/// The largest number of records that one transfer carries.
pub const CHUNK_RECORDS: usize = 128;

/// The response status that confirms a delivery.
pub const SUCCESS_STATUS: u16 = 204;

/// Pause of the delivery task between two looks at the slot, in milliseconds.
pub const DELIVERY_POLL_MS: u32 = 100;

/// Time allowed for one delivery, in seconds.
pub const DELIVERY_TIMEOUT_S: u64 = 10;

/// Where measurements are sent, and under which names.
#[derive(Clone)]
pub struct ServerInfo {
    /// Host, with the port where one is needed.
    pub server: String,
    /// Name of the measurement that every line starts with.
    pub influxdb_measurement: String,
    /// Token that authorises the writes.
    pub influxdb_api_key: String,
    /// Path and query of the write endpoint.
    pub influxdb_api: String,
    /// Routing tag that every line carries.
    pub influxdb_tag: String,
}

/// The texts of a [`ServerInfo`].
pub struct ServerModel {
    pub server: Seq<char>,
    pub measurement: Seq<char>,
    pub api_key: Seq<char>,
    pub api: Seq<char>,
    pub tag: Seq<char>,
}

impl View for ServerInfo {
    type V = ServerModel;

    open spec fn view(&self) -> ServerModel {
        ServerModel {
            server: self.server@,
            measurement: self.influxdb_measurement@,
            api_key: self.influxdb_api_key@,
            api: self.influxdb_api@,
            tag: self.influxdb_tag@,
        }
    }
}

/// The line that stands for one record: measurement and tag, the four
/// quantities in base units with five decimals (two for the battery), and the
/// timestamp in nanoseconds.
pub open spec fn record_line(measurement: Seq<char>, tag: Seq<char>, record: CurrentLog) -> Seq<char> {
    measurement + ",tag="@ + tag + " current="@ + fixed_text(record.current as int, 4, 5)
        + ",voltage="@ + fixed_text(record.voltage as int, 4, 5) + ",power="@ + fixed_text(
        record.power as int,
        4,
        5,
    ) + ",bat="@ + fixed_text(record.battery as int, 7, 2) + " "@ + decimal_digits(
        record.clock as nat,
    ) + "\n"@
}

/// The body that stands for `records`: their lines, oldest first.
pub open spec fn batch_body(
    measurement: Seq<char>,
    tag: Seq<char>,
    records: Seq<CurrentLog>,
) -> Seq<char>
    decreases records.len(),
{
    if records.len() == 0 {
        Seq::<char>::empty()
    } else {
        batch_body(measurement, tag, records.drop_last()) + record_line(
            measurement,
            tag,
            records.last(),
        )
    }
}

/// How many of `available` records one transfer takes.
pub open spec fn batch_size(available: nat) -> nat {
    if available < CHUNK_RECORDS {
        available
    } else {
        CHUNK_RECORDS as nat
    }
}

/// The value of the authorisation header for the token `api_key`.
pub open spec fn authorization_text(api_key: Seq<char>) -> Seq<char> {
    "Token "@ + api_key
}

/// The address that bodies are posted to.
pub open spec fn url_text(server: Seq<char>, api: Seq<char>) -> Seq<char> {
    "http://"@ + server + api
}

impl ServerInfo {
    /// Gathers the five texts that describe the endpoint.
    pub fn new(
        server: String,
        api_key: String,
        api: String,
        measurement: String,
        tag: String,
    ) -> (info: ServerInfo)
        ensures
            info@ == (ServerModel {
                server: server@,
                measurement: measurement@,
                api_key: api_key@,
                api: api@,
                tag: tag@,
            }),
    {
        ServerInfo {
            server,
            influxdb_measurement: measurement,
            influxdb_api_key: api_key,
            influxdb_api: api,
            influxdb_tag: tag,
        }
    }

    /// The value of the authorisation header.
    pub fn authorization(&self) -> (value: String)
        ensures
            value@ == authorization_text(self@.api_key),
    {
        let mut value: String = String::from_str("Token ");
        value.append(self.influxdb_api_key.as_str());
        value
    }

    /// The address that bodies are posted to.
    pub fn url(&self) -> (address: String)
        ensures
            address@ == url_text(self@.server, self@.api),
    {
        let mut address: String = String::from_str("http://");
        address.append(self.server.as_str());
        address.append(self.influxdb_api.as_str());
        address
    }
}

/// Appends the line of `record` to `out`.
pub fn push_record_line(out: &mut String, measurement: &str, tag: &str, record: &CurrentLog)
    ensures
        final(out)@ == old(out)@ + record_line(measurement@, tag@, *record),
{
    out.append(measurement);
    out.append(",tag=");
    out.append(tag);
    out.append(" current=");
    push_fixed(out, record.current, 4, 5);
    out.append(",voltage=");
    push_fixed(out, record.voltage, 4, 5);
    out.append(",power=");
    push_fixed(out, record.power, 4, 5);
    out.append(",bat=");
    push_fixed(out, record.battery, 7, 2);
    out.append(" ");
    push_decimal(out, record.clock);
    out.append("\n");
    assert(out@ =~= old(out)@ + record_line(measurement@, tag@, *record));
}

/// Serialises the oldest records of `data`, as many as one transfer takes.
pub fn serialize_batch(measurement: &str, tag: &str, data: &Vec<CurrentLog>) -> (batch: (String, usize))
    ensures
        batch.1 == batch_size(data@.len()),
        batch.0@ == batch_body(measurement@, tag@, data@.take(batch.1 as int)),
{
    let count: usize = if data.len() < CHUNK_RECORDS {
        data.len()
    } else {
        CHUNK_RECORDS
    };
    let mut body: String = String::new();
    let mut i: usize = 0;
    while i < count
        invariant
            i <= count <= data@.len(),
            body@ == batch_body(measurement@, tag@, data@.take(i as int)),
        decreases count - i,
    {
        push_record_line(&mut body, measurement, tag, &data[i]);
        proof {
            let next = data@.take(i + 1);
            assert(next.drop_last() =~= data@.take(i as int));
            assert(next.last() == data@[i as int]);
        }
        i += 1;
    }
    (body, count)
}

/// What a transfer agent is: the slot and the endpoint.
pub struct TransferModel {
    /// The body in the slot; empty while nothing is pending.
    pub body: Seq<char>,
    /// Whether the body waits for delivery.
    pub pending: bool,
    /// The endpoint and the names used in the next serialisation.
    pub server: ServerModel,
}

/// The transfer agent: composes bodies and keeps at most one of them for the
/// delivery task.
pub struct Transfer {
    body: String,
    txreq: bool,
    server: ServerInfo,
}

impl View for Transfer {
    type V = TransferModel;

    closed spec fn view(&self) -> TransferModel {
        TransferModel { body: self.body@, pending: self.txreq, server: self.server@ }
    }
}

/// What [`Transfer::set_transfer_data`] leaves in an agent that was `before`
/// and was offered `data`.
pub open spec fn submitted(before: TransferModel, data: Seq<CurrentLog>) -> TransferModel {
    if before.pending || data.len() == 0 {
        before
    } else {
        TransferModel {
            body: batch_body(
                before.server.measurement,
                before.server.tag,
                data.take(batch_size(data.len()) as int),
            ),
            pending: true,
            server: before.server,
        }
    }
}

/// How many records [`Transfer::set_transfer_data`] takes from `data` in an
/// agent that was `before`.
pub open spec fn submitted_count(before: TransferModel, data: Seq<CurrentLog>) -> nat {
    if before.pending {
        0
    } else {
        batch_size(data.len())
    }
}

impl Transfer {
    /// While nothing is pending the slot is empty.
    #[verifier::type_invariant]
    pub closed spec fn wf(&self) -> bool {
        !self.txreq ==> self.body@.len() == 0
    }

    /// An agent for the given endpoint, with an empty slot.
    pub fn new(server: ServerInfo) -> (agent: Transfer)
        ensures
            agent@ == (TransferModel {
                body: Seq::<char>::empty(),
                pending: false,
                server: server@,
            }),
            agent.wf(),
    {
        let agent = Transfer { body: String::new(), txreq: false, server };
        assert(agent@.body =~= Seq::<char>::empty());
        agent
    }

    /// Offers `data` for transfer and returns how many of its oldest records
    /// were taken.
    ///
    /// While a body is pending nothing is taken and the body stays as it is.
    /// Otherwise up to [`CHUNK_RECORDS`] records are serialised and the body
    /// becomes pending. The caller removes the records taken from its buffer.
    pub fn set_transfer_data(&mut self, data: &Vec<CurrentLog>) -> (count: usize)
        ensures
            count == submitted_count(old(self)@, data@),
            final(self)@ == submitted(old(self)@, data@),
            final(self).wf(),
    {
        proof {
            use_type_invariant(&*self);
        }
        if data.len() == 0 {
            return 0;
        }
        if self.txreq {
            return 0;
        }
        let (body, count) = serialize_batch(
            self.server.influxdb_measurement.as_str(),
            self.server.influxdb_tag.as_str(),
            data,
        );
        self.txreq = true;
        self.body = body;
        count
    }

    /// Replaces the routing tag used by later serialisations. A body that is
    /// already in the slot keeps the tag it was made with.
    pub fn set_tag(&mut self, new_tag: String)
        ensures
            final(self)@ == (TransferModel {
                server: ServerModel { tag: new_tag@, ..old(self)@.server },
                ..old(self)@
            }),
            final(self).wf(),
    {
        proof {
            use_type_invariant(&*self);
        }
        self.server.influxdb_tag = new_tag;
    }

    /// Whether a body waits for delivery.
    pub fn is_pending(&self) -> (pending: bool)
        ensures
            pending == self@.pending,
    {
        self.txreq
    }

    /// The endpoint and the names in use.
    pub fn server(&self) -> (server: &ServerInfo)
        ensures
            server@ == self@.server,
    {
        &self.server
    }

    /// The body to deliver, where one is pending.
    pub fn pending_body(&self) -> (body: Option<String>)
        ensures
            self@.pending ==> body is Some && body->0@ == self@.body,
            !self@.pending ==> body is None,
    {
        if self.txreq {
            Some(self.body.clone())
        } else {
            None
        }
    }

    /// Takes the outcome of a delivery: the response status, or nothing where
    /// the request did not get through. Says whether the body was delivered.
    ///
    /// The slot is free afterwards in either case: a body that was not
    /// delivered is dropped.
    pub fn finish_delivery(&mut self, response: Option<u16>) -> (delivered: bool)
        ensures
            delivered == (response == Some(SUCCESS_STATUS)),
            final(self)@ == (TransferModel {
                body: Seq::<char>::empty(),
                pending: false,
                server: old(self)@.server,
            }),
            final(self).wf(),
    {
        self.body = String::new();
        self.txreq = false;
        assert(self@.body =~= Seq::<char>::empty());
        match response {
            Some(status) => status == SUCCESS_STATUS,
            None => false,
        }
    }
}

/// While a body is pending, an offer takes nothing and leaves the agent,
/// and with it the pending body, as it was.
pub proof fn lemma_offer_while_pending(before: TransferModel, data: Seq<CurrentLog>)
    requires
        before.pending,
    ensures
        submitted_count(before, data) == 0,
        submitted(before, data) == before,
{
}

/// An offer to a free agent takes the oldest records, at most as many as
/// one transfer carries, and what it takes is pending afterwards.
pub proof fn lemma_offer_takes_one_chunk(before: TransferModel, data: Seq<CurrentLog>)
    requires
        !before.pending,
        data.len() > 0,
    ensures
        0 < submitted_count(before, data) <= CHUNK_RECORDS,
        submitted_count(before, data) <= data.len(),
        data.len() >= CHUNK_RECORDS ==> submitted_count(before, data) == CHUNK_RECORDS,
        submitted(before, data).pending,
{
}

/// The body of a batch is the body of its older records followed by the
/// line of its newest.
pub proof fn lemma_body_grows_by_lines(
    measurement: Seq<char>,
    tag: Seq<char>,
    records: Seq<CurrentLog>,
    record: CurrentLog,
)
    ensures
        batch_body(measurement, tag, records.push(record)) == batch_body(measurement, tag, records)
            + record_line(measurement, tag, record),
{
    assert(records.push(record).drop_last() =~= records);
}

} // verus!
