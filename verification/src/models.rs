use crate::numfmt::{dec_str, rate_string, u64_to_dec_string};
use std::collections::HashMap;
use vstd::prelude::*;
use vstd::string::StringExecFns;

verus! {

/// How the broker should encode a popped message body.
#[derive(Debug, Clone, Copy)]
pub enum MQEncoding {
    Auto,
}

/// Acknowledgement mode sent along with a message pop.
#[derive(Debug, Clone, Copy)]
pub enum Ackmode {
    AckRequeueTrue,
    AckRequeueFalse,
    RejectRequeueTrue,
    RejectRequeueFalse,
}

/// A value that renders to one table row of cell texts.
pub trait Rowable {
    /// The texts of the row's cells.
    spec fn spec_row(&self) -> Seq<Seq<char>>;

    /// Render the row.
    fn to_row(&self) -> (r: Vec<String>)
        ensures
            r@.map_values(|s: String| s@) == self.spec_row(),
    ;
}

/// One exchange as the management API reports it.
#[derive(Debug)]
pub struct ExchangeInfo {
    pub auto_delete: bool,
    pub durable: bool,
    pub internal: bool,
    pub name: String,
    pub t: String,
    pub user_who_performed_action: String,
    pub vhost: String,
}

impl ExchangeInfo {
    /// Column titles of the exchanges table.
    pub fn headers<'a>() -> (r: [&'a str; 2])
        ensures
            r@[0]@ == "Name"@,
            r@[1]@ == "Type"@,
    {
        ["Name", "Type"]
    }
}

impl Rowable for ExchangeInfo {
    open spec fn spec_row(&self) -> Seq<Seq<char>> {
        seq![
            if self.name@.len() == 0 {
                "(AMQP DEFAULT)"@
            } else {
                self.name@
            },
            self.t@,
        ]
    }

    fn to_row(&self) -> (r: Vec<String>) {
        let nice_name = if self.name.as_str().is_empty() {
            "(AMQP DEFAULT)".to_owned()
        } else {
            self.name.clone()
        };
        let mut v: Vec<String> = Vec::new();
        v.push(nice_name);
        v.push(self.t.clone());
        proof {
            assert(v@.map_values(|s: String| s@) =~= self.spec_row());
        }
        v
    }
}

/// One binding from an exchange, as the management API reports it.
#[derive(Debug)]
pub struct ExchangeBindings {
    pub source: String,
    pub vhost: String,
    pub dest: String,
    pub dest_type: String,
    pub routing_key: String,
    pub prop_key: String,
}

impl ExchangeBindings {
    /// Column titles of the bindings drilldown table.
    pub fn headers<'a>() -> (r: [&'a str; 2])
        ensures
            r@[0]@ == "To"@,
            r@[1]@ == "Routing key"@,
    {
        ["To", "Routing key"]
    }
}

impl Rowable for ExchangeBindings {
    open spec fn spec_row(&self) -> Seq<Seq<char>> {
        seq![self.dest@, self.routing_key@]
    }

    fn to_row(&self) -> (r: Vec<String>) {
        let mut v: Vec<String> = Vec::new();
        v.push(self.dest.clone());
        v.push(self.routing_key.clone());
        proof {
            assert(v@.map_values(|s: String| s@) =~= self.spec_row());
        }
        v
    }
}

/// A rate reported by the management API. Rates arrive as decimals; they are
/// carried here in fixed point, scaled to whole units, which is what the
/// tables and charts display.
#[derive(Debug, Clone, Copy)]
pub struct RateContainer {
    pub rate: u64,
}

/// Cluster-wide queue totals from the overview endpoint.
#[derive(Debug, Clone, Copy)]
pub struct OverviewQueueTotals {
    pub messages: u64,
    pub messages_ready: u64,
    pub messages_unacked: u64,
}

/// Cluster-wide disk message rates from the overview endpoint.
#[derive(Debug, Clone, Copy)]
pub struct OverviewMessageRates {
    pub disk_reads: u64,
    pub disk_reads_details: RateContainer,
    pub disk_writes: u64,
    pub disk_writes_details: RateContainer,
}

/// The overview endpoint's payload: totals and throughput rates.
#[derive(Debug, Clone, Copy)]
pub struct Overview {
    pub queue_totals: OverviewQueueTotals,
    pub message_stats: OverviewMessageRates,
}

/// Per-queue message statistics.
#[derive(Debug, Clone, Copy)]
pub struct QueueMsgStats {
    pub publish: u64,
    pub publish_details: RateContainer,
    pub deliver_get: u64,
    pub deliver_get_details: RateContainer,
    pub ack: u64,
    pub ack_details: RateContainer,
}

/// One queue as the management API reports it.
#[derive(Debug)]
pub struct QueueInfo {
    pub name: String,
    pub t: String,
    pub state: String,
    pub message_stats: QueueMsgStats,
    pub ready: u64,
    pub unacked: u64,
    pub total: u64,
    pub vhost: String,
}

impl QueueInfo {
    /// Column titles of the queues table.
    pub fn headers<'a>() -> (r: [&'a str; 9])
        ensures
            r@[0]@ == "Name"@,
            r@[1]@ == "Type"@,
            r@[2]@ == "State"@,
            r@[3]@ == "Ready"@,
            r@[4]@ == "Unacked"@,
            r@[5]@ == "Total"@,
            r@[6]@ == "Incoming"@,
            r@[7]@ == "Deliver / Get"@,
            r@[8]@ == "Ack"@,
    {
        [
            "Name",
            "Type",
            "State",
            "Ready",
            "Unacked",
            "Total",
            "Incoming",
            "Deliver / Get",
            "Ack",
        ]
    }
}

impl Rowable for QueueInfo {
    open spec fn spec_row(&self) -> Seq<Seq<char>> {
        seq![
            self.name@,
            self.t@,
            self.state@,
            dec_str(self.ready as nat),
            dec_str(self.unacked as nat),
            dec_str(self.total as nat),
            dec_str(self.message_stats.publish_details.rate as nat) + "/s"@,
            dec_str(self.message_stats.deliver_get_details.rate as nat) + "/s"@,
            dec_str(self.message_stats.ack_details.rate as nat) + "/s"@,
        ]
    }

    fn to_row(&self) -> (r: Vec<String>) {
        let mut v: Vec<String> = Vec::new();
        v.push(self.name.clone());
        v.push(self.t.clone());
        v.push(self.state.clone());
        v.push(u64_to_dec_string(self.ready));
        v.push(u64_to_dec_string(self.unacked));
        v.push(u64_to_dec_string(self.total));
        v.push(rate_string(self.message_stats.publish_details.rate));
        v.push(rate_string(self.message_stats.deliver_get_details.rate));
        v.push(rate_string(self.message_stats.ack_details.rate));
        proof {
            assert(v@.map_values(|s: String| s@) =~= self.spec_row());
        }
        v
    }
}

/// Body of a publish request.
#[derive(Debug)]
pub struct PayloadPost {
    pub properties: HashMap<String, String>,
    pub routing_key: String,
    pub payload: String,
    pub encoding: String,
}

impl Default for PayloadPost {
    /// An empty publish body: no properties, empty routing key and payload,
    /// plain string encoding.
    fn default() -> (r: Self)
        ensures
            r.properties@ == Map::<String, String>::empty(),
            r.routing_key@ == Seq::<char>::empty(),
            r.payload@ == Seq::<char>::empty(),
            r.encoding@ == "string"@,
    {
        proof {
            reveal_strlit("");
        }
        PayloadPost {
            properties: HashMap::new(),
            routing_key: "".to_owned(),
            payload: "".to_owned(),
            encoding: "string".to_owned(),
        }
    }
}

impl PayloadPost {
    /// Set the routing key, builder style.
    pub fn routing_key(self, key: String) -> (r: Self)
        ensures
            r.routing_key == key,
            r.properties == self.properties,
            r.payload == self.payload,
            r.encoding == self.encoding,
    {
        PayloadPost { routing_key: key, ..self }
    }

    /// Set the payload, builder style.
    pub fn payload(self, payload: String) -> (r: Self)
        ensures
            r.payload == payload,
            r.properties == self.properties,
            r.routing_key == self.routing_key,
            r.encoding == self.encoding,
    {
        PayloadPost { payload, ..self }
    }
}

/// Body of a message pop request.
#[derive(Debug)]
pub struct MQMessageGetBody {
    count: u64,
    ackmode: Ackmode,
    encoding: MQEncoding,
}

impl MQMessageGetBody {
    /// How many messages are asked for.
    pub closed spec fn spec_count(&self) -> u64 {
        self.count
    }

    /// The acknowledgement mode sent.
    pub closed spec fn spec_ackmode(&self) -> Ackmode {
        self.ackmode
    }

    /// The body encoding asked for.
    pub closed spec fn spec_encoding(&self) -> MQEncoding {
        self.encoding
    }
}

impl Default for MQMessageGetBody {
    /// Pop a single message, leaving it on the queue (reject with requeue),
    /// with automatic payload encoding.
    fn default() -> (r: Self)
        ensures
            r.spec_count() == 1,
            r.spec_ackmode() is RejectRequeueTrue,
            r.spec_encoding() is Auto,
    {
        MQMessageGetBody { count: 1, ackmode: Ackmode::RejectRequeueTrue, encoding: MQEncoding::Auto }
    }
}

/// One message popped from a queue.
#[derive(Debug)]
pub struct MQMessage {
    pub payload_bytes: u64,
    pub redelivered: bool,
    pub exchange: String,
    pub routing_key: String,
    pub payload: String,
}

/// The message a pop hands to the caller: the first of the returned batch,
/// or nothing when the queue had none.
pub fn first_message(msgs: Vec<MQMessage>) -> (r: Option<MQMessage>)
    ensures
        msgs@.len() == 0 <==> r is None,
        r matches Some(m) ==> m == msgs@[0],
{
    let mut msgs = msgs;
    if msgs.is_empty() {
        None
    } else {
        Some(msgs.remove(0))
    }
}

} // verus!
