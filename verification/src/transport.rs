//! What a transport session to a broker is opened with, as plain values.

use vstd::prelude::*;

verus! {

/// Where the broker is and who connects.
#[derive(Debug)]
pub struct Options {
    pub server_host: String,
    pub server_port: u32,
    pub client_id: String,
    pub version: i32,
}

/// The last will handed to the broker at connect time.
#[derive(Debug)]
pub struct Will {
    pub topic: String,
    pub payload: String,
    pub qos: i32,
    pub retained: bool,
}

/// How the session behaves once it is open.
#[derive(Debug)]
pub struct ConnectionOptions {
    pub keep_alive: u64,
    pub clean_session: bool,
    pub will: Option<Will>,
}

/// One device that subscribes at connect time.
#[derive(Debug)]
pub struct DeviceMessageSubscribe {
    pub device_uuid: u128,
    pub message_uuid: u128,
    pub topic: String,
    pub qos: i32,
}

/// A batch of subscriptions: the topic at each position goes with the
/// quality of service at the same position.
#[derive(Debug)]
pub struct SubscribeTopicQos {
    pub topics: Vec<String>,
    pub qoss: Vec<i32>,
}

impl SubscribeTopicQos {
    /// Every topic has its quality of service.
    pub open spec fn wf(&self) -> bool {
        self.topics@.len() == self.qoss@.len()
    }

    /// Whether this batch subscribes, in order, to what `subs` lists.
    pub open spec fn is_batch_of(&self, subs: Seq<DeviceMessageSubscribe>) -> bool {
        &&& self.topics@.len() == subs.len()
        &&& self.qoss@.len() == subs.len()
        &&& forall|i: int|
            0 <= i < subs.len() ==> (#[trigger] self.topics@[i])@ == subs[i].topic@ && self.qoss@[i]
                == subs[i].qos
    }

    /// Whether the batch holds no subscription.
    pub fn is_empty(&self) -> (empty: bool)
        ensures
            empty == (self.topics@.len() == 0),
    {
        self.topics.len() == 0
    }
}

} // verus!
