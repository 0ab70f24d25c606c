//! Brokers as the relational store holds them, the commands a live session
//! takes, and the registry of live sessions.

use vstd::prelude::*;
use std::collections::HashMap;
use crate::paginate::{page_position, PagePosition, Pagination, PaginationFrom};

verus! {

broadcast use vstd::std_specs::hash::group_hash_axioms;

/// The message a broker publishes for a client that went away uncleanly.
#[derive(Debug, Clone)]
pub struct LastWill {
    pub topic: String,
    pub payload: String,
    pub qos: i32,
    pub retained: bool,
}

/// A broker row of the relational store. Times are milliseconds since the
/// Unix epoch.
#[derive(Debug, Clone)]
pub struct Broker {
    pub id: i32,
    pub uuid: u128,
    pub server_host: String,
    pub server_port: i32,
    pub server_id: String,
    pub server_version: i32,
    pub keep_alive: i32,
    pub clean_session: bool,
    pub last_will_topic: Option<String>,
    pub last_will_message: Option<String>,
    pub last_will_qos: Option<i32>,
    pub last_will_retain: Option<bool>,
    pub connected: Option<bool>,
    pub created_at: Option<i64>,
    pub updated_at: Option<i64>,
    pub deleted_at: Option<i64>,
}

/// What an administrator sends to register a broker.
#[derive(Debug, Clone)]
pub struct BrokerCreate {
    pub host: String,
    pub port: i32,
    pub client_id: String,
    pub version: i32,
    pub keep_alive: i32,
    pub clean_session: bool,
    pub last_will_topic: Option<String>,
    pub last_will_message: Option<String>,
    pub last_will_qos: Option<i32>,
    pub last_will_retain: Option<bool>,
}

/// A broker as the API shows it. `connected` mirrors the live state and is
/// written only by the state synchronizer.
#[derive(Debug, Clone)]
pub struct BrokerResponse {
    pub uuid: u128,
    pub host: String,
    pub port: i32,
    pub client_id: String,
    pub version: i32,
    pub version_text: String,
    pub keep_alive: i32,
    pub clean_session: bool,
    pub last_will_topic: Option<String>,
    pub last_will_message: Option<String>,
    pub last_will_qos: Option<i32>,
    pub last_will_retain: Option<bool>,
    pub connected: bool,
    pub created_at: Option<i64>,
    pub updated_at: Option<i64>,
    pub deleted_at: Option<i64>,
}

/// One page of brokers, with where the page stands in the whole list.
#[derive(Debug)]
pub struct BrokerPaginationResponse {
    pub brokers: Vec<BrokerResponse>,
    pub pagination: PaginationFrom,
    pub total_count: i64,
    pub total_pages: u32,
    pub current_page: u32,
    pub next_page: Option<i64>,
    pub previous_page: Option<i64>,
    pub first_page: u32,
    pub last_page: u32,
    pub has_next_page: bool,
}

impl BrokerPaginationResponse {
    /// Where this page stands in the whole list.
    pub open spec fn position(&self) -> PagePosition {
        PagePosition {
            total_pages: self.total_pages,
            current_page: self.current_page,
            next_page: self.next_page,
            previous_page: self.previous_page,
            first_page: self.first_page,
            last_page: self.last_page,
            has_next_page: self.has_next_page,
        }
    }

    /// Wraps one page of brokers. The page shown is the requested one held
    /// between the first and the last page of the list.
    pub fn new(brokers: Vec<BrokerResponse>, total_count: i64, page: u32, page_size: u32) -> (r:
        Self)
        ensures
            r.brokers == brokers,
            r.total_count == total_count,
            r.position() == page_position(total_count, page, page_size),
            r.pagination == (PaginationFrom { page: r.current_page, page_size }),
    {
        let at = PagePosition::locate(total_count, page, page_size);
        BrokerPaginationResponse {
            brokers,
            pagination: PaginationFrom { page: at.current_page, page_size },
            total_count,
            total_pages: at.total_pages,
            current_page: at.current_page,
            next_page: at.next_page,
            previous_page: at.previous_page,
            first_page: at.first_page,
            last_page: at.last_page,
            has_next_page: at.has_next_page,
        }
    }
}

/// What a list query for brokers may filter by.
#[derive(Debug)]
pub struct BrokerFilter {
    pub id: Option<i32>,
    pub uuid: Option<u128>,
    pub host: Option<String>,
    pub port: Option<i32>,
    pub connected: Option<bool>,
    pub pagination: Pagination,
}

/// What an administrator sends to change a broker.
#[derive(Debug)]
pub struct BrokerUpdate {
    pub host: String,
    pub port: i32,
    pub client_id: String,
    pub version: i32,
    pub keep_alive: i32,
    pub clean_session: bool,
    pub last_will_topic: String,
    pub last_will_message: String,
    pub last_will_qos: i32,
    pub last_will_retain: bool,
    pub connected: bool,
}

/// A runtime instruction for a live session.
#[derive(Debug)]
pub enum BrokerCommand {
    Subscribe { topic: String, qos: i32 },
    Unsubscribe { topic: String },
}

/// How many commands a session's queue holds at most.
pub const COMMAND_QUEUE_CAPACITY: usize = 32;

/// One broker's live session as the registry holds it: the transport handle
/// (a number by which the owner of the connection finds it), the
/// cancellation signal, and the queue of commands that the supervising loop
/// has not taken yet, the oldest first.
#[derive(Debug)]
pub struct BrokerHandle {
    pub client: u64,
    pub cancelled: bool,
    pub commands: Vec<BrokerCommand>,
}

impl BrokerHandle {
    /// The queue is within its bound.
    pub open spec fn wf(&self) -> bool {
        self.commands@.len() <= COMMAND_QUEUE_CAPACITY
    }

    /// A handle for a session that has just been opened: not cancelled, no
    /// command waiting.
    pub fn new(client: u64) -> (h: BrokerHandle)
        ensures
            h.wf(),
            h.client == client,
            !h.cancelled,
            h.commands@ == Seq::<BrokerCommand>::empty(),
    {
        BrokerHandle { client, cancelled: false, commands: Vec::new() }
    }
}

/// What became of a command that was handed to a session's queue. The
/// registry does not wait: a command that was not queued comes back, so
/// that a caller who finds the queue full can wait for room and send the
/// command again.
#[derive(Debug)]
pub enum SendOutcome {
    /// The command waits in the queue, behind those that waited before.
    Queued,
    /// The session's queue is full; nothing has changed.
    QueueFull(BrokerCommand),
    /// The broker has no live session; nothing has changed.
    NoSession(BrokerCommand),
}

/// The registry of live sessions: at most one handle for each broker.
pub struct BrokerManager {
    brokers: HashMap<u128, BrokerHandle>,
}

impl View for BrokerManager {
    type V = Map<u128, BrokerHandle>;

    closed spec fn view(&self) -> Map<u128, BrokerHandle> {
        self.brokers@
    }
}

impl BrokerManager {
    /// Every queue in the registry is within its bound.
    pub open spec fn wf(&self) -> bool {
        forall|id: u128| #[trigger] self@.contains_key(id) ==> self@[id].wf()
    }

    /// How many handles the registry holds for one broker.
    pub open spec fn handles_for(&self, broker_uuid: u128) -> nat {
        if self@.contains_key(broker_uuid) {
            1
        } else {
            0
        }
    }

    /// A registry without sessions.
    pub fn new() -> (m: BrokerManager)
        ensures
            m.wf(),
            m@ == Map::<u128, BrokerHandle>::empty(),
    {
        BrokerManager { brokers: HashMap::new() }
    }

    /// Registers `handle` as the session of `broker_uuid`. A handle that was
    /// registered for that broker before is replaced, so that there is never
    /// more than one.
    pub fn insert(&mut self, broker_uuid: u128, handle: BrokerHandle)
        requires
            old(self).wf(),
            handle.wf(),
        ensures
            final(self).wf(),
            final(self)@ == old(self)@.insert(broker_uuid, handle),
    {
        self.brokers.insert(broker_uuid, handle);
        assert forall|id: u128| #[trigger] self@.contains_key(id) implies self@[id].wf() by {
            if id != broker_uuid {
                assert(old(self)@.contains_key(id));
            }
        }
    }

    /// Registers `handle` as the session of `broker_uuid` unless the broker
    /// has a session already: then the registry stays as it is and the answer
    /// is `false`.
    pub fn register(&mut self, broker_uuid: u128, handle: BrokerHandle) -> (registered: bool)
        requires
            old(self).wf(),
            handle.wf(),
        ensures
            final(self).wf(),
            registered == !old(self)@.contains_key(broker_uuid),
            registered ==> final(self)@ == old(self)@.insert(broker_uuid, handle),
            !registered ==> final(self)@ == old(self)@,
    {
        if self.brokers.contains_key(&broker_uuid) {
            false
        } else {
            self.insert(broker_uuid, handle);
            true
        }
    }

    /// The session of `broker_uuid`, or `None` where the broker has no live
    /// session.
    pub fn get(&self, broker_uuid: &u128) -> (h: Option<&BrokerHandle>)
        ensures
            match h {
                Some(handle) => self@.contains_key(*broker_uuid) && *handle == self@[*broker_uuid],
                None => !self@.contains_key(*broker_uuid),
            },
    {
        self.brokers.get(broker_uuid)
    }

    /// Whether `broker_uuid` has a live session.
    pub fn contains(&self, broker_uuid: &u128) -> (found: bool)
        ensures
            found == self@.contains_key(*broker_uuid),
    {
        self.brokers.contains_key(broker_uuid)
    }

    /// How many sessions are live.
    pub fn len(&self) -> (n: usize)
        ensures
            n == self@.len(),
    {
        self.brokers.len()
    }

    /// Takes the session of `broker_uuid` out of the registry. The other
    /// sessions stay as they are.
    pub fn remove(&mut self, broker_uuid: &u128)
        requires
            old(self).wf(),
        ensures
            final(self).wf(),
            final(self)@ == old(self)@.remove(*broker_uuid),
    {
        self.brokers.remove(broker_uuid);
    }

    /// Signals cancellation to the session of `broker_uuid`. Says whether
    /// there was such a session; without one nothing changes.
    pub fn cancel(&mut self, broker_uuid: &u128) -> (found: bool)
        requires
            old(self).wf(),
        ensures
            final(self).wf(),
            found == old(self)@.contains_key(*broker_uuid),
            found ==> final(self)@ == old(self)@.insert(
                *broker_uuid,
                (BrokerHandle {
                    client: old(self)@[*broker_uuid].client,
                    cancelled: true,
                    commands: old(self)@[*broker_uuid].commands,
                }),
            ),
            !found ==> final(self)@ == old(self)@,
    {
        match self.brokers.remove(broker_uuid) {
            Some(handle) => {
                let BrokerHandle { client, cancelled: _, commands } = handle;
                self.brokers.insert(*broker_uuid, BrokerHandle { client, cancelled: true, commands });
                true
            },
            None => {
                assert(self@ =~= old(self)@);
                false
            },
        }
    }

    /// Whether cancellation has been signalled to the session of
    /// `broker_uuid`. A broker without a session counts as not cancelled.
    pub fn is_cancelled(&self, broker_uuid: &u128) -> (cancelled: bool)
        ensures
            cancelled == (self@.contains_key(*broker_uuid) && self@[*broker_uuid].cancelled),
    {
        match self.brokers.get(broker_uuid) {
            Some(handle) => handle.cancelled,
            None => false,
        }
    }

    /// Queues `command` behind the commands that wait for the session of
    /// `broker_uuid`, if the session is there and its queue has room. Where
    /// it is not queued the registry stays as it is and the command comes
    /// back.
    pub fn send(&mut self, broker_uuid: &u128, command: BrokerCommand) -> (r: SendOutcome)
        requires
            old(self).wf(),
        ensures
            final(self).wf(),
            match r {
                SendOutcome::Queued => {
                    &&& old(self)@.contains_key(*broker_uuid)
                    &&& old(self)@[*broker_uuid].commands@.len() < COMMAND_QUEUE_CAPACITY
                    &&& final(self)@.dom() == old(self)@.dom()
                    &&& final(self)@[*broker_uuid].client == old(self)@[*broker_uuid].client
                    &&& final(self)@[*broker_uuid].cancelled == old(self)@[*broker_uuid].cancelled
                    &&& final(self)@[*broker_uuid].commands@ == old(
                        self,
                    )@[*broker_uuid].commands@.push(command)
                    &&& forall|other: u128|
                        other != *broker_uuid && #[trigger] old(self)@.contains_key(other)
                            ==> final(self)@[other] == old(self)@[other]
                },
                SendOutcome::NoSession(back) => {
                    &&& !old(self)@.contains_key(*broker_uuid)
                    &&& final(self)@ == old(self)@
                    &&& back == command
                },
                SendOutcome::QueueFull(back) => {
                    &&& old(self)@.contains_key(*broker_uuid)
                    &&& old(self)@[*broker_uuid].commands@.len() == COMMAND_QUEUE_CAPACITY
                    &&& final(self)@ == old(self)@
                    &&& back == command
                },
            },
    {
        match self.brokers.remove(broker_uuid) {
            Some(handle) => {
                if handle.commands.len() >= COMMAND_QUEUE_CAPACITY {
                    self.brokers.insert(*broker_uuid, handle);
                    assert(self@ =~= old(self)@);
                    SendOutcome::QueueFull(command)
                } else {
                    let BrokerHandle { client, cancelled, mut commands } = handle;
                    commands.push(command);
                    self.brokers.insert(*broker_uuid, BrokerHandle { client, cancelled, commands });
                    assert(self@.dom() =~= old(self)@.dom());
                    SendOutcome::Queued
                }
            },
            None => {
                assert(self@ =~= old(self)@);
                SendOutcome::NoSession(command)
            },
        }
    }

    /// Takes the oldest waiting command of the session of `broker_uuid`, or
    /// `None` where nothing waits or the broker has no session.
    pub fn next_command(&mut self, broker_uuid: &u128) -> (c: Option<BrokerCommand>)
        requires
            old(self).wf(),
        ensures
            final(self).wf(),
            match c {
                Some(command) => {
                    &&& old(self)@.contains_key(*broker_uuid)
                    &&& old(self)@[*broker_uuid].commands@.len() > 0
                    &&& command == old(self)@[*broker_uuid].commands@[0]
                    &&& final(self)@.dom() == old(self)@.dom()
                    &&& final(self)@[*broker_uuid].client == old(self)@[*broker_uuid].client
                    &&& final(self)@[*broker_uuid].cancelled == old(self)@[*broker_uuid].cancelled
                    &&& final(self)@[*broker_uuid].commands@ == old(
                        self,
                    )@[*broker_uuid].commands@.drop_first()
                    &&& forall|other: u128|
                        other != *broker_uuid && #[trigger] old(self)@.contains_key(other)
                            ==> final(self)@[other] == old(self)@[other]
                },
                None => {
                    &&& final(self)@ == old(self)@
                    &&& old(self)@.contains_key(*broker_uuid) ==> old(
                        self,
                    )@[*broker_uuid].commands@.len() == 0
                },
            },
    {
        match self.brokers.remove(broker_uuid) {
            Some(handle) => {
                if handle.commands.len() == 0 {
                    self.brokers.insert(*broker_uuid, handle);
                    assert(self@ =~= old(self)@);
                    None
                } else {
                    let BrokerHandle { client, cancelled, mut commands } = handle;
                    let command = commands.remove(0);
                    assert(commands@ =~= old(self)@[*broker_uuid].commands@.drop_first());
                    self.brokers.insert(*broker_uuid, BrokerHandle { client, cancelled, commands });
                    assert(self@.dom() =~= old(self)@.dom());
                    Some(command)
                }
            },
            None => {
                assert(self@ =~= old(self)@);
                None
            },
        }
    }
}

impl Default for BrokerManager {
    /// A registry without sessions.
    fn default() -> (m: BrokerManager)
        ensures
            m.wf(),
            m@ == Map::<u128, BrokerHandle>::empty(),
    {
        BrokerManager::new()
    }
}

/// Commands leave a queue in the order in which they entered it: of two
/// commands queued one after the other behind `waiting`, the first is taken
/// before the second, and both after everything that waited.
pub proof fn lemma_commands_in_order(waiting: Seq<BrokerCommand>, first: BrokerCommand, second: BrokerCommand)
    ensures
        ({
            let queue = waiting.push(first).push(second);
            &&& queue.len() == waiting.len() + 2
            &&& forall|i: int| 0 <= i < waiting.len() ==> queue[i] == waiting[i]
            &&& queue[waiting.len() as int] == first
            &&& queue[waiting.len() as int + 1] == second
            &&& waiting.len() == 0 ==> queue[0] == first && queue.drop_first()[0] == second
        }),
{
}

/// Of two attempts in a row to register a session for the same broker,
/// exactly one succeeds: the first if the broker had no session, neither
/// otherwise (then the session that was there stays).
pub proof fn lemma_register_once(before: Map<u128, BrokerHandle>, broker_uuid: u128, first: BrokerHandle, second: BrokerHandle)
    ensures
        ({
            let first_ok = !before.contains_key(broker_uuid);
            let between = if first_ok {
                before.insert(broker_uuid, first)
            } else {
                before
            };
            let second_ok = !between.contains_key(broker_uuid);
            let after = if second_ok {
                between.insert(broker_uuid, second)
            } else {
                between
            };
            &&& !second_ok
            &&& after == between
            &&& first_ok ==> after[broker_uuid] == first
            &&& !first_ok ==> after == before
        }),
{
}

/// The registry never holds two handles for one broker, whatever its state.
pub proof fn lemma_one_handle_per_broker(manager: BrokerManager, broker_uuid: u128)
    ensures
        manager.handles_for(broker_uuid) <= 1,
{
}

} // verus!
