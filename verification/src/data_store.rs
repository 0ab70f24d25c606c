//! The message ingestion pipeline and the document collection it writes to.
//! A message that arrives on a device's topic becomes the latest reading of
//! one metric of that device; nothing else of the device changes, and no
//! device comes into being by it.

use vstd::prelude::*;
use vstd::string::*;
use std::collections::HashMap;
use crate::error_app::{AppError, AppErrorView, AppMsgErrorView};
use crate::ident::{format_uuid, uuid_text};
use crate::latest_values::{DeviceMessageReceived, LatestValues, ReadingView, Timestamp};
use crate::topic::{decode_topic, device_decompose_topic, DecomposeTopic, DecomposeTopicView};

verus! {

broadcast use vstd::std_specs::hash::group_hash_axioms;

/// What `chrono::DateTime::parse_from_rfc3339` reads from `text`, if it
/// accepts it: seconds and nanoseconds since the Unix epoch in UTC, and the
/// offset of the written zone in seconds east of UTC.
pub uninterp spec fn rfc3339_parse(text: Seq<char>) -> Option<(i64, u32, i32)>;

/// Whether `chrono::DateTime::<Utc>::from_timestamp` has a point in time for
/// these seconds and nanoseconds.
pub uninterp spec fn utc_timestamp_exists(secs: i64, nsecs: u32) -> bool;

/// Reads a point in time with `chrono::DateTime::parse_from_rfc3339` and takes
/// it apart with `timestamp`, `timestamp_subsec_nanos` and the offset's
/// `local_minus_utc`. The contract names the outcome.
#[verifier::external_body]
pub(crate) fn parse_rfc3339(text: &str) -> (r: Option<(i64, u32, i32)>)
    ensures
        r == rfc3339_parse(text@),
{
    match chrono::DateTime::parse_from_rfc3339(text) {
        Ok(t) => Some((t.timestamp(), t.timestamp_subsec_nanos(), t.offset().local_minus_utc())),
        Err(_) => None,
    }
}

/// Asks `chrono::DateTime::<Utc>::from_timestamp` whether it has a point in
/// time for these seconds and nanoseconds. The contract names the answer.
#[verifier::external_body]
pub(crate) fn has_utc_timestamp(secs: i64, nsecs: u32) -> (r: bool)
    ensures
        r == utc_timestamp_exists(secs, nsecs),
{
    chrono::DateTime::<chrono::Utc>::from_timestamp(secs, nsecs).is_some()
}

/// A point in time in UTC: seconds since the Unix epoch and nanoseconds
/// since the last whole second.
#[derive(Debug, Clone, Copy, PartialEq, Eq, Structural)]
pub struct UtcTime {
    pub secs: i64,
    pub nanos: u32,
}

/// The whole seconds in `millis` milliseconds, rounded towards zero.
pub open spec fn millis_secs(millis: i64) -> i64 {
    if millis >= 0 {
        (millis / 1000) as i64
    } else {
        (-((-millis) / 1000)) as i64
    }
}

/// The nanoseconds that the store's conversion hands on for `millis`
/// milliseconds: those of the milliseconds beyond the whole seconds, and for
/// a time before the epoch that is not on a whole second the same negative
/// number wrapped around into the unsigned range.
pub open spec fn millis_nanos(millis: i64) -> u32 {
    let rest = millis - millis_secs(millis) * 1000;
    if rest >= 0 {
        (rest * 1_000_000) as u32
    } else {
        (0x1_0000_0000 + rest * 1_000_000) as u32
    }
}

/// The point in time for a split time of the document store, given whether
/// there is such a point.
pub open spec fn utc_time_of(secs: i64, nsecs: u32, exists: bool) -> Result<UtcTime, AppErrorView> {
    if exists {
        Ok(UtcTime { secs, nanos: nsecs })
    } else {
        Err(
            AppErrorView::MongoDBError(
                AppMsgErrorView {
                    api_msg_error: "Internal server error"@,
                    log_msg_error: "Error converting bson to chrono"@,
                },
            ),
        )
    }
}

/// Whether an executable conversion outcome is the mathematical one.
pub open spec fn is_utc_time(got: Result<UtcTime, AppError>, expected: Result<UtcTime, AppErrorView>) -> bool {
    match got {
        Ok(t) => expected == Ok::<UtcTime, AppErrorView>(t),
        Err(e) => expected == Err::<UtcTime, AppErrorView>(e@),
    }
}

/// The point in time for a split time of the document store, from whether
/// there is such a point.
pub fn utc_time_from(secs: i64, nsecs: u32, exists: bool) -> (r: Result<UtcTime, AppError>)
    ensures
        is_utc_time(r, utc_time_of(secs, nsecs, exists)),
{
    if exists {
        Ok(UtcTime { secs, nanos: nsecs })
    } else {
        Err(AppError::mongo("Error converting bson to chrono".to_owned()))
    }
}

/// Converts a time of the document store, in milliseconds since the Unix
/// epoch, to a point in time in UTC.
pub fn bson_to_chrono(millis: i64) -> (r: Result<UtcTime, AppError>)
    ensures
        is_utc_time(
            r,
            utc_time_of(
                millis_secs(millis),
                millis_nanos(millis),
                utc_timestamp_exists(millis_secs(millis), millis_nanos(millis)),
            ),
        ),
{
    let secs: i64 = if millis >= 0 {
        millis / 1000
    } else if millis == i64::MIN {
        -9223372036854775
    } else {
        -((-millis) / 1000)
    };
    let rest: i64 = millis - secs * 1000;
    let nsecs: u32 = if rest >= 0 {
        (rest * 1_000_000) as u32
    } else {
        (0x1_0000_0000 + rest * 1_000_000) as u32
    };
    let exists = has_utc_timestamp(secs, nsecs);
    utc_time_from(secs, nsecs, exists)
}

/// A decoded inbound message: the topic it came on, the value it carries,
/// the metric and scale its sender gave, and the time of the reading as an
/// RFC 3339 text.
#[derive(Debug)]
pub struct MessageReceivePayload {
    pub topic: String,
    pub device_uuid: String,
    pub user_uuid: String,
    pub payload: String,
    pub metric: String,
    pub scale: String,
    pub timestamp: String,
}

/// The write that one message amounts to: the reading that becomes the
/// latest of `metric` for the device `device_uuid` of the owner `user_uuid`.
#[derive(Debug)]
pub struct MessageUpdate {
    pub device_uuid: u128,
    pub user_uuid: u128,
    pub metric: String,
    pub reading: DeviceMessageReceived,
    pub updated_at: i64,
}

/// The mathematical content of a [`MessageUpdate`].
pub struct MessageUpdateView {
    pub device_uuid: u128,
    pub user_uuid: u128,
    pub metric: Seq<char>,
    pub reading: ReadingView,
    pub updated_at: i64,
}

impl View for MessageUpdate {
    type V = MessageUpdateView;

    open spec fn view(&self) -> MessageUpdateView {
        MessageUpdateView {
            device_uuid: self.device_uuid,
            user_uuid: self.user_uuid,
            metric: self.metric@,
            reading: self.reading@,
            updated_at: self.updated_at,
        }
    }
}

/// A device's document in the collection. Times are milliseconds since the
/// Unix epoch.
#[derive(Debug)]
pub struct DeviceData {
    pub device_uuid: u128,
    pub user_uuid: u128,
    pub messages: LatestValues,
    pub created_at: i64,
    pub updated_at: Option<i64>,
    pub deleted_at: Option<i64>,
}

/// The mathematical content of a [`DeviceData`].
pub struct DeviceDataView {
    pub device_uuid: u128,
    pub user_uuid: u128,
    pub messages: Map<Seq<char>, ReadingView>,
    pub created_at: i64,
    pub updated_at: Option<i64>,
    pub deleted_at: Option<i64>,
}

impl View for DeviceData {
    type V = DeviceDataView;

    open spec fn view(&self) -> DeviceDataView {
        DeviceDataView {
            device_uuid: self.device_uuid,
            user_uuid: self.user_uuid,
            messages: self.messages@,
            created_at: self.created_at,
            updated_at: self.updated_at,
            deleted_at: self.deleted_at,
        }
    }
}

/// A device's document as the API shows it: without its readings.
#[derive(Debug, Clone, Copy, PartialEq, Eq, Structural)]
pub struct DeviceDataStoreResponse {
    pub id: u128,
    pub device_uuid: u128,
    pub user_uuid: u128,
    pub created_at: UtcTime,
    pub updated_at: Option<UtcTime>,
    pub deleted_at: Option<UtcTime>,
}

/// The latest readings of one device, as a list query hands them out.
#[derive(Debug)]
pub struct DeviceMessagesOwned {
    pub device_uuid: String,
    pub messages: LatestValues,
}

/// The write that a message on a decoded topic amounts to, given what
/// reading its time gave. A time that cannot be read aborts the ingestion.
pub open spec fn update_of(
    message: MessageReceivePayload,
    topic: DecomposeTopicView,
    parsed: Option<(i64, u32, i32)>,
    now: i64,
) -> Result<MessageUpdateView, AppErrorView> {
    match parsed {
        None => Err(AppErrorView::BadRequest("Invalid timestamp, timestamp: "@ + message.timestamp@)),
        Some((secs, nanos, offset)) => Ok(
            MessageUpdateView {
                device_uuid: topic.device_uuid,
                user_uuid: topic.user_uuid,
                metric: message.metric@,
                reading: ReadingView {
                    value: message.payload@,
                    scale: message.scale@,
                    timestamp: Timestamp { secs, nanos, offset },
                },
                updated_at: now,
            },
        ),
    }
}

/// The write that a message amounts to. A topic that does not decode aborts
/// the ingestion before anything else is looked at.
pub open spec fn plan_of(message: MessageReceivePayload, now: i64) -> Result<
    MessageUpdateView,
    AppErrorView,
> {
    match decode_topic(message.topic@) {
        Err(e) => Err(e),
        Ok(topic) => update_of(message, topic, rfc3339_parse(message.timestamp@), now),
    }
}

/// Whether an executable plan is the mathematical one.
pub open spec fn is_plan(
    got: Result<MessageUpdate, AppError>,
    expected: Result<MessageUpdateView, AppErrorView>,
) -> bool {
    match got {
        Ok(u) => expected == Ok::<MessageUpdateView, AppErrorView>(u@),
        Err(e) => expected == Err::<MessageUpdateView, AppErrorView>(e@),
    }
}

/// Whether the collection holds the device that `update` is for, owned by
/// the owner that `update` names.
pub open spec fn update_matches(store: Map<u128, DeviceDataView>, update: MessageUpdateView) -> bool {
    store.contains_key(update.device_uuid) && store[update.device_uuid].user_uuid == update.user_uuid
}

/// The collection after `update`: where the device is there, its reading of
/// the metric is the new one and its time of change is that of the update;
/// where it is not, nothing has changed.
pub open spec fn store_after(store: Map<u128, DeviceDataView>, update: MessageUpdateView) -> Map<
    u128,
    DeviceDataView,
> {
    if update_matches(store, update) {
        let before = store[update.device_uuid];
        store.insert(
            update.device_uuid,
            DeviceDataView {
                device_uuid: before.device_uuid,
                user_uuid: before.user_uuid,
                messages: before.messages.insert(update.metric, update.reading),
                created_at: before.created_at,
                updated_at: Some(update.updated_at),
                deleted_at: before.deleted_at,
            },
        )
    } else {
        store
    }
}

/// The error of a write that found no device.
pub open spec fn device_not_found(device_uuid: u128, user_uuid: u128) -> AppErrorView {
    AppErrorView::NotFound(
        AppMsgErrorView {
            api_msg_error: "Device not found"@,
            log_msg_error: "Device not found: device_uuid: "@ + uuid_text(device_uuid)
                + ", user_uuid: "@ + uuid_text(user_uuid),
        },
    )
}

/// What the ingestion of `message` reports.
pub open spec fn ingest_result(store: Map<u128, DeviceDataView>, message: MessageReceivePayload, now: i64) -> Result<
    (),
    AppErrorView,
> {
    match plan_of(message, now) {
        Err(e) => Err(e),
        Ok(update) => if update_matches(store, update) {
            Ok(())
        } else {
            Err(device_not_found(update.device_uuid, update.user_uuid))
        },
    }
}

/// The collection after the ingestion of `message`.
pub open spec fn ingest_store(store: Map<u128, DeviceDataView>, message: MessageReceivePayload, now: i64) -> Map<
    u128,
    DeviceDataView,
> {
    match plan_of(message, now) {
        Err(_) => store,
        Ok(update) => store_after(store, update),
    }
}

/// The write that a message on a decoded topic amounts to, from what reading
/// its time gave.
pub fn message_update(
    message: &MessageReceivePayload,
    decompose_topic: &DecomposeTopic,
    parsed: Option<(i64, u32, i32)>,
    now: i64,
) -> (r: Result<MessageUpdate, AppError>)
    ensures
        is_plan(r, update_of(*message, decompose_topic@, parsed, now)),
{
    match parsed {
        None => Err(
            AppError::BadRequest(
                "Invalid timestamp, timestamp: ".to_owned().concat(message.timestamp.as_str()),
            ),
        ),
        Some((secs, nanos, offset)) => Ok(
            MessageUpdate {
                device_uuid: decompose_topic.device_uuid,
                user_uuid: decompose_topic.user_uuid,
                metric: message.metric.clone(),
                reading: DeviceMessageReceived {
                    value: message.payload.clone(),
                    scale: message.scale.clone(),
                    timestamp: Timestamp { secs, nanos, offset },
                },
                updated_at: now,
            },
        ),
    }
}

/// Works out the write that a message on a decoded topic amounts to: its
/// value and scale, read at the time it names, become the latest reading of
/// its metric. `now` becomes the document's time of change.
pub fn update_device_messages_query(
    message: &MessageReceivePayload,
    decompose_topic: &DecomposeTopic,
    now: i64,
) -> (r: Result<MessageUpdate, AppError>)
    ensures
        is_plan(
            r,
            update_of(*message, decompose_topic@, rfc3339_parse(message.timestamp@), now),
        ),
{
    let parsed = parse_rfc3339(message.timestamp.as_str());
    message_update(message, decompose_topic, parsed, now)
}

/// Works out the write that a message amounts to, from its topic on.
pub fn plan_device_update(message: &MessageReceivePayload, now: i64) -> (r: Result<
    MessageUpdate,
    AppError,
>)
    ensures
        is_plan(r, plan_of(*message, now)),
{
    match device_decompose_topic(message.topic.as_str()) {
        Err(e) => Err(e),
        Ok(topic) => update_device_messages_query(message, &topic, now),
    }
}

/// What a write reports that matched `matched_count` documents: success if
/// it matched any, a not-found error if it matched none.
pub fn update_outcome(matched_count: u64, device_uuid: u128, user_uuid: u128) -> (r: Result<
    (),
    AppError,
>)
    ensures
        match r {
            Ok(()) => matched_count != 0,
            Err(e) => matched_count == 0 && e@ == device_not_found(device_uuid, user_uuid),
        },
{
    if matched_count == 0 {
        Err(
            AppError::not_found(
                "Device not found".to_owned(),
                "Device not found: device_uuid: ".to_owned().concat(
                    format_uuid(device_uuid).as_str(),
                ).concat(", user_uuid: ").concat(format_uuid(user_uuid).as_str()),
            ),
        )
    } else {
        Ok(())
    }
}

/// The document of a device that has just been created: no reading yet.
pub fn create_device_collection(device_uuid: u128, user_uuid: u128, now: i64) -> (d: DeviceData)
    ensures
        d.messages.wf(),
        d@ == (DeviceDataView {
            device_uuid,
            user_uuid,
            messages: Map::<Seq<char>, ReadingView>::empty(),
            created_at: now,
            updated_at: None,
            deleted_at: None,
        }),
{
    DeviceData {
        device_uuid,
        user_uuid,
        messages: LatestValues::new(),
        created_at: now,
        updated_at: None,
        deleted_at: None,
    }
}

/// The document that a lookup found, or a not-found error where it found
/// none.
pub fn get_device_with_uuid_data_store_query(found: Option<DeviceData>, device_uuid: u128) -> (r:
    Result<DeviceData, AppError>)
    ensures
        match found {
            Some(d) => r == Ok::<DeviceData, AppError>(d),
            None => r matches Err(e) && e@ == AppErrorView::NotFound(
                AppMsgErrorView {
                    api_msg_error: "Device not found"@,
                    log_msg_error: "Device not found: device_uuid: "@ + uuid_text(device_uuid),
                },
            ),
        },
{
    match found {
        Some(d) => Ok(d),
        None => Err(
            AppError::not_found(
                "Device not found".to_owned(),
                "Device not found: device_uuid: ".to_owned().concat(
                    format_uuid(device_uuid).as_str(),
                ),
            ),
        ),
    }
}

/// What converting the three times of a document gives: the first failure,
/// or the document as the API shows it.
pub open spec fn response_of(
    device: DeviceDataView,
    created_at: Result<UtcTime, AppErrorView>,
    updated_at: Option<Result<UtcTime, AppErrorView>>,
    deleted_at: Option<Result<UtcTime, AppErrorView>>,
) -> Result<DeviceDataStoreResponse, AppErrorView> {
    if created_at is Err {
        Err(created_at->Err_0)
    } else if updated_at is Some && updated_at->0 is Err {
        Err(updated_at->0->Err_0)
    } else if deleted_at is Some && deleted_at->0 is Err {
        Err(deleted_at->0->Err_0)
    } else {
        Ok(
            DeviceDataStoreResponse {
                id: device.device_uuid,
                device_uuid: device.device_uuid,
                user_uuid: device.user_uuid,
                created_at: created_at->Ok_0,
                updated_at: match updated_at {
                    Some(t) => Some(t->Ok_0),
                    None => None,
                },
                deleted_at: match deleted_at {
                    Some(t) => Some(t->Ok_0),
                    None => None,
                },
            },
        )
    }
}

/// The conversion of a time of the document store.
pub open spec fn utc_of_millis(millis: i64) -> Result<UtcTime, AppErrorView> {
    utc_time_of(
        millis_secs(millis),
        millis_nanos(millis),
        utc_timestamp_exists(millis_secs(millis), millis_nanos(millis)),
    )
}

/// A device's document as the API shows it: without its readings, and with
/// its times as points in time in UTC. Fails where one of the times has no
/// such point.
pub fn get_device_collection(device_data: &DeviceData) -> (r: Result<DeviceDataStoreResponse, AppError>)
    ensures
        match r {
            Ok(shown) => response_of(
                device_data@,
                utc_of_millis(device_data.created_at),
                match device_data.updated_at {
                    Some(t) => Some(utc_of_millis(t)),
                    None => None,
                },
                match device_data.deleted_at {
                    Some(t) => Some(utc_of_millis(t)),
                    None => None,
                },
            ) == Ok::<DeviceDataStoreResponse, AppErrorView>(shown),
            Err(e) => response_of(
                device_data@,
                utc_of_millis(device_data.created_at),
                match device_data.updated_at {
                    Some(t) => Some(utc_of_millis(t)),
                    None => None,
                },
                match device_data.deleted_at {
                    Some(t) => Some(utc_of_millis(t)),
                    None => None,
                },
            ) == Err::<DeviceDataStoreResponse, AppErrorView>(e@),
        },
{
    let created_at = match bson_to_chrono(device_data.created_at) {
        Ok(t) => t,
        Err(e) => {
            return Err(e);
        },
    };
    let updated_at = match device_data.updated_at {
        Some(millis) => match bson_to_chrono(millis) {
            Ok(t) => Some(t),
            Err(e) => {
                return Err(e);
            },
        },
        None => None,
    };
    let deleted_at = match device_data.deleted_at {
        Some(millis) => match bson_to_chrono(millis) {
            Ok(t) => Some(t),
            Err(e) => {
                return Err(e);
            },
        },
        None => None,
    };
    Ok(
        DeviceDataStoreResponse {
            id: device_data.device_uuid,
            device_uuid: device_data.device_uuid,
            user_uuid: device_data.user_uuid,
            created_at,
            updated_at,
            deleted_at,
        },
    )
}

/// The collection of device documents, one for each device.
pub struct DeviceCollection {
    devices: HashMap<u128, DeviceData>,
}

impl View for DeviceCollection {
    type V = Map<u128, DeviceDataView>;

    closed spec fn view(&self) -> Map<u128, DeviceDataView> {
        Map::new(|id: u128| self.devices@.contains_key(id), |id: u128| self.devices@[id]@)
    }
}

impl DeviceCollection {
    /// Every document stands under its device's identifier and keeps one
    /// reading for each metric.
    pub closed spec fn wf(&self) -> bool {
        forall|id: u128| #[trigger]
            self.devices@.contains_key(id) ==> self.devices@[id].device_uuid == id
                && self.devices@[id].messages.wf()
    }

    /// In a well-formed collection every document stands under its own
    /// device's identifier.
    pub proof fn lemma_keys(&self, id: u128)
        requires
            self.wf(),
            self@.contains_key(id),
        ensures
            self@[id].device_uuid == id,
    {
    }

    /// A collection without documents.
    pub fn new() -> (c: DeviceCollection)
        ensures
            c.wf(),
            c@ == Map::<u128, DeviceDataView>::empty(),
    {
        let c = DeviceCollection { devices: HashMap::new() };
        assert(c@ =~= Map::<u128, DeviceDataView>::empty());
        c
    }

    /// Adds the document of a device. Refused, with the collection
    /// unchanged, where the device has a document already.
    pub fn insert(&mut self, device: DeviceData) -> (added: bool)
        requires
            old(self).wf(),
            device.messages.wf(),
        ensures
            final(self).wf(),
            added == !old(self)@.contains_key(device.device_uuid),
            added ==> final(self)@ == old(self)@.insert(device.device_uuid, device@),
            !added ==> final(self)@ == old(self)@,
    {
        if self.devices.contains_key(&device.device_uuid) {
            false
        } else {
            let ghost id = device.device_uuid;
            let ghost content = device@;
            self.devices.insert(device.device_uuid, device);
            assert(self@ =~= old(self)@.insert(id, content));
            true
        }
    }

    /// The document of `device_uuid`, where the collection has it and it
    /// belongs to `user_uuid`.
    pub fn find(&self, device_uuid: u128, user_uuid: u128) -> (d: Option<&DeviceData>)
        ensures
            match d {
                Some(device) => self@.contains_key(device_uuid) && self@[device_uuid] == device@
                    && device.user_uuid == user_uuid,
                None => !self@.contains_key(device_uuid) || self@[device_uuid].user_uuid != user_uuid,
            },
    {
        match self.devices.get(&device_uuid) {
            Some(device) => if device.user_uuid == user_uuid {
                Some(device)
            } else {
                None
            },
            None => None,
        }
    }

    /// Carries out a write and says how many documents it matched: one if
    /// the device is there and belongs to the owner, none otherwise.
    pub fn apply(&mut self, update: MessageUpdate) -> (matched_count: u64)
        requires
            old(self).wf(),
        ensures
            final(self).wf(),
            final(self)@ == store_after(old(self)@, update@),
            matched_count == (if update_matches(old(self)@, update@) {
                1u64
            } else {
                0u64
            }),
    {
        let ghost wanted = update@;
        match self.devices.remove(&update.device_uuid) {
            Some(device) => {
                if device.user_uuid == update.user_uuid {
                    let DeviceData {
                        device_uuid,
                        user_uuid,
                        mut messages,
                        created_at,
                        updated_at: _,
                        deleted_at,
                    } = device;
                    messages.set(update.metric, update.reading);
                    self.devices.insert(
                        device_uuid,
                        DeviceData {
                            device_uuid,
                            user_uuid,
                            messages,
                            created_at,
                            updated_at: Some(update.updated_at),
                            deleted_at,
                        },
                    );
                    assert(self@ =~= store_after(old(self)@, wanted));
                    1
                } else {
                    self.devices.insert(update.device_uuid, device);
                    assert(self.devices@ =~= old(self).devices@);
                    assert(self@ =~= old(self)@);
                    0
                }
            },
            None => {
                assert(self.devices@ =~= old(self).devices@);
                assert(self@ =~= old(self)@);
                0
            },
        }
    }
}

/// Ingests one message: decodes its topic, reads its time, and makes its
/// value the latest reading of its metric for the device the topic names.
///
/// Whatever fails, the collection stays as it was: a malformed topic, an
/// unreadable time, or a device that the collection does not hold for that
/// owner. No document is ever created.
pub fn put_device_collection(collection: &mut DeviceCollection, message: &MessageReceivePayload, now: i64) -> (r:
    Result<(), AppError>)
    requires
        old(collection).wf(),
    ensures
        final(collection).wf(),
        final(collection)@ == ingest_store(old(collection)@, *message, now),
        final(collection)@.dom() == old(collection)@.dom(),
        match r {
            Ok(()) => ingest_result(old(collection)@, *message, now) == Ok::<(), AppErrorView>(()),
            Err(e) => ingest_result(old(collection)@, *message, now) == Err::<(), AppErrorView>(e@)
                && final(collection)@ == old(collection)@,
        },
{
    match plan_device_update(message, now) {
        Err(e) => Err(e),
        Ok(update) => {
            let device_uuid = update.device_uuid;
            let user_uuid = update.user_uuid;
            let matched_count = collection.apply(update);
            assert(final(collection)@.dom() =~= old(collection)@.dom());
            update_outcome(matched_count, device_uuid, user_uuid)
        },
    }
}

/// After two writes for the same metric of the same device, the device has
/// the reading of the second write for that metric, and the metrics it has
/// readings for are those it had plus this one.
pub proof fn lemma_latest_reading_wins(
    store: Map<u128, DeviceDataView>,
    first: MessageUpdateView,
    second: MessageUpdateView,
)
    requires
        update_matches(store, first),
        second.device_uuid == first.device_uuid,
        second.user_uuid == first.user_uuid,
        second.metric == first.metric,
    ensures
        ({
            let after = store_after(store_after(store, first), second);
            &&& after.dom() == store.dom()
            &&& after[first.device_uuid].messages[first.metric] == second.reading
            &&& after[first.device_uuid].messages.dom() == store[first.device_uuid].messages.dom().insert(
                first.metric,
            )
            &&& after == store_after(store, second)
        }),
{
    let mid = store_after(store, first);
    let after = store_after(mid, second);
    assert(update_matches(mid, second));
    assert(after.dom() =~= store.dom());
    assert(after[first.device_uuid].messages =~= store[first.device_uuid].messages.insert(
        first.metric,
        second.reading,
    ));
    assert(after[first.device_uuid].messages.dom() =~= store[first.device_uuid].messages.dom().insert(
        first.metric,
    ));
    assert(after =~= store_after(store, second));
}

/// After the ingestion of two messages that both decode, for the same metric
/// of the same device that the collection holds, the device has exactly the
/// reading of the second message for that metric.
pub proof fn lemma_second_ingest_wins(
    store: Map<u128, DeviceDataView>,
    first: MessageReceivePayload,
    first_now: i64,
    second: MessageReceivePayload,
    second_now: i64,
)
    requires
        plan_of(first, first_now) is Ok,
        plan_of(second, second_now) is Ok,
        update_matches(store, plan_of(first, first_now)->Ok_0),
        plan_of(second, second_now)->Ok_0.device_uuid == plan_of(first, first_now)->Ok_0.device_uuid,
        plan_of(second, second_now)->Ok_0.user_uuid == plan_of(first, first_now)->Ok_0.user_uuid,
        second.metric@ == first.metric@,
    ensures
        ({
            let device = plan_of(first, first_now)->Ok_0.device_uuid;
            let after = ingest_store(ingest_store(store, first, first_now), second, second_now);
            &&& after.dom() == store.dom()
            &&& after[device].messages.contains_key(first.metric@)
            &&& after[device].messages[first.metric@] == plan_of(second, second_now)->Ok_0.reading
            &&& after[device].messages.dom() == store[device].messages.dom().insert(first.metric@)
        }),
{
    lemma_latest_reading_wins(
        store,
        plan_of(first, first_now)->Ok_0,
        plan_of(second, second_now)->Ok_0,
    );
}

/// Ingesting the same message twice leaves what ingesting it once leaves.
pub proof fn lemma_ingest_idempotent(store: Map<u128, DeviceDataView>, message: MessageReceivePayload, now: i64)
    ensures
        ingest_store(ingest_store(store, message, now), message, now) == ingest_store(
            store,
            message,
            now,
        ),
{
    match plan_of(message, now) {
        Err(_) => {},
        Ok(update) => {
            if update_matches(store, update) {
                lemma_latest_reading_wins(store, update, update);
            }
        },
    }
}

/// A write for a device that the collection does not hold for that owner
/// changes nothing, creates no document, and is reported as not found.
pub proof fn lemma_unknown_device(store: Map<u128, DeviceDataView>, update: MessageUpdateView)
    requires
        !update_matches(store, update),
    ensures
        store_after(store, update) == store,
        !store.contains_key(update.device_uuid) ==> !store_after(store, update).contains_key(
            update.device_uuid,
        ),
{
}

} // verus!
