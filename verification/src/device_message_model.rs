//! The message and the scales that are registered together with a device.

use vstd::prelude::*;
use crate::device_model::DeviceCreateRequest;
use crate::error_app::{AppError, AppErrorView};
use crate::ident::{is_random_uuid, random_uuid};

verus! {

/// A message row of the relational store. Times are milliseconds since the
/// Unix epoch.
#[derive(Debug)]
pub struct DeviceMessage {
    pub id: i32,
    pub uuid: u128,
    pub device_id: i32,
    pub topic: String,
    pub payload: String,
    pub qos: i32,
    pub retained: bool,
    pub publisher: Option<bool>,
    pub subscriber: Option<bool>,
    pub command_start: Option<i32>,
    pub command_end: Option<i32>,
    pub command_last: Option<i32>,
    pub command_last_time: Option<i64>,
    pub created_at: Option<i64>,
    pub updated_at: Option<i64>,
    pub deleted_at: Option<i64>,
}

/// The message part of a request to register a device.
#[derive(Debug)]
pub struct DeviceMessageCreateRequest {
    pub payload: String,
    pub qos: i32,
    pub retained: bool,
    pub publisher: Option<bool>,
    pub subscriber: Option<bool>,
    pub command_start: Option<i32>,
    pub command_end: Option<i32>,
}

/// A scale row of the relational store.
#[derive(Debug)]
pub struct DeviceScale {
    pub id: i32,
    pub uuid: u128,
    pub device_id: i32,
    pub metric: String,
    pub unit: String,
    pub created_at: Option<i64>,
    pub updated_at: Option<i64>,
    pub deleted_at: Option<i64>,
}

/// The scales of a request: pairs of a metric and its unit.
#[derive(Debug)]
pub struct DeviceScaleCreateRequest {
    pub scale: Vec<(String, String)>,
}

/// A scale that is about to be stored.
#[derive(Debug)]
pub struct DeviceScaleCreate {
    pub uuid: u128,
    pub metric: String,
    pub unit: String,
}

/// A stored scale as the API shows it.
#[derive(Debug)]
pub struct DeviceScaleCreateResponse {
    pub uuid: u128,
    pub device_id: i32,
    pub metric: String,
    pub unit: String,
    pub created_at: Option<i64>,
    pub updated_at: Option<i64>,
    pub deleted_at: Option<i64>,
}

/// What the transport library objects to in a message, if anything: the
/// size of its payload, its quality of service.
#[derive(Debug)]
pub struct MessageChecks {
    pub payload_error: Option<String>,
    pub qos_error: Option<String>,
}

/// A message that is about to be stored.
#[derive(Debug)]
pub struct DeviceMessageCreate {
    pub uuid: u128,
    pub payload: String,
    pub qos: i32,
    pub retained: bool,
    pub publisher: Option<bool>,
    pub subscriber: Option<bool>,
    pub command_start: Option<i32>,
    pub command_end: Option<i32>,
    pub command_last: Option<i32>,
    pub command_last_time: Option<i64>,
}

/// A stored message as the API shows it.
#[derive(Debug)]
pub struct DeviceMessageCreateResponse {
    pub uuid: u128,
    pub device_uuid: u128,
    pub topic: String,
    pub payload: String,
    pub qos: i32,
    pub retained: bool,
    pub publisher: Option<bool>,
    pub subscriber: Option<bool>,
    pub command_start: Option<i32>,
    pub command_end: Option<i32>,
    pub command_last: Option<i32>,
    pub command_last_time: Option<i64>,
    pub created_at: Option<i64>,
    pub updated_at: Option<i64>,
    pub deleted_at: Option<i64>,
}

/// The flag of a request, or `false` where the request leaves it out.
pub open spec fn flag_or_false(flag: Option<bool>) -> bool {
    match flag {
        Some(b) => b,
        None => false,
    }
}

/// Why a message is refused, if it is: the objection to its payload comes
/// before the one to its quality of service.
pub open spec fn message_rejection(checks: MessageChecks) -> Option<AppErrorView> {
    match checks.payload_error {
        Some(e) => Some(AppErrorView::BadRequest(e@)),
        None => match checks.qos_error {
            Some(e) => Some(AppErrorView::BadRequest(e@)),
            None => None,
        },
    }
}

impl DeviceScaleCreate {
    /// A scale with a given identifier.
    pub fn with_uuid(uuid: u128, metric: &String, unit: &String) -> (s: DeviceScaleCreate)
        ensures
            s.uuid == uuid,
            s.metric@ == metric@,
            s.unit@ == unit@,
    {
        DeviceScaleCreate { uuid, metric: metric.clone(), unit: unit.clone() }
    }

    /// The scales of a request, each under a fresh random identifier, in
    /// the order of the request. A request without scales gives none.
    pub fn from_request(req: &DeviceCreateRequest) -> (r: Vec<DeviceScaleCreate>)
        ensures
            match req.scale {
                Some(items) => {
                    &&& r@.len() == items@.len()
                    &&& forall|i: int|
                        0 <= i < r@.len() ==> (#[trigger] r@[i]).metric@ == items@[i].0@ && r@[i].unit@
                            == items@[i].1@ && is_random_uuid(r@[i].uuid)
                },
                None => r@.len() == 0,
            },
    {
        let mut out: Vec<DeviceScaleCreate> = Vec::new();
        match req.get_device_create_scale() {
            Some(items) => {
                let mut i: usize = 0;
                while i < items.len()
                    invariant
                        i <= items.len(),
                        out@.len() == i,
                        forall|j: int|
                            0 <= j < i ==> (#[trigger] out@[j]).metric@ == items@[j].0@ && out@[j].unit@
                                == items@[j].1@ && is_random_uuid(out@[j].uuid),
                    decreases items.len() - i,
                {
                    let uuid = random_uuid();
                    out.push(DeviceScaleCreate::with_uuid(uuid, &items[i].0, &items[i].1));
                    i = i + 1;
                }
            },
            None => {},
        }
        out
    }
}

impl DeviceMessageCreate {
    /// Whether this is the message that `params` asks for: what the request
    /// gives is taken over, the two roles it may leave out count as `false`,
    /// and nothing has been commanded yet.
    pub open spec fn is_message_of(&self, params: &DeviceMessageCreateRequest) -> bool {
        &&& self.payload@ == params.payload@
        &&& self.qos == params.qos
        &&& self.retained == params.retained
        &&& self.publisher == Some(flag_or_false(params.publisher))
        &&& self.subscriber == Some(flag_or_false(params.subscriber))
        &&& self.command_start == params.command_start
        &&& self.command_end == params.command_end
        &&& self.command_last is None
        &&& self.command_last_time is None
    }

    /// The message that `params` asks for, under a given identifier, unless
    /// the transport library objects to it.
    pub fn with_uuid(uuid: u128, params: &DeviceMessageCreateRequest, checks: &MessageChecks) -> (r:
        Result<DeviceMessageCreate, AppError>)
        ensures
            match r {
                Ok(m) => message_rejection(*checks) is None && m.uuid == uuid && m.is_message_of(
                    params,
                ),
                Err(e) => message_rejection(*checks) == Some(e@),
            },
    {
        match &checks.payload_error {
            Some(e) => {
                return Err(AppError::BadRequest(e.clone()));
            },
            None => {},
        }
        match &checks.qos_error {
            Some(e) => {
                return Err(AppError::BadRequest(e.clone()));
            },
            None => {},
        }
        let publisher = match params.publisher {
            Some(b) => b,
            None => false,
        };
        let subscriber = match params.subscriber {
            Some(b) => b,
            None => false,
        };
        Ok(
            DeviceMessageCreate {
                uuid,
                payload: params.payload.clone(),
                qos: params.qos,
                retained: params.retained,
                publisher: Some(publisher),
                subscriber: Some(subscriber),
                command_start: params.command_start,
                command_end: params.command_end,
                command_last: None,
                command_last_time: None,
            },
        )
    }

    /// The message that `params` asks for, under a fresh random identifier,
    /// unless the transport library objects to it.
    pub fn new(params: &DeviceMessageCreateRequest, checks: &MessageChecks) -> (r: Result<
        DeviceMessageCreate,
        AppError,
    >)
        ensures
            match r {
                Ok(m) => message_rejection(*checks) is None && is_random_uuid(m.uuid)
                    && m.is_message_of(params),
                Err(e) => message_rejection(*checks) == Some(e@),
            },
    {
        let uuid = random_uuid();
        DeviceMessageCreate::with_uuid(uuid, params, checks)
    }

    /// The identifier.
    pub fn get_uuid(&self) -> (r: u128)
        ensures
            r == self.uuid,
    {
        self.uuid
    }

    /// The payload.
    pub fn get_payload(&self) -> (r: String)
        ensures
            r@ == self.payload@,
    {
        self.payload.clone()
    }

    /// The quality of service.
    pub fn get_qos(&self) -> (r: i32)
        ensures
            r == self.qos,
    {
        self.qos
    }

    /// Whether the broker retains the message.
    pub fn get_retained(&self) -> (r: bool)
        ensures
            r == self.retained,
    {
        self.retained
    }

    /// Whether the device publishes.
    pub fn get_publisher(&self) -> (r: Option<bool>)
        ensures
            r == self.publisher,
    {
        self.publisher
    }

    /// Whether the device subscribes.
    pub fn get_subscriber(&self) -> (r: Option<bool>)
        ensures
            r == self.subscriber,
    {
        self.subscriber
    }

    /// The first command.
    pub fn get_command_start(&self) -> (r: Option<i32>)
        ensures
            r == self.command_start,
    {
        self.command_start
    }

    /// The last command.
    pub fn get_command_end(&self) -> (r: Option<i32>)
        ensures
            r == self.command_end,
    {
        self.command_end
    }

    /// The command that was sent last.
    pub fn get_command_last(&self) -> (r: Option<i32>)
        ensures
            r == self.command_last,
    {
        self.command_last
    }

    /// When a command was sent last.
    pub fn get_command_last_time(&self) -> (r: Option<i64>)
        ensures
            r == self.command_last_time,
    {
        self.command_last_time
    }
}

} // verus!
