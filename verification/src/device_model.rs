//! Devices: what the relational store holds of them, what a request to
//! register or to adopt one must satisfy, and what is stored for it.

use vstd::prelude::*;
use vstd::string::*;
use crate::device_message_model::{
    message_rejection,
    DeviceMessageCreate,
    DeviceMessageCreateRequest,
    DeviceMessageCreateResponse,
    DeviceScaleCreate,
    DeviceScaleCreateResponse,
    MessageChecks,
};
use crate::device_types::{
    board_named,
    condition_named,
    device_type_named,
    BoardType,
    DeviceCondition,
    DeviceType,
};
use crate::error_app::{AppError, AppErrorView};
use crate::ident::{is_random_uuid, random_uuid};
use crate::text::{byte_list, byte_list_text, digits, lowercase, str_debug, u64_text};

verus! {

/// What `str::parse::<eui48::MacAddress>` objects to in `text`; `None` where
/// it accepts the text. An objection is a number and, with it or not, six
/// bytes: without bytes the number is the length of the text, which is not
/// one that a hardware address can have; with bytes the number says how many
/// bytes were found in the text, which is not six, and the bytes are the
/// first that were read, padded with zeros.
pub uninterp spec fn mac_parse_error(text: Seq<char>) -> Option<(usize, Option<Seq<u8>>)>;

/// Why a text does not read as a hardware address.
#[derive(Debug, Clone, Copy)]
pub enum MacAddressError {
    /// The text is this long, shorter than 11 or longer than 17.
    InvalidLength(usize),
    /// This many bytes were found in the text, not six; the six bytes are
    /// the first that were read, padded with zeros.
    InvalidByteCount(usize, [u8; 6]),
}

impl MacAddressError {
    /// The objection as plain values.
    pub open spec fn objection(&self) -> (usize, Option<Seq<u8>>) {
        match self {
            MacAddressError::InvalidLength(found) => (*found, None),
            MacAddressError::InvalidByteCount(found, bytes) => (*found, Some(bytes@)),
        }
    }

    /// The objection in words. Of the bytes it lists as many as were found,
    /// and all six where more than six were found.
    pub fn to_text(&self) -> (text: String)
        ensures
            text@ == mac_error_text(self.objection()),
    {
        match self {
            MacAddressError::InvalidLength(found) => {
                "Invalid length; expecting 11 to 17 chars, found ".to_owned().concat(
                    u64_text(*found as u64).as_str(),
                )
            },
            MacAddressError::InvalidByteCount(found, bytes) => {
                let listed: usize = if *found < 6 {
                    *found
                } else {
                    6
                };
                "Invalid byte count; Matched `".to_owned().concat(
                    u64_text(*found as u64).as_str(),
                ).concat("` bytes (").concat(byte_list_text(bytes, listed).as_str()).concat(")")
            },
        }
    }
}

/// How many of the bytes of an objection are listed in its words.
pub open spec fn listed_bytes(found: usize, bytes: Seq<u8>) -> int {
    if found < bytes.len() {
        found as int
    } else {
        bytes.len() as int
    }
}

/// The words of an objection to a hardware address.
pub open spec fn mac_error_text(objection: (usize, Option<Seq<u8>>)) -> Seq<char> {
    match objection.1 {
        None => "Invalid length; expecting 11 to 17 chars, found "@ + digits(objection.0 as nat),
        Some(bytes) => "Invalid byte count; Matched `"@ + digits(objection.0 as nat) + "` bytes ("@
            + byte_list(bytes.take(listed_bytes(objection.0, bytes))) + ")"@,
    }
}

/// The words of what reading a hardware address objects to, if anything.
pub open spec fn mac_error_words(objection: Option<(usize, Option<Seq<u8>>)>) -> Option<Seq<char>> {
    match objection {
        Some(o) => Some(mac_error_text(o)),
        None => None,
    }
}

/// Reads a hardware address with the `FromStr` of `eui48::MacAddress` and
/// hands on what its error holds, if it has one. The contract names the
/// outcome.
#[verifier::external_body]
pub(crate) fn read_mac_address(text: &str) -> (r: Option<MacAddressError>)
    ensures
        match r {
            Some(e) => mac_parse_error(text@) == Some(e.objection()),
            None => mac_parse_error(text@) is None,
        },
{
    match text.parse::<eui48::MacAddress>() {
        Ok(_) => None,
        Err(eui48::ParseError::InvalidLength(found)) => Some(MacAddressError::InvalidLength(found)),
        Err(eui48::ParseError::InvalidByteCount(found, bytes)) => Some(
            MacAddressError::InvalidByteCount(found, bytes),
        ),
    }
}

/// What reading a hardware address objects to, in words; `None` where the
/// text reads as one.
pub fn mac_address_error(text: &str) -> (r: Option<String>)
    ensures
        match r {
            Some(e) => mac_error_words(mac_parse_error(text@)) == Some(e@),
            None => mac_parse_error(text@) is None,
        },
{
    match read_mac_address(text) {
        Some(e) => Some(e.to_text()),
        None => None,
    }
}

/// A device row of the relational store. Times are milliseconds since the
/// Unix epoch.
#[derive(Debug)]
pub struct Device {
    pub id: i32,
    pub uuid: u128,
    pub user_id: i32,
    pub name: String,
    pub device_type_int: i32,
    pub device_type_text: String,
    pub board_type_int: i32,
    pub board_type_text: String,
    pub sensor_type: Option<String>,
    pub actuator_type: Option<String>,
    pub device_condition_int: i32,
    pub device_condition_text: String,
    pub mac_address: String,
    pub created_at: Option<i64>,
    pub updated_at: Option<i64>,
    pub deleted_at: Option<i64>,
}

/// A request to register a device.
#[derive(Debug)]
pub struct DeviceCreateRequest {
    pub name: String,
    pub device_type_str: String,
    pub board_type_str: String,
    pub sensor_type: Option<String>,
    pub actuator_type: Option<String>,
    pub adopted_status: String,
    pub mac_address: String,
    pub message: DeviceMessageCreateRequest,
    pub scale: Option<Vec<(String, String)>>,
}

impl DeviceCreateRequest {
    /// The scales of the request.
    pub fn get_device_create_scale(&self) -> (r: &Option<Vec<(String, String)>>)
        ensures
            *r == self.scale,
    {
        &self.scale
    }
}

/// A device that is about to be stored.
#[derive(Debug)]
pub struct DeviceCreate {
    pub uuid: u128,
    pub user_id: i32,
    pub name: String,
    pub device_type_int: i32,
    pub device_type_text: String,
    pub board_type_int: i32,
    pub board_type_text: String,
    pub mac_address: String,
    pub sensor_type: Option<String>,
    pub actuator_type: Option<String>,
    pub device_condition_int: i32,
    pub device_condition_text: String,
    pub message: DeviceMessageCreate,
    pub scale: Option<Vec<DeviceScaleCreate>>,
}

/// A stored device as the API shows it after registration.
#[derive(Debug)]
pub struct DeviceCreateResponse {
    pub uuid: u128,
    pub user_uuid: u128,
    pub name: String,
    pub device_type_int: i32,
    pub device_type_text: String,
    pub board_type_int: i32,
    pub board_type_text: String,
    pub mac_address: String,
    pub device_condition_int: i32,
    pub device_condition_text: String,
    pub created_at: Option<i64>,
    pub updated_at: Option<i64>,
    pub deleted_at: Option<i64>,
    pub message: DeviceMessageCreateResponse,
    pub scale: Vec<DeviceScaleCreateResponse>,
    pub broker_url: String,
}

/// What a lookup of one device may filter by.
#[derive(Debug)]
pub struct DeviceFilter {
    pub uuid: Option<u128>,
    pub mac_address: Option<String>,
}

/// The first reason to refuse a request to register a device, if there is
/// one. The checks come in a fixed order: the hardware address, the device
/// type, the board, the condition (which must be a known one, and then
/// "adopted"), that the device is either a sensor or an actuator and not
/// both, and last the message.
pub open spec fn device_rejection(
    params: DeviceCreateRequest,
    mac_error: Option<Seq<char>>,
    device_type: Option<DeviceType>,
    board_type: Result<BoardType, Seq<char>>,
    condition: Result<DeviceCondition, AppErrorView>,
    message_error: Option<AppErrorView>,
) -> Option<AppErrorView> {
    if mac_error is Some {
        Some(AppErrorView::BadRequest("Invalid mac_address: "@ + mac_error->0))
    } else if device_type is None {
        Some(AppErrorView::BadRequest("Invalid device type: "@ + params.device_type_str@))
    } else if board_type is Err {
        Some(AppErrorView::BadRequest(board_type->Err_0))
    } else if condition is Err {
        Some(condition->Err_0)
    } else if condition->Ok_0 != DeviceCondition::Adopted {
        Some(AppErrorView::BadRequest("Device condition must be 'adopted'"@))
    } else if (params.sensor_type is Some) == (params.actuator_type is Some) {
        Some(AppErrorView::BadRequest("Sensor or Actuator type must be specified"@))
    } else {
        message_error
    }
}

/// What reading the board of a request gives: the board, or the debugging
/// text of the error.
pub open spec fn board_of_request(board_type_str: Seq<char>) -> Result<BoardType, Seq<char>> {
    match board_named(lowercase(board_type_str)) {
        Some(b) => Ok(b),
        None => Err(
            "InvalidBoardType("@ + str_debug("Invalid boarder: "@ + board_type_str) + ")"@,
        ),
    }
}

/// What reading the condition of a request gives.
pub open spec fn condition_of_request(adopted_status: Seq<char>) -> Result<
    DeviceCondition,
    AppErrorView,
> {
    match condition_named(lowercase(adopted_status)) {
        Some(c) => Ok(c),
        None => Err(AppErrorView::BadRequest("Invalid device condition: "@ + adopted_status)),
    }
}

fn clone_text(text: &Option<String>) -> (r: Option<String>)
    ensures
        r == *text,
{
    match text {
        Some(t) => Some(t.clone()),
        None => None,
    }
}

impl DeviceCreate {
    /// Whether this is the device that `params` asks for, of the given type
    /// and board, for the user `user_id`.
    pub open spec fn is_device_of(
        &self,
        params: &DeviceCreateRequest,
        user_id: i32,
        device_type: DeviceType,
        board_type: BoardType,
    ) -> bool {
        &&& self.user_id == user_id
        &&& self.name@ == params.name@
        &&& self.device_type_int == (match device_type {
            DeviceType::Sensor => 0i32,
            DeviceType::Actuator => 1i32,
        })
        &&& self.device_type_text@ == (match device_type {
            DeviceType::Sensor => "Sensor"@,
            DeviceType::Actuator => "Actuator"@,
        })
        &&& self.board_type_int == (match board_type {
            BoardType::ESP32 => 0i32,
            BoardType::RaspberryPi => 1i32,
        })
        &&& self.board_type_text@ == (match board_type {
            BoardType::ESP32 => "ESP32"@,
            BoardType::RaspberryPi => "RaspberryPi"@,
        })
        &&& self.mac_address@ == params.mac_address@
        &&& self.sensor_type == params.sensor_type
        &&& self.actuator_type == params.actuator_type
        &&& self.device_condition_int == 0
        &&& self.device_condition_text@ == "Adopted"@
    }

    /// Checks a request to register a device against what reading its parts
    /// gave, and puts together what is to be stored.
    ///
    /// `board_type` carries the debugging text of the board's error, and
    /// `message` the message of the request or the reason it was refused.
    /// `scale` is stored only where the request has scales.
    pub fn from_parts(
        params: &DeviceCreateRequest,
        user_id: i32,
        uuid: u128,
        mac_error: Option<String>,
        device_type: Option<DeviceType>,
        board_type: Result<BoardType, String>,
        condition: Result<DeviceCondition, AppError>,
        message: Result<DeviceMessageCreate, AppError>,
        scale: Vec<DeviceScaleCreate>,
    ) -> (r: Result<DeviceCreate, AppError>)
        ensures
            match r {
                Ok(d) => {
                    &&& device_rejection(
                        *params,
                        match mac_error {
                            Some(e) => Some(e@),
                            None => None,
                        },
                        device_type,
                        match board_type {
                            Ok(b) => Ok(b),
                            Err(e) => Err(e@),
                        },
                        match condition {
                            Ok(c) => Ok(c),
                            Err(e) => Err(e@),
                        },
                        match message {
                            Ok(_) => None,
                            Err(e) => Some(e@),
                        },
                    ) is None
                    &&& d.uuid == uuid
                    &&& d.is_device_of(params, user_id, device_type->0, board_type->Ok_0)
                    &&& d.message == message->Ok_0
                    &&& d.scale == (if params.scale is Some {
                        Some(scale)
                    } else {
                        None
                    })
                },
                Err(e) => device_rejection(
                    *params,
                    match mac_error {
                        Some(e) => Some(e@),
                        None => None,
                    },
                    device_type,
                    match board_type {
                        Ok(b) => Ok(b),
                        Err(e) => Err(e@),
                    },
                    match condition {
                        Ok(c) => Ok(c),
                        Err(e) => Err(e@),
                    },
                    match message {
                        Ok(_) => None,
                        Err(e) => Some(e@),
                    },
                ) == Some(e@),
            },
    {
        match mac_error {
            Some(e) => {
                return Err(
                    AppError::BadRequest("Invalid mac_address: ".to_owned().concat(e.as_str())),
                );
            },
            None => {},
        }
        let device_type = match device_type {
            Some(t) => t,
            None => {
                return Err(
                    AppError::BadRequest(
                        "Invalid device type: ".to_owned().concat(params.device_type_str.as_str()),
                    ),
                );
            },
        };
        let board_type = match board_type {
            Ok(b) => b,
            Err(e) => {
                return Err(AppError::BadRequest(e));
            },
        };
        let condition = match condition {
            Ok(c) => c,
            Err(e) => {
                return Err(e);
            },
        };
        match condition {
            DeviceCondition::Adopted => {},
            _ => {
                return Err(AppError::bad_request("Device condition must be 'adopted'"));
            },
        }
        match (&params.sensor_type, &params.actuator_type) {
            (None, None) => {
                return Err(AppError::bad_request("Sensor or Actuator type must be specified"));
            },
            (Some(_), Some(_)) => {
                return Err(AppError::bad_request("Sensor or Actuator type must be specified"));
            },
            _ => {},
        }
        let message = match message {
            Ok(m) => m,
            Err(e) => {
                return Err(e);
            },
        };
        let scale = match &params.scale {
            Some(_) => Some(scale),
            None => None,
        };
        Ok(
            DeviceCreate {
                uuid,
                user_id,
                name: params.name.clone(),
                device_type_int: device_type.as_int(),
                device_type_text: device_type.to_text(),
                board_type_int: board_type.as_int(),
                board_type_text: board_type.to_text(),
                mac_address: params.mac_address.clone(),
                sensor_type: clone_text(&params.sensor_type),
                actuator_type: clone_text(&params.actuator_type),
                device_condition_int: condition.as_int(),
                device_condition_text: condition.to_text(),
                message,
                scale,
            },
        )
    }

    /// Checks a request to register a device for the user `user_id` and puts
    /// together what is to be stored, under fresh random identifiers.
    /// `checks` is what the transport library objects to in the request's
    /// message.
    pub fn new(params: &DeviceCreateRequest, user_id: i32, checks: &MessageChecks) -> (r: Result<
        DeviceCreate,
        AppError,
    >)
        ensures
            match r {
                Ok(d) => {
                    &&& device_rejection(
                        *params,
                        mac_error_words(mac_parse_error(params.mac_address@)),
                        device_type_named(lowercase(params.device_type_str@)),
                        board_of_request(params.board_type_str@),
                        condition_of_request(params.adopted_status@),
                        message_rejection(*checks),
                    ) is None
                    &&& is_random_uuid(d.uuid)
                    &&& is_random_uuid(d.message.uuid)
                    &&& d.is_device_of(
                        params,
                        user_id,
                        device_type_named(lowercase(params.device_type_str@))->0,
                        board_named(lowercase(params.board_type_str@))->0,
                    )
                    &&& d.message.is_message_of(&params.message)
                    &&& d.scale is Some <==> params.scale is Some
                    &&& d.scale matches Some(stored) ==> {
                        &&& stored@.len() == params.scale->0@.len()
                        &&& forall|i: int|
                            0 <= i < stored@.len() ==> (#[trigger] stored@[i]).metric@
                                == params.scale->0@[i].0@ && stored@[i].unit@
                                == params.scale->0@[i].1@ && is_random_uuid(stored@[i].uuid)
                    }
                },
                Err(e) => device_rejection(
                    *params,
                    mac_error_words(mac_parse_error(params.mac_address@)),
                    device_type_named(lowercase(params.device_type_str@)),
                    board_of_request(params.board_type_str@),
                    condition_of_request(params.adopted_status@),
                    message_rejection(*checks),
                ) == Some(e@),
            },
    {
        let uuid = random_uuid();
        let mac_error = mac_address_error(params.mac_address.as_str());
        let device_type = match DeviceType::parse(params.device_type_str.as_str()) {
            Ok(t) => Some(t),
            Err(_) => None,
        };
        let board_type = match BoardType::from_request(params.board_type_str.as_str()) {
            Ok(b) => Ok(b),
            Err(e) => Err(e.debug_text()),
        };
        let condition = DeviceCondition::parse(params.adopted_status.as_str());
        let message = DeviceMessageCreate::new(&params.message, checks);
        let scale = DeviceScaleCreate::from_request(params);
        DeviceCreate::from_parts(
            params,
            user_id,
            uuid,
            mac_error,
            device_type,
            board_type,
            condition,
            message,
            scale,
        )
    }

    /// The identifier.
    pub fn get_uuid(&self) -> (r: u128)
        ensures
            r == self.uuid,
    {
        self.uuid
    }

    /// The name.
    pub fn get_name(&self) -> (r: String)
        ensures
            r@ == self.name@,
    {
        self.name.clone()
    }

    /// The key of the owner.
    pub fn get_user_id(&self) -> (r: i32)
        ensures
            r == self.user_id,
    {
        self.user_id
    }

    /// The number the device type is stored as.
    pub fn get_device_type_int(&self) -> (r: i32)
        ensures
            r == self.device_type_int,
    {
        self.device_type_int
    }

    /// The name the device type is stored as.
    pub fn get_device_type_text(&self) -> (r: String)
        ensures
            r@ == self.device_type_text@,
    {
        self.device_type_text.clone()
    }

    /// The number the board is stored as.
    pub fn get_border_type_int(&self) -> (r: i32)
        ensures
            r == self.board_type_int,
    {
        self.board_type_int
    }

    /// The name the board is stored as.
    pub fn get_border_type_text(&self) -> (r: String)
        ensures
            r@ == self.board_type_text@,
    {
        self.board_type_text.clone()
    }

    /// The kind of sensor, for a sensor.
    pub fn get_sensor_type(&self) -> (r: Option<String>)
        ensures
            r == self.sensor_type,
    {
        clone_text(&self.sensor_type)
    }

    /// The kind of actuator, for an actuator.
    pub fn get_actuator_type(&self) -> (r: Option<String>)
        ensures
            r == self.actuator_type,
    {
        clone_text(&self.actuator_type)
    }

    /// The number the condition is stored as.
    pub fn get_device_condition_int(&self) -> (r: i32)
        ensures
            r == self.device_condition_int,
    {
        self.device_condition_int
    }

    /// The name the condition is stored as.
    pub fn get_device_condition_text(&self) -> (r: String)
        ensures
            r@ == self.device_condition_text@,
    {
        self.device_condition_text.clone()
    }

    /// The hardware address.
    pub fn get_mac_address(&self) -> (r: String)
        ensures
            r@ == self.mac_address@,
    {
        self.mac_address.clone()
    }
}

/// A request to adopt a device.
#[derive(Debug)]
pub struct DeviceAdoptionRequest {
    pub board_type: String,
    pub mac_address: String,
    pub device_type: String,
    pub sensor_type: String,
    pub actuator_type: String,
    pub adopted_status: i32,
    pub device_scale: Vec<(String, String)>,
    pub device_name: String,
}

/// The first reason to refuse a request to adopt a device, if there is one:
/// an unknown board, a hardware address that cannot be read, or a device
/// that is adopted already. `address_reads` says whether the hardware
/// address reads as one.
pub open spec fn adoption_rejection(
    board_type: Option<BoardType>,
    address_reads: bool,
    adopted_status: i32,
) -> Option<AppErrorView> {
    if board_type is None {
        Some(AppErrorView::BadRequest("Invalid board type"@))
    } else if !address_reads {
        Some(AppErrorView::BadRequest("Invalid mac_address"@))
    } else if adopted_status == 1 {
        Some(AppErrorView::BadRequest("Invalid mac_address"@))
    } else {
        None
    }
}

impl DeviceAdoptionRequest {
    /// Checks the part of the request that comes after its board, from
    /// whether its hardware address reads as one: the address must read, and
    /// the device must not be adopted yet.
    pub fn validate_address(&self, address_reads: bool) -> (r: Result<(), AppError>)
        ensures
            match r {
                Ok(()) => address_reads && self.adopted_status != 1,
                Err(e) => (!address_reads || self.adopted_status == 1) && e@
                    == AppErrorView::BadRequest("Invalid mac_address"@),
            },
    {
        if !address_reads {
            return Err(AppError::bad_request("Invalid mac_address"));
        }
        if self.adopted_status == 1 {
            return Err(AppError::bad_request("Invalid mac_address"));
        }
        Ok(())
    }

    /// Checks the request: its board must be a known one, its hardware
    /// address must read as one, and the device must not be adopted yet. The
    /// address is looked at only once the board is known.
    pub fn validate(&self) -> (r: Result<(), AppError>)
        ensures
            match r {
                Ok(()) => adoption_rejection(
                    board_named(lowercase(self.board_type@)),
                    mac_parse_error(self.mac_address@) is None,
                    self.adopted_status,
                ) is None,
                Err(e) => adoption_rejection(
                    board_named(lowercase(self.board_type@)),
                    mac_parse_error(self.mac_address@) is None,
                    self.adopted_status,
                ) == Some(e@),
            },
    {
        match BoardType::from_request(self.board_type.as_str()) {
            Err(_) => {
                return Err(AppError::bad_request("Invalid board type"));
            },
            Ok(_) => {},
        }
        let address_reads = read_mac_address(self.mac_address.as_str()).is_none();
        self.validate_address(address_reads)
    }
}

} // verus!
