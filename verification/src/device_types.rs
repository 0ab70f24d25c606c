//! The kinds a device can be of: its board, whether it senses or acts, and
//! how far its adoption has come.

use vstd::prelude::*;
use vstd::string::*;
use crate::error_app::{AppError, AppErrorView};
use crate::text::{debug_quoted, lowercase, same_text, str_debug, to_lowercase};

verus! {

/// Why a board was not recognised.
#[derive(Debug)]
pub enum BoarderError {
    InvalidBoardType(String),
}

/// The boards the service knows.
#[derive(Debug, Clone, Copy, PartialEq, Eq, Structural)]
pub enum BoardType {
    ESP32,
    RaspberryPi,
}

/// The board that a lower-case name stands for.
pub open spec fn board_named(lowered: Seq<char>) -> Option<BoardType> {
    if lowered == "esp32"@ {
        Some(BoardType::ESP32)
    } else if lowered == "raspberrypi"@ {
        Some(BoardType::RaspberryPi)
    } else {
        None
    }
}

impl BoarderError {
    /// The error written as a debugging text: the variant's name, and in
    /// brackets its message as `Debug` writes a text.
    pub fn debug_text(&self) -> (text: String)
        ensures
            self matches BoarderError::InvalidBoardType(m) && text@ == "InvalidBoardType("@
                + str_debug(m@) + ")"@,
    {
        match self {
            BoarderError::InvalidBoardType(m) => "InvalidBoardType(".to_owned().concat(
                debug_quoted(m.as_str()).as_str(),
            ).concat(")"),
        }
    }
}

impl BoardType {
    /// The board for a name that has been lower-cased, or the error that
    /// quotes the name as it was given.
    pub fn from_lowercase(lowered: &str, boarder: &str) -> (r: Result<BoardType, BoarderError>)
        ensures
            match r {
                Ok(b) => board_named(lowered@) == Some(b),
                Err(BoarderError::InvalidBoardType(m)) => board_named(lowered@) is None && m@
                    == "Invalid boarder: "@ + boarder@,
            },
    {
        if same_text(lowered, "esp32") {
            Ok(BoardType::ESP32)
        } else if same_text(lowered, "raspberrypi") {
            Ok(BoardType::RaspberryPi)
        } else {
            Err(BoarderError::InvalidBoardType("Invalid boarder: ".to_owned().concat(boarder)))
        }
    }

    /// The board that a request names, whatever the case of its letters.
    pub fn from_request(boarder: &str) -> (r: Result<BoardType, BoarderError>)
        ensures
            match r {
                Ok(b) => board_named(lowercase(boarder@)) == Some(b),
                Err(BoarderError::InvalidBoardType(m)) => board_named(lowercase(boarder@)) is None
                    && m@ == "Invalid boarder: "@ + boarder@,
            },
    {
        let lowered = to_lowercase(boarder);
        BoardType::from_lowercase(lowered.as_str(), boarder)
    }

    /// The number the board is stored as.
    pub fn as_int(&self) -> (n: i32)
        ensures
            n == (match self {
                BoardType::ESP32 => 0i32,
                BoardType::RaspberryPi => 1i32,
            }),
    {
        match self {
            BoardType::ESP32 => 0,
            BoardType::RaspberryPi => 1,
        }
    }

    /// The name the board is stored as.
    pub fn to_text(&self) -> (text: String)
        ensures
            text@ == (match self {
                BoardType::ESP32 => "ESP32"@,
                BoardType::RaspberryPi => "RaspberryPi"@,
            }),
    {
        match self {
            BoardType::ESP32 => "ESP32".to_owned(),
            BoardType::RaspberryPi => "RaspberryPi".to_owned(),
        }
    }
}

/// Whether a device senses or acts.
#[derive(Debug, Clone, Copy, PartialEq, Eq, Structural)]
pub enum DeviceType {
    Sensor,
    Actuator,
}

/// The device type that a lower-case name stands for.
pub open spec fn device_type_named(lowered: Seq<char>) -> Option<DeviceType> {
    if lowered == "sensor"@ {
        Some(DeviceType::Sensor)
    } else if lowered == "actuator"@ {
        Some(DeviceType::Actuator)
    } else {
        None
    }
}

impl DeviceType {
    /// The device type for a name that has been lower-cased.
    pub fn from_lowercase(lowered: &str) -> (r: Result<DeviceType, &'static str>)
        ensures
            match r {
                Ok(t) => device_type_named(lowered@) == Some(t),
                Err(m) => device_type_named(lowered@) is None && m@ == "Invalid device type"@,
            },
    {
        if same_text(lowered, "sensor") {
            Ok(DeviceType::Sensor)
        } else if same_text(lowered, "actuator") {
            Ok(DeviceType::Actuator)
        } else {
            Err("Invalid device type")
        }
    }

    /// The device type that a text names, whatever the case of its letters.
    pub fn parse(s: &str) -> (r: Result<DeviceType, &'static str>)
        ensures
            match r {
                Ok(t) => device_type_named(lowercase(s@)) == Some(t),
                Err(m) => device_type_named(lowercase(s@)) is None && m@ == "Invalid device type"@,
            },
    {
        let lowered = to_lowercase(s);
        DeviceType::from_lowercase(lowered.as_str())
    }

    /// The number the device type is stored as.
    pub fn as_int(&self) -> (n: i32)
        ensures
            n == (match self {
                DeviceType::Sensor => 0i32,
                DeviceType::Actuator => 1i32,
            }),
    {
        match self {
            DeviceType::Sensor => 0,
            DeviceType::Actuator => 1,
        }
    }

    /// The name the device type is stored as.
    pub fn to_text(&self) -> (text: String)
        ensures
            text@ == (match self {
                DeviceType::Sensor => "Sensor"@,
                DeviceType::Actuator => "Actuator"@,
            }),
    {
        match self {
            DeviceType::Sensor => "Sensor".to_owned(),
            DeviceType::Actuator => "Actuator".to_owned(),
        }
    }
}

impl std::str::FromStr for DeviceType {
    type Err = &'static str;

    /// The device type that a text names, whatever the case of its letters.
    fn from_str(s: &str) -> (r: Result<Self, Self::Err>)
        ensures
            match r {
                Ok(t) => device_type_named(lowercase(s@)) == Some(t),
                Err(m) => device_type_named(lowercase(s@)) is None && m@ == "Invalid device type"@,
            },
    {
        DeviceType::parse(s)
    }
}

/// How far the adoption of a device has come.
#[derive(Debug, Clone, Copy, PartialEq, Eq, Structural)]
pub enum DeviceCondition {
    Adopted,
    NotAdopted,
    Blocked,
}

/// The condition that a lower-case name stands for.
pub open spec fn condition_named(lowered: Seq<char>) -> Option<DeviceCondition> {
    if lowered == "adopted"@ {
        Some(DeviceCondition::Adopted)
    } else if lowered == "not_adopted"@ {
        Some(DeviceCondition::NotAdopted)
    } else if lowered == "blocked"@ {
        Some(DeviceCondition::Blocked)
    } else {
        None
    }
}

impl DeviceCondition {
    /// The condition for a name that has been lower-cased, or the error that
    /// quotes the name as it was given.
    pub fn from_lowercase(lowered: &str, s: &str) -> (r: Result<DeviceCondition, AppError>)
        ensures
            match r {
                Ok(c) => condition_named(lowered@) == Some(c),
                Err(e) => condition_named(lowered@) is None && e@ == AppErrorView::BadRequest(
                    "Invalid device condition: "@ + s@,
                ),
            },
    {
        if same_text(lowered, "adopted") {
            Ok(DeviceCondition::Adopted)
        } else if same_text(lowered, "not_adopted") {
            Ok(DeviceCondition::NotAdopted)
        } else if same_text(lowered, "blocked") {
            Ok(DeviceCondition::Blocked)
        } else {
            Err(AppError::BadRequest("Invalid device condition: ".to_owned().concat(s)))
        }
    }

    /// The condition that a text names, whatever the case of its letters.
    pub fn parse(s: &str) -> (r: Result<DeviceCondition, AppError>)
        ensures
            match r {
                Ok(c) => condition_named(lowercase(s@)) == Some(c),
                Err(e) => condition_named(lowercase(s@)) is None && e@ == AppErrorView::BadRequest(
                    "Invalid device condition: "@ + s@,
                ),
            },
    {
        let lowered = to_lowercase(s);
        DeviceCondition::from_lowercase(lowered.as_str(), s)
    }

    /// The number the condition is stored as.
    pub fn as_int(&self) -> (n: i32)
        ensures
            n == (match self {
                DeviceCondition::Adopted => 0i32,
                DeviceCondition::NotAdopted => 1i32,
                DeviceCondition::Blocked => 2i32,
            }),
    {
        match self {
            DeviceCondition::Adopted => 0,
            DeviceCondition::NotAdopted => 1,
            DeviceCondition::Blocked => 2,
        }
    }

    /// The name the condition is stored as.
    pub fn to_text(&self) -> (text: String)
        ensures
            text@ == (match self {
                DeviceCondition::Adopted => "Adopted"@,
                DeviceCondition::NotAdopted => "NotAdopted"@,
                DeviceCondition::Blocked => "Blocked"@,
            }),
    {
        match self {
            DeviceCondition::Adopted => "Adopted".to_owned(),
            DeviceCondition::NotAdopted => "NotAdopted".to_owned(),
            DeviceCondition::Blocked => "Blocked".to_owned(),
        }
    }
}

impl std::str::FromStr for DeviceCondition {
    type Err = AppError;

    /// The condition that a text names, whatever the case of its letters.
    fn from_str(s: &str) -> (r: Result<Self, Self::Err>)
        ensures
            match r {
                Ok(c) => condition_named(lowercase(s@)) == Some(c),
                Err(e) => condition_named(lowercase(s@)) is None && e@ == AppErrorView::BadRequest(
                    "Invalid device condition: "@ + s@,
                ),
            },
    {
        DeviceCondition::parse(s)
    }
}

/// What a sensor measures, with the model that measures it.
#[derive(Debug, Clone, Copy, PartialEq, Eq, Structural)]
pub enum SensorType {
    HumidityTemperature(HumidityTemperatureModels),
    Humidity(HumidityModels),
    Temperature(TemperatureModels),
    Pressure(PressureModels),
    Gas(GasModels),
    Particle(ParticleModels),
    Magnetic(MagneticModels),
    Axis3(Axis3Models),
}

/// Sensors that measure humidity and temperature.
#[derive(Debug, Clone, Copy, PartialEq, Eq, Structural)]
pub enum HumidityTemperatureModels {
    DHT11,
    DHT22,
    AM2302,
}

/// Sensors that measure humidity.
#[derive(Debug, Clone, Copy, PartialEq, Eq, Structural)]
pub enum HumidityModels {
    HIH4030,
    SHT21,
}

/// Sensors that measure temperature.
#[derive(Debug, Clone, Copy, PartialEq, Eq, Structural)]
pub enum TemperatureModels {
    LM35,
    DS18B20,
    TMP36,
}

/// Sensors that measure pressure.
#[derive(Debug, Clone, Copy, PartialEq, Eq, Structural)]
pub enum PressureModels {
    BMP180,
    BMP280,
    BME280,
}

/// Sensors that detect gases.
#[derive(Debug, Clone, Copy, PartialEq, Eq, Structural)]
pub enum GasModels {
    MQ2,
    MQ7,
    MQ135,
}

/// Sensors that count particles.
#[derive(Debug, Clone, Copy, PartialEq, Eq, Structural)]
pub enum ParticleModels {
    GP2Y1010AU0F,
    PMS5003,
}

/// Sensors that measure magnetic fields.
#[derive(Debug, Clone, Copy, PartialEq, Eq, Structural)]
pub enum MagneticModels {
    HMC5883L,
    QMC5883,
}

/// Sensors that measure motion on three axes.
#[derive(Debug, Clone, Copy, PartialEq, Eq, Structural)]
pub enum Axis3Models {
    MPU6050,
    MPU9250,
    LSM6DS3,
}

} // verus!
