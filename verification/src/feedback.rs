//! The feedback aggregate: everything decoded from one inbound frame, keyed
//! by sub-payload kind.  A field is present exactly when its id appeared in
//! the frame just decoded; nothing is carried over between frames.

use vstd::prelude::*;

use crate::basic_sensor_data::{spec_parse_basic_sensor, BasicSensorData};
use crate::docking_ir::{spec_parse_docking_ir, DockingIr};
use crate::error::DecodeError;
use crate::inertial_sensor::{spec_parse_inertial_sensor, InertialSensor};

verus! {

/// Inbound sub-payload ids the decoder recognizes.  Ids carrying a sensor
/// group the aggregate keeps are decoded; the rest are recognized and
/// skipped, like unknown ids.
#[derive(Clone, Copy, Debug, PartialEq, Eq, Structural)]
pub enum FeedbackId {
    BasicSensorData,
    DockingIR,
    InertialSensor,
    Cliff,
    Current,
    HardwareVersion,
    FirmwareVersion,
    Gyro,
    GeneralPurposeInput,
    UniqueDeviceId,
    ControllerInfo,
}

/// The id a wire byte denotes, `None` for an unrecognized byte.
pub open spec fn spec_feedback_id(v: u8) -> Option<FeedbackId> {
    if v == 1 {
        Some(FeedbackId::BasicSensorData)
    } else if v == 3 {
        Some(FeedbackId::DockingIR)
    } else if v == 4 {
        Some(FeedbackId::InertialSensor)
    } else if v == 5 {
        Some(FeedbackId::Cliff)
    } else if v == 6 {
        Some(FeedbackId::Current)
    } else if v == 10 {
        Some(FeedbackId::HardwareVersion)
    } else if v == 11 {
        Some(FeedbackId::FirmwareVersion)
    } else if v == 13 {
        Some(FeedbackId::Gyro)
    } else if v == 16 {
        Some(FeedbackId::GeneralPurposeInput)
    } else if v == 19 {
        Some(FeedbackId::UniqueDeviceId)
    } else if v == 21 {
        Some(FeedbackId::ControllerInfo)
    } else {
        None
    }
}

impl FeedbackId {
    /// Reads a sub-payload id byte; an unrecognized byte yields `None`.
    pub fn from_byte(v: u8) -> (r: Option<Self>)
        ensures
            r == spec_feedback_id(v),
    {
        match v {
            1 => Some(FeedbackId::BasicSensorData),
            3 => Some(FeedbackId::DockingIR),
            4 => Some(FeedbackId::InertialSensor),
            5 => Some(FeedbackId::Cliff),
            6 => Some(FeedbackId::Current),
            10 => Some(FeedbackId::HardwareVersion),
            11 => Some(FeedbackId::FirmwareVersion),
            13 => Some(FeedbackId::Gyro),
            16 => Some(FeedbackId::GeneralPurposeInput),
            19 => Some(FeedbackId::UniqueDeviceId),
            21 => Some(FeedbackId::ControllerInfo),
            _ => None,
        }
    }
}

/// The sensor groups decoded from one frame; a field is `Some` exactly when
/// its sub-payload id appeared in that frame.
#[derive(Clone, Debug, PartialEq)]
pub struct Feedback {
    pub basic_sensor_data: Option<BasicSensorData>,
    pub docking_ir: Option<DockingIr>,
    pub inertial_sensor: Option<InertialSensor>,
}

/// The aggregate with every field absent, the state a frame's decoding
/// starts from.
pub open spec fn feedback_empty() -> Feedback {
    Feedback { basic_sensor_data: None, docking_ir: None, inertial_sensor: None }
}

/// What merging one sub-payload into the aggregate yields: the aggregate
/// with the id's field replaced by the decoded record, unchanged for an id
/// whose group the aggregate does not keep, or the record's decode error.
pub open spec fn spec_add_subpayload(f: Feedback, id: FeedbackId, d: Seq<u8>) -> Result<
    Feedback,
    DecodeError,
> {
    match id {
        FeedbackId::BasicSensorData => match spec_parse_basic_sensor(d) {
            Ok(b) => Ok(Feedback { basic_sensor_data: Some(b), ..f }),
            Err(e) => Err(e),
        },
        FeedbackId::DockingIR => match spec_parse_docking_ir(d) {
            Ok(b) => Ok(Feedback { docking_ir: Some(b), ..f }),
            Err(e) => Err(e),
        },
        FeedbackId::InertialSensor => match spec_parse_inertial_sensor(d) {
            Ok(b) => Ok(Feedback { inertial_sensor: Some(b), ..f }),
            Err(e) => Err(e),
        },
        _ => Ok(f),
    }
}

impl Feedback {
    /// The empty aggregate.
    pub fn new() -> (r: Self)
        ensures
            r == feedback_empty(),
    {
        Feedback { basic_sensor_data: None, docking_ir: None, inertial_sensor: None }
    }

    /// Merges one sub-payload into the aggregate.  On an error the
    /// aggregate is left as it was.
    pub fn add_subpayload(&mut self, id: FeedbackId, data: &[u8]) -> (r: Result<
        (),
        DecodeError,
    >)
        ensures
            match spec_add_subpayload(*old(self), id, data@) {
                Ok(f) => r == Result::<(), DecodeError>::Ok(()) && *final(self) == f,
                Err(e) => r == Result::<(), DecodeError>::Err(e) && *final(self) == *old(self),
            },
    {
        match id {
            FeedbackId::BasicSensorData => {
                match BasicSensorData::try_from_bytes(data) {
                    Ok(b) => {
                        self.basic_sensor_data = Some(b);
                    },
                    Err(e) => {
                        return Err(e);
                    },
                }
            },
            FeedbackId::DockingIR => {
                match DockingIr::try_from_bytes(data) {
                    Ok(b) => {
                        self.docking_ir = Some(b);
                    },
                    Err(e) => {
                        return Err(e);
                    },
                }
            },
            FeedbackId::InertialSensor => {
                match InertialSensor::try_from_bytes(data) {
                    Ok(b) => {
                        self.inertial_sensor = Some(b);
                    },
                    Err(e) => {
                        return Err(e);
                    },
                }
            },
            _ => {},
        }
        Ok(())
    }
}

} // verus!
