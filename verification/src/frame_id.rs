//! The coordinate frame that object poses are expressed in.

use vstd::prelude::*;

verus! {

use crate::text::str_eq;

/// Why a frame name was rejected.
#[derive(Debug)]
pub enum FrameIdError {
    InternalError,
    ValueError(String),
}

/// The sensor frame a pose refers to.
#[derive(Debug, Clone, Copy, PartialEq, Eq, Structural)]
pub enum FrameID {
    // 3D
    BaseLink,
    MapFrame,
    // 2D
    CamBack,
    CamBackLeft,
    CamBackRight,
    CamFront,
    CamFrontLeft,
    CamFrontRight,
    CamTrafficLightNear,
    CamTrafficLightFar,
}

/// Whether `name` spells one of the frame names, in either style.
pub open spec fn spec_frame_of_name(name: Seq<char>) -> Option<FrameID> {
    if name == "BaseLink"@ || name == "base_link"@ {
        Some(FrameID::BaseLink)
    } else if name == "Map"@ || name == "map"@ {
        Some(FrameID::MapFrame)
    } else if name == "CamBack"@ || name == "cam_back"@ {
        Some(FrameID::CamBack)
    } else if name == "CamBackLeft"@ || name == "cam_back_left"@ {
        Some(FrameID::CamBackLeft)
    } else if name == "CamBackRight"@ || name == "cam_back_right"@ {
        Some(FrameID::CamBackRight)
    } else if name == "CamFront"@ || name == "cam_front"@ {
        Some(FrameID::CamFront)
    } else if name == "CamFrontLeft"@ || name == "cam_front_left"@ {
        Some(FrameID::CamFrontLeft)
    } else if name == "CamFrontRight"@ || name == "cam_front_right"@ {
        Some(FrameID::CamFrontRight)
    } else if name == "CamTrafficLightNear"@ || name == "cam_traffic_light_near"@ {
        Some(FrameID::CamTrafficLightNear)
    } else if name == "CamTrafficLightFar"@ || name == "cam_traffic_light_far"@ {
        Some(FrameID::CamTrafficLightFar)
    } else {
        None
    }
}

impl FrameID {
    /// Parse a frame name; any other string is a value error carrying the
    /// offending name.
    pub fn from_str(input: &str) -> (r: Result<FrameID, FrameIdError>)
        ensures
            match spec_frame_of_name(input@) {
                Some(frame) => r matches Ok(f) && f == frame,
                None => r matches Err(FrameIdError::ValueError(s)) && s@ == input@,
            },
    {
        if str_eq(input, "BaseLink") || str_eq(input, "base_link") {
            Ok(FrameID::BaseLink)
        } else if str_eq(input, "Map") || str_eq(input, "map") {
            Ok(FrameID::MapFrame)
        } else if str_eq(input, "CamBack") || str_eq(input, "cam_back") {
            Ok(FrameID::CamBack)
        } else if str_eq(input, "CamBackLeft") || str_eq(input, "cam_back_left") {
            Ok(FrameID::CamBackLeft)
        } else if str_eq(input, "CamBackRight") || str_eq(input, "cam_back_right") {
            Ok(FrameID::CamBackRight)
        } else if str_eq(input, "CamFront") || str_eq(input, "cam_front") {
            Ok(FrameID::CamFront)
        } else if str_eq(input, "CamFrontLeft") || str_eq(input, "cam_front_left") {
            Ok(FrameID::CamFrontLeft)
        } else if str_eq(input, "CamFrontRight") || str_eq(input, "cam_front_right") {
            Ok(FrameID::CamFrontRight)
        } else if str_eq(input, "CamTrafficLightNear") || str_eq(input, "cam_traffic_light_near") {
            Ok(FrameID::CamTrafficLightNear)
        } else if str_eq(input, "CamTrafficLightFar") || str_eq(input, "cam_traffic_light_far") {
            Ok(FrameID::CamTrafficLightFar)
        } else {
            Err(FrameIdError::ValueError(input.to_owned()))
        }
    }
}

} // verus!
