//! The error of a failed setup.
use vstd::prelude::*;

verus! {

/// Why setting up the graphics context failed. Every variant is fatal.
#[derive(Clone, Debug, PartialEq, Eq)]
pub enum AppError {
    /// The driver lists no physical device.
    NoDevices,
    /// No physical device meets the requirements.
    NoSuitableDevice,
    /// A required instance layer is not available.
    MissingLayer,
    /// A required instance or device extension is not available.
    MissingExtension,
    /// A native object could not be created.
    Init(String),
    Unknown,
}

impl AppError {
    /// A sentence that describes the error.
    pub fn message(&self) -> (r: String)
        ensures
            r@ == message_spec(*self),
    {
        match self {
            AppError::NoDevices => "No vk physical devices to use".to_owned(),
            AppError::NoSuitableDevice => "Could not find suitable GPU".to_owned(),
            AppError::MissingLayer => "One or more required layers are not supported!".to_owned(),
            AppError::MissingExtension => "One or more required extensions are not supported!".to_owned(),
            AppError::Init(s) => s.clone(),
            AppError::Unknown => "Unknown error".to_owned(),
        }
    }
}

pub open spec fn message_spec(e: AppError) -> Seq<char> {
    match e {
        AppError::NoDevices => "No vk physical devices to use"@,
        AppError::NoSuitableDevice => "Could not find suitable GPU"@,
        AppError::MissingLayer => "One or more required layers are not supported!"@,
        AppError::MissingExtension => "One or more required extensions are not supported!"@,
        AppError::Init(s) => s@,
        AppError::Unknown => "Unknown error"@,
    }
}

} // verus!
