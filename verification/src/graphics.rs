//! GPU context negotiation: the adapter request this system always makes,
//! and the outcome of the one blocking device negotiation at startup.
//!
//! The negotiation itself talks to the GPU driver, so the surrounding
//! binary performs it and reports back whether an adapter was found and
//! whether a device was obtained; this module turns those outcomes into
//! either a context or the fatal startup error they imply.

use vstd::prelude::*;

verus! {

/// Preference among physical adapters during negotiation.
#[derive(Clone, Copy, Debug, PartialEq, Eq, Structural)]
pub enum PowerPreference {
    /// Prefer a high-performance (discrete) adapter.
    HighPerformance,
}

/// The adapter request issued at startup.
#[derive(Clone, Copy, Debug, PartialEq, Eq, Structural)]
pub struct AdapterRequest {
    pub power_preference: PowerPreference,
    /// Never fall back to a software adapter.
    pub force_fallback_adapter: bool,
    /// The adapter must be able to present to the window's surface.
    pub compatible_with_surface: bool,
}

/// Fatal startup errors; both are unrecoverable for this process.
#[derive(Clone, Copy, Debug, PartialEq, Eq, Structural)]
pub enum SetupError {
    /// No adapter compatible with the surface exists.
    AdapterNotFound,
    /// An adapter was found, but device negotiation failed.
    DeviceCreationFailed,
}

/// The logical GPU device and its single command-submission queue, held
/// exclusively by the controller for its entire active lifetime. The
/// underlying handles are opaque to this library and live with the binary.
#[derive(Clone, Copy, Debug, PartialEq, Eq, Structural)]
pub struct GraphicsContext {
    /// The device was negotiated with default feature and limit requirements.
    pub default_features_and_limits: bool,
}

impl GraphicsContext {
    /// The adapter request this system always makes: high-performance
    /// preference, no software fallback, compatible with the surface.
    pub fn adapter_request() -> (r: AdapterRequest)
        ensures
            r.power_preference == PowerPreference::HighPerformance,
            !r.force_fallback_adapter,
            r.compatible_with_surface,
    {
        AdapterRequest {
            power_preference: PowerPreference::HighPerformance,
            force_fallback_adapter: false,
            compatible_with_surface: true,
        }
    }

    /// Conclude the one blocking negotiation at startup from its reported
    /// outcomes: a context exactly when an adapter was found and a device
    /// was obtained, and otherwise the error that names the first failure.
    pub fn create(adapter_found: bool, device_obtained: bool) -> (r: Result<
        GraphicsContext,
        SetupError,
    >)
        ensures
            r is Ok <==> adapter_found && device_obtained,
            !adapter_found ==> r == Result::<GraphicsContext, SetupError>::Err(
                SetupError::AdapterNotFound,
            ),
            adapter_found && !device_obtained ==> r == Result::<GraphicsContext, SetupError>::Err(
                SetupError::DeviceCreationFailed,
            ),
            r matches Ok(c) ==> c.default_features_and_limits,
    {
        if !adapter_found {
            Err(SetupError::AdapterNotFound)
        } else if !device_obtained {
            Err(SetupError::DeviceCreationFailed)
        } else {
            Ok(GraphicsContext { default_features_and_limits: true })
        }
    }
}

} // verus!
