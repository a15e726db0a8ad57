//! Decision logic of the Oyasumi VR sidecars: the sidecar process manager of the
//! core, the dashboard and microphone-indicator state of the overlay sidecar, and
//! the small text formats they build.

pub mod dashboard;
pub mod grpc;
pub mod logname;
pub mod mic;
pub mod sidecar;
pub mod text;
pub mod texture;
pub mod vr;
