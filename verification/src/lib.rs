//! A safety layer over the kernel mode-setting interface, written without any
//! input or output of its own.
//!
//! The crate decides *which* native calls are to be made, in which order, and
//! what their answers mean; a driver outside the crate performs the calls and
//! hands the answers back as plain values.  Every native call the layer asks
//! for is a [`native::NativeCall`]; every answer is an integer status or a
//! record read from native memory.
//!
//! * [`device`] holds the handles.  A handle is unprivileged or master, in
//!   its type; queries exist on master handles only.  A scoped elevation,
//!   [`device::MasterScope`], steps from the request for exclusive control
//!   through the work to the release, and releases on every path.
//! * [`resources`] and [`connector`] hold the two records a master handle
//!   can fetch.  Each owns its native memory and names, when it is given up,
//!   the call that frees each part of it.
//! * [`mode`] decodes a native mode record into an owned mode.

pub mod array;
pub mod connector;
pub mod device;
pub mod error;
pub mod mode;
pub mod native;
pub mod resources;

pub use device::{Device, DeviceType, Master, MasterScope, ScopeAction, ScopeEvent, Unprivileged};
pub use error::{Error, ErrorKind};
pub use native::{is_drm_available, NativeCall, ReleaseProtocol};
