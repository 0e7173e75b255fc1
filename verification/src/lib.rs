//! Safe, verified protocol core for controlling an XR session runtime that is
//! shipped as a versioned C-ABI shared library.
//!
//! The runtime is driven through a fixed set of foreign entry points that
//! communicate via integer result codes, raw handles and C strings. This
//! crate holds the part of the wrapper that can be checked: the result-code
//! mapping, version negotiation, the handle lifecycle, the snapshot
//! enumeration protocols for clients and devices, and the per-client
//! decisions (state flags, I/O toggling, text decoding). An embedding
//! program owns the actual library handle and the foreign calls; it drives
//! the state machines here with the codes and values those calls return and
//! performs the calls the machines request.

pub mod clients;
pub mod codes;
pub mod devices;
pub mod flags;
pub mod session;
pub mod text;
pub mod version;

pub use clients::{Client, ClientSnapshot, SnapAction, SnapEvent};
pub use codes::MndResult;
pub use devices::{Device, DeviceListBuilder};
pub use flags::{ClientState, ClientStateSet};
pub use session::{LifeAction, LifeEvent, Monado, Phase};
pub use version::ApiVersion;
