//! Event-loop and display-negotiation core of a windowing backend that runs
//! directly on the kernel's mode-setting and input subsystems.
//!
//! Everything here works on plain values: the kernel, the seat service, the
//! keymap compiler and the reactor are driven from outside the library, which
//! hands their answers in and receives decisions back.

pub mod control;
pub mod device;
pub mod event_loop;
pub mod monitor;
pub mod negotiate;
pub mod proxy;
pub mod repeat;

pub use control::{ControlFlow, DispatchPlan, StartCause};
pub use event_loop::{LoopEvent, LoopState};
pub use monitor::{DeviceId, FBInfo, MonitorHandle, VideoMode, WindowId};
pub use proxy::{EventLoopClosed, EventLoopProxy};
