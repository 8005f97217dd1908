//! Touchpad gesture classification and dispatch.
//!
//! Motion, scale and angle samples are fixed-point integers counted in
//! millionths (see [`direction::FIXED_ONE`]).

pub mod control;
pub mod direction;
pub mod event_handler;
pub mod gestures;
pub mod interface;

pub use control::Commands;
pub use direction::{PinchDir, SwipeDir, FIXED_ONE};
pub use event_handler::{ConfigError, EventHandler};
pub use gestures::{
    Action, Config, Gesture, GestureEvent, Hold, HoldEvent, Phase, Pinch, PinchEvent, Swipe,
    SwipeEvent,
};
pub use interface::{Access, Interface};
