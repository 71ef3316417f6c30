//! The core of a windowing event loop: the state machines that stand
//! between a native run loop and the application, with their contracts
//! proved.
//!
//! The native run loop tells the [`ApplicationDelegate`] that the application
//! has launched, that the loop woke up, that it is about to sleep, or that it
//! is terminating. The delegate turns each notification into an ordered
//! sequence of calls to the installed [`ApplicationHandler`], never one
//! inside another, and leaves behind what the run loop has to do next: yield
//! to its caller, wake up, or sleep until a deadline.
//!
//! What the delegate promises about its calls is stated over the record
//! that a handler keeps of the calls it received, each with the state of
//! the event loop before and after: which calls are made, in which order,
//! and that between two calls nobody but the handler touches what the
//! handler can reach.
//!
//! Around the delegate stand the pieces that it is made of or that reach it:
//! the [`EventHandler`] cell that guards the handler against reentrant use,
//! the [`EventLoopWaker`] that schedules the next wake, the
//! [`LateArrivals`] that wait while the delegate cannot be reached, the
//! [`Dispatcher`] that carries operations from other threads to the main
//! thread, and the [`Ime`] registry of input-method contexts.
//!
//! Nothing here touches the native side. What has to be done there is
//! returned or left to be picked up, as plain values.

pub mod active_event_loop;
pub mod app_state;
pub mod application;
pub mod delegate_state;
pub mod dispatcher;
pub mod event;
pub mod event_handler;
pub mod ime;
pub mod late;
pub mod launch;
pub mod main_thread;
pub mod monitor;
pub mod pending_redraw;
pub mod recorder;
pub mod time;
pub mod waker;
pub mod window;

pub use crate::active_event_loop::ActiveEventLoop;
pub use crate::active_event_loop::EventLoopState;
pub use crate::app_state::ApplicationDelegate;
pub use crate::application::ApplicationHandler;
pub use crate::application::Call;
pub use crate::application::Record;
pub use crate::delegate_state::DelegateState;
pub use crate::late::Late;
pub use crate::late::LateArrivals;
pub use crate::launch::window_activation_hack;
pub use crate::launch::ActivationPolicy;
pub use crate::launch::LaunchPlan;
pub use crate::dispatcher::Dispatcher;
pub use crate::dispatcher::Queued;
pub use crate::dispatcher::TargetDestroyed;
pub use crate::event::ControlFlow;
pub use crate::event::Event;
pub use crate::event::StartCause;
pub use crate::event::WindowEvent;
pub use crate::event::WindowId;
pub use crate::event_handler::EventHandler;
pub use crate::event_handler::HandlerState;
pub use crate::ime::ChangeAllowed;
pub use crate::ime::ContextRequest;
pub use crate::ime::Ime;
pub use crate::ime::ImeContext;
pub use crate::ime::ImeEvent;
pub use crate::ime::ImeInner;
pub use crate::ime::ImeRequest;
pub use crate::ime::RemovedContext;
pub use crate::ime::SpotArea;
pub use crate::main_thread::MainThreadMarker;
pub use crate::monitor::refresh_rate_millihertz;
pub use crate::pending_redraw::PendingRedraw;
pub use crate::recorder::Recorder;
pub use crate::time::min_timeout;
pub use crate::time::Instant;
pub use crate::waker::EventLoopWaker;
pub use crate::waker::WakeAt;
