//! Keep-awake core: a pure mapping from keep-awake modes to the power-manager
//! flag sets that must be asserted, the decision logic of the background
//! worker that re-asserts the current mode, and the mode-cycling logic of the
//! three-button panel. The OS call itself, the channel and the thread live in
//! the surrounding application.

pub mod mode;
pub mod panel;
pub mod worker;

pub use mode::State;
pub use mode::flags_for;
pub use panel::Selection;
pub use panel::cycle_back;
pub use panel::cycle_forward;
pub use panel::selected_mode;
pub use worker::StepOutcome;
pub use worker::WorkerEvent;
pub use worker::WorkerStatus;
pub use worker::run_worker_model;
pub use worker::worker_step;
