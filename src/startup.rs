//! What the debug-build start-up hook does with the main window.
//!
//! The hook is only ever compiled into debug builds; a release build holds no
//! call to anything here. The window lookup and the devtools calls are made by
//! the caller, which hands in what the lookup found and performs the steps
//! returned, in order.
use vstd::prelude::*;

verus! {

/// A request to the main window's developer-tools panel.
#[derive(PartialEq, Eq, Structural, Clone, Copy, Debug)]
pub enum DevtoolsStep {
    Open,
    Close,
}

/// Why start-up cannot go on; each such failure ends the process.
#[derive(PartialEq, Eq, Structural, Clone, Copy, Debug)]
pub enum StartupError {
    /// No window named `main` existed when the hook ran.
    MainWindowMissing,
}

/// The steps of the hook once the main window is found: open the panel, then
/// close it at once.
pub open spec fn flash_steps() -> Seq<DevtoolsStep> {
    seq![DevtoolsStep::Open, DevtoolsStep::Close]
}

/// Decides the debug-build hook from the outcome of the main-window lookup:
/// the open-then-close steps when the window was found, and a fatal
/// `MainWindowMissing` when it was not; a missing window is never skipped.
pub fn debug_setup_steps(main_window_found: bool) -> (r: Result<Vec<DevtoolsStep>, StartupError>)
    ensures
        match r {
            Ok(steps) => main_window_found && steps@ == flash_steps(),
            Err(e) => !main_window_found && e == StartupError::MainWindowMissing,
        },
{
    if main_window_found {
        let steps = vec![DevtoolsStep::Open, DevtoolsStep::Close];
        assert(steps@ =~= flash_steps());
        Ok(steps)
    } else {
        Err(StartupError::MainWindowMissing)
    }
}

} // verus!
