use vstd::prelude::*;

verus! {

/// Fixed diagnostic printed when the application shell fails to start.
pub const STARTUP_DIAGNOSTIC: &'static str = "error while running tauri application";

/// Exit status of a process whose application shell failed to start.
pub const STARTUP_EXIT_CODE: i32 = 1;

/// A fatal startup failure: the process prints `message()` and exits with `code`.
pub struct Abort {
    pub code: i32,
    /// What the application shell reported.
    pub cause: String,
}

/// How startup ended: there is no third state in between.
pub enum Startup {
    /// The shell came up and ran; commands were served.
    Running,
    /// The shell failed to come up; the process ends at once and no command is served.
    Aborted(Abort),
}

impl Abort {
    /// The line printed before the process exits: the fixed diagnostic, then the cause.
    pub fn message(&self) -> (r: String)
        ensures
            r@ == STARTUP_DIAGNOSTIC@ + ": "@ + self.cause@,
    {
        let head = String::from_str(STARTUP_DIAGNOSTIC);
        let head = head.concat(": ");
        head.concat(self.cause.as_str())
    }
}

impl Startup {
    /// Decides what the process does with the outcome of starting the application shell:
    /// success leaves it running; any failure is fatal, with the fixed exit status.
    pub fn from_shell(outcome: Result<(), String>) -> (r: Startup)
        ensures
            outcome is Ok <==> r is Running,
            outcome is Err ==> r == Startup::Aborted(
                Abort { code: STARTUP_EXIT_CODE, cause: outcome->Err_0 },
            ),
    {
        match outcome {
            Ok(()) => Startup::Running,
            Err(cause) => Startup::Aborted(Abort { code: STARTUP_EXIT_CODE, cause }),
        }
    }
}

} // verus!
