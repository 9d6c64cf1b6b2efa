//! The state the application shares between its commands.

use vstd::prelude::*;

verus! {

/// The shared state, as values: the stop flag of the running session
/// (`Some(true)` while a stop is requested) and the name of the serial
/// port the user connected to.  The application keeps each behind its own
/// lock, the flag behind two, so that a session can hold its own handle on
/// the inner one.
pub struct Transfer {
    pub cancel_handle: Option<bool>,
    pub uartport: Option<String>,
}

impl Transfer {
    /// A state with no stop request and no port.
    pub fn new() -> (state: Self)
        ensures
            state.cancel_handle == None::<bool>,
            state.uartport is None,
    {
        Transfer { cancel_handle: None, uartport: None }
    }
}

} // verus!
