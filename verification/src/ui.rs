//! The user interface the client reports to, and the small types its
//! sessions use.
use vstd::prelude::*;

verus! {

/// What the client shows to its user.  The application implements it for
/// its window; the library only calls it.
pub trait UI: Clone + 'static {
    /// Shows a line of text in the message log.
    fn output(&self, msg: &str);

    /// Enables the controls of the next step, once the reader is connected.
    fn enable_next_ui(&self);

    /// Enables the controls again when a session ends.
    fn enable_ui(&self);

    /// Shows an EPC found by the inventory, as hex text.
    fn get_inv_epc(&self, epc: &str);

    /// Adds an EPC found while matching to the match table, as hex text.
    fn update_match_table(&self, epc: &str);

    /// Asks the user interface to run the match again.
    fn repeate(&self);
}

/// How a session was started.
#[derive(Clone, Copy)]
pub enum Mode {
    Auto(u8),
    Hand(u8),
}

/// How a session ended.
#[derive(PartialEq, Eq, Structural, Clone, Copy, Debug)]
pub enum CompleteState {
    Complete(u8),
    Error(u8),
    Running(u8),
}

/// Returns the user interface to its idle state after a failed session.
pub fn fault_state<T: UI>(ui: &T) {
    ui.enable_ui();
}

/// Returns the user interface to its idle state after a finished session.
pub fn complete_state<T: UI>(ui: &T) {
    ui.enable_ui();
}

} // verus!
