//! Administrative commands: the destructive database reset and its
//! confirmation gate.

use vstd::prelude::*;

verus! {

/// Administrative and destructive operations.
#[derive(Debug)]
pub enum SudoCommands {
    /// Database management operations
    Database {
        /// The database operation to perform.
        command: DatabaseCommands,
    },
}

/// Database management operations.
#[derive(Debug)]
pub enum DatabaseCommands {
    /// Reset the database (destructive operation)
    Reset {
        /// Skip confirmation prompt
        skip_confirmation: bool,
    },
}

/// The reset proceeds exactly when its confirmation was skipped by flag or
/// the user confirmed; with the prompt unanswered or declined it is
/// cancelled. Destruction is explicit, never automatic.
pub open spec fn spec_reset_proceeds(skip_confirmation: bool, confirmed: Option<bool>) -> bool {
    skip_confirmation || confirmed == Some(true)
}

/// Decide whether the database reset goes ahead.
pub fn reset_proceeds(skip_confirmation: bool, confirmed: Option<bool>) -> (r: bool)
    ensures
        r == spec_reset_proceeds(skip_confirmation, confirmed),
{
    skip_confirmation || match confirmed {
        Some(c) => c,
        None => false,
    }
}

} // verus!
