//! The configuration of one invocation.

use vstd::prelude::*;

verus! {

/// Create symlinks quickly and easily even if there are files there already.
#[derive(Debug, Clone)]
pub struct HookArgs {
    /// The file path where you wish the real files to be.
    pub source: String,
    /// The file path where you wish the symlink files to be.
    pub destination: String,
    /// Set symlinks as relative to the destination file.
    pub relative: bool,
    /// When there is the possibility for data loss, ask the user for confirmation.
    pub interactive: bool,
    /// Overwrite the destination files without asking.
    pub force: bool,
    /// Do not print any output except errors and required prompts.
    pub quiet: bool,
    /// Print more information about the operation.
    pub verbose: bool,
    /// Don't create symlinks, just print what would be done.
    pub dry_run: bool,
}

impl HookArgs {
    /// `force` and `interactive` both answer the question of what to do when
    /// data could be lost; a configuration that sets both contradicts itself.
    pub open spec fn contradictory(&self) -> bool {
        self.force && self.interactive
    }

    /// A conflict may be settled at all: by `force`, or by asking.
    pub open spec fn may_overwrite(&self) -> bool {
        self.force || self.interactive
    }

    /// Tells whether the configuration sets both `force` and `interactive`.
    pub fn is_contradictory(&self) -> (r: bool)
        ensures
            r == self.contradictory(),
    {
        self.force && self.interactive
    }
}

} // verus!
