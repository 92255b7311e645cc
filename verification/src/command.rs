use vstd::prelude::*;

verus! {

/// What the emulator is asked to run.
pub enum Command {
    /// Runs the specified ROM.
    Run { file: String },
    /// Runs the specified ROM with the given image as the boot ROM.
    Custom { boot_file: String, file: String },
    /// Runs the specified ROM, but skips the boot sequence.
    Skip { file: String },
    /// Runs with no ROM loaded.
    Default,
}

} // verus!
