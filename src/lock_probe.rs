//! Whether the backend executable can be replaced, judged by moving it aside
//! and back again.

use vstd::prelude::*;

verus! {

/// What happened when the executable was moved aside and back.
#[derive(Clone, Copy, Debug)]
pub enum RenameProbe {
    /// No file at the path: nothing can hold it.
    Missing,
    /// Moving the file aside failed: something holds it.
    MoveRefused,
    /// Moved aside and restored under its name.
    Restored,
    /// Moved aside, but moving it back failed.
    NotRestored,
}

#[derive(Clone, Copy, Debug)]
pub struct LockVerdict {
    pub unlocked: bool,
    /// The file was moved aside and could not be put back: worth a warning.
    pub restore_failed: bool,
}

/// A successful move aside already shows that the file is not held, whether or
/// not it could be restored.
pub fn lock_verdict(p: RenameProbe) -> (r: LockVerdict)
    ensures
        r.unlocked == !(p is MoveRefused),
        r.restore_failed == (p is NotRestored),
        p is Missing ==> r.unlocked,
{
    match p {
        RenameProbe::Missing => LockVerdict { unlocked: true, restore_failed: false },
        RenameProbe::MoveRefused => LockVerdict { unlocked: false, restore_failed: false },
        RenameProbe::Restored => LockVerdict { unlocked: true, restore_failed: false },
        RenameProbe::NotRestored => LockVerdict { unlocked: true, restore_failed: true },
    }
}

/// The temporary name the executable is moved to while probing.
pub fn probe_path(exe: &str) -> (r: String)
    ensures
        r@ == exe@ + ".__lockprobe__"@,
{
    String::from_str(exe).concat(".__lockprobe__")
}

} // verus!
