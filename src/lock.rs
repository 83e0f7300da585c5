//! How the lock step treats the plugins' current state.
use vstd::prelude::*;

verus! {

/// How aggressively the lock step re-resolves plugin sources.
#[derive(Clone, Copy, Debug, PartialEq, Eq)]
pub enum LockMode {
    /// Lock with what is already installed where it is valid.
    Normal,
    /// Fetch the newest versions of the plugin sources.
    Update,
    /// Remove and install every plugin source again.
    Reinstall,
}

/// The lock mode of the `lock` subcommand's `--update` and `--reinstall` flags.
pub open spec fn lock_mode_of_lock_flags(update: bool, reinstall: bool) -> LockMode {
    if update {
        LockMode::Update
    } else if reinstall {
        LockMode::Reinstall
    } else {
        LockMode::Normal
    }
}

/// The lock mode of the `source` subcommand's `--relock`, `--update` and
/// `--reinstall` flags: none where no flag is set; updating or reinstalling
/// implies relocking.
pub open spec fn lock_mode_of_source_flags(relock: bool, update: bool, reinstall: bool) -> Option<LockMode> {
    if update {
        Some(LockMode::Update)
    } else if reinstall {
        Some(LockMode::Reinstall)
    } else if relock {
        Some(LockMode::Normal)
    } else {
        None
    }
}

impl LockMode {
    /// The lock mode of the `lock` subcommand; `--update` and `--reinstall`
    /// never come together.
    pub fn from_lock_flags(update: bool, reinstall: bool) -> (r: Option<Self>)
        requires
            !(update && reinstall),
        ensures
            r == Some(lock_mode_of_lock_flags(update, reinstall)),
            !update && !reinstall ==> r == Some(LockMode::Normal),
            update ==> r == Some(LockMode::Update),
            reinstall ==> r == Some(LockMode::Reinstall),
    {
        match (update, reinstall) {
            (false, false) => Some(Self::Normal),
            (true, false) => Some(Self::Update),
            (false, true) => Some(Self::Reinstall),
            // excluded by the precondition
            (true, true) => None,
        }
    }

    /// The lock mode of the `source` subcommand; `--update` and `--reinstall`
    /// never come together.
    pub fn from_source_flags(relock: bool, update: bool, reinstall: bool) -> (r: Option<Self>)
        requires
            !(update && reinstall),
        ensures
            r == lock_mode_of_source_flags(relock, update, reinstall),
            !relock && !update && !reinstall ==> r == None::<LockMode>,
            relock && !update && !reinstall ==> r == Some(LockMode::Normal),
            update ==> r == Some(LockMode::Update),
            reinstall ==> r == Some(LockMode::Reinstall),
    {
        match (relock, update, reinstall) {
            (false, false, false) => None,
            (true, false, false) => Some(Self::Normal),
            (_, true, false) => Some(Self::Update),
            (_, false, true) => Some(Self::Reinstall),
            // excluded by the precondition
            (_, true, true) => None,
        }
    }
}

/// The `lock` subcommand always yields a lock mode, and a different one for
/// each of its three admissible flag combinations.
pub proof fn lemma_lock_flags_table(update: bool, reinstall: bool)
    requires
        !(update && reinstall),
    ensures
        (!update && !reinstall) <==> lock_mode_of_lock_flags(update, reinstall) == LockMode::Normal,
        update <==> lock_mode_of_lock_flags(update, reinstall) == LockMode::Update,
        reinstall <==> lock_mode_of_lock_flags(update, reinstall) == LockMode::Reinstall,
{
}

/// The `source` subcommand locks only when one of its flags is set, and
/// `--relock` changes nothing once `--update` or `--reinstall` is set.
pub proof fn lemma_source_flags_table(relock: bool, update: bool, reinstall: bool)
    requires
        !(update && reinstall),
    ensures
        lock_mode_of_source_flags(relock, update, reinstall) is None <==> (!relock && !update && !reinstall),
        lock_mode_of_source_flags(relock, update, reinstall) == Some(LockMode::Normal) <==> (relock && !update && !reinstall),
        update ==> lock_mode_of_source_flags(relock, update, reinstall) == lock_mode_of_source_flags(true, update, reinstall),
        reinstall ==> lock_mode_of_source_flags(relock, update, reinstall) == lock_mode_of_source_flags(true, update, reinstall),
        update || reinstall ==> lock_mode_of_source_flags(relock, update, reinstall) == Some(
            lock_mode_of_lock_flags(update, reinstall),
        ),
{
}

} // verus!
