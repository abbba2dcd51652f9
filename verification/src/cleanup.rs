//! The interrupt that ends the session: the first one asks it to wind up,
//! the second one forces it out.

use vstd::prelude::*;

verus! {

/// What to do on an interrupt signal.
#[derive(Debug, Clone, Copy, PartialEq, Eq, Structural)]
pub enum SignalResponse {
    /// Let the work at hand finish and leave at the next check.
    WindUp,
    /// Leave at once.
    ForceExit,
}

/// The token by which work that may block learns of an interrupt.
#[derive(Debug, Clone, Copy, PartialEq, Eq, Structural)]
pub struct Interrupt {
    pub interrupted: bool,
}

impl Interrupt {
    /// A token that no signal has reached.
    pub fn new() -> (r: Self)
        ensures
            !r.interrupted,
    {
        Interrupt { interrupted: false }
    }

    /// Takes a signal: the first one is recorded, any later one forces the
    /// exit.
    pub fn signal(&mut self) -> (r: SignalResponse)
        ensures
            final(self).interrupted,
            r == (if old(self).interrupted {
                SignalResponse::ForceExit
            } else {
                SignalResponse::WindUp
            }),
    {
        if self.interrupted {
            SignalResponse::ForceExit
        } else {
            self.interrupted = true;
            SignalResponse::WindUp
        }
    }
}

/// Whether a signal has reached the token.
pub fn is_interrupted(token: &Interrupt) -> (r: bool)
    ensures
        r == token.interrupted,
{
    token.interrupted
}

/// What becomes of the temporary directory at the end.
#[derive(Debug, Clone, Copy, PartialEq, Eq, Structural)]
pub enum TempDirFate {
    /// It stays, and the user is told where it is.
    Keep,
    /// It is removed with all that is in it.
    Remove,
}

/// What becomes of the temporary directory, by the user's wish to keep it.
pub fn temp_dir_fate(keep: bool) -> (r: TempDirFate)
    ensures
        r == (if keep {
            TempDirFate::Keep
        } else {
            TempDirFate::Remove
        }),
{
    if keep {
        TempDirFate::Keep
    } else {
        TempDirFate::Remove
    }
}

} // verus!
