//! Sound effect identifiers and the sample files they play.

use vstd::prelude::*;

verus! {

/// Sound effect identifiers mapped to WAV filenames.
#[derive(Debug, Clone, Copy, PartialEq, Eq, Structural)]
pub enum Sfx {
    Select,
    Confirm,
    Cancel,
    Hit,
    Sunk,
}

impl Sfx {
    /// The sample file of the effect, in the assets folder.
    pub fn filename(&self) -> (r: &'static str)
        ensures
            r@ == match *self {
                Sfx::Select => "Select 1.wav"@,
                Sfx::Confirm => "Confirm 1.wav"@,
                Sfx::Cancel => "Cancel 1.wav"@,
                Sfx::Hit => "Hit damage 1.wav"@,
                Sfx::Sunk => "Balloon Pop 1.wav"@,
            },
    {
        match self {
            Sfx::Select => "Select 1.wav",
            Sfx::Confirm => "Confirm 1.wav",
            Sfx::Cancel => "Cancel 1.wav",
            Sfx::Hit => "Hit damage 1.wav",
            Sfx::Sunk => "Balloon Pop 1.wav",
        }
    }
}

} // verus!
