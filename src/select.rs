use vstd::prelude::*;

use rand::rngs::ThreadRng;
use rand::seq::IteratorRandom;

verus! {

#[verifier::external_type_specification]
#[verifier::external_body]
pub struct ExThreadRng(ThreadRng);

/// Relies on rand's `IteratorRandom::choose` over the range `0..n`: an empty
/// range gives `None`, any other range one of its positions, drawn uniformly.
#[verifier::external_body]
fn choose_index(rng: &mut ThreadRng, n: usize) -> (r: Option<usize>)
    ensures
        match r {
            None => n == 0,
            Some(i) => i < n,
        },
{
    (0..n).choose(rng)
}

/// Which sound to play.
#[derive(Clone, Copy, Debug, PartialEq, Eq, Structural)]
pub enum SoundChoice {
    /// There is no sound for this response: nothing is played.
    Nothing,
    /// The entry at this position in the listing of the response's directory.
    DirectoryEntry(usize),
    /// The built-in sound at this position in the response's collection.
    Builtin(usize),
}

/// What holds of a choice, whatever the draw: with a directory configured
/// (`dir_entries` holds the size of its listing) an entry of it, else a
/// built-in sound, and nothing exactly where the candidate set is empty.
pub open spec fn valid_choice(dir_entries: Option<usize>, builtin_len: usize, c: SoundChoice) -> bool {
    match dir_entries {
        Some(n) => match c {
            SoundChoice::Nothing => n == 0,
            SoundChoice::DirectoryEntry(i) => i < n,
            SoundChoice::Builtin(_) => false,
        },
        None => match c {
            SoundChoice::Nothing => builtin_len == 0,
            SoundChoice::DirectoryEntry(_) => false,
            SoundChoice::Builtin(i) => i < builtin_len,
        },
    }
}

/// The choice that a drawn position stands for.
pub open spec fn choice_of(dir_configured: bool, pick: Option<usize>) -> SoundChoice {
    match pick {
        None => SoundChoice::Nothing,
        Some(i) => if dir_configured {
            SoundChoice::DirectoryEntry(i)
        } else {
            SoundChoice::Builtin(i)
        },
    }
}

/// The number of candidates: the directory's entries where one is
/// configured, else the built-in sounds.
pub open spec fn candidate_count(dir_entries: Option<usize>, builtin_len: usize) -> usize {
    match dir_entries {
        Some(n) => n,
        None => builtin_len,
    }
}

/// Turns a drawn position (`None` where there was nothing to draw from)
/// into a choice of sound.
pub fn sound_for_pick(dir_entries: Option<usize>, pick: Option<usize>) -> (r: SoundChoice)
    ensures
        r == choice_of(dir_entries is Some, pick),
{
    match pick {
        None => SoundChoice::Nothing,
        Some(i) => match dir_entries {
            Some(_) => SoundChoice::DirectoryEntry(i),
            None => SoundChoice::Builtin(i),
        },
    }
}

/// Picks the sound to play, uniformly among the candidates that exist now:
/// the `dir_entries` entries of the response's directory where one is
/// configured, else the `builtin_len` built-in sounds. An empty set gives
/// `Nothing`, which is no error.
pub fn choose_sound(rng: &mut ThreadRng, dir_entries: Option<usize>, builtin_len: usize) -> (r:
    SoundChoice)
    ensures
        valid_choice(dir_entries, builtin_len, r),
        r == SoundChoice::Nothing <==> candidate_count(dir_entries, builtin_len) == 0,
{
    let n: usize = match dir_entries {
        Some(k) => k,
        None => builtin_len,
    };
    let pick = choose_index(rng, n);
    sound_for_pick(dir_entries, pick)
}

} // verus!
