//! The settings of a run, and where they come from.

use vstd::prelude::*;
use crate::error::Failure;

verus! {

/// The settings of a run. Nothing changes them once they are loaded.
#[derive(Debug)]
pub struct Config {
    pub username: String,
    pub password: String,
    pub server_url: String,
    pub room_name: String,
}

/// A `Config` as four sequences of characters.
pub struct ConfigView {
    pub username: Seq<char>,
    pub password: Seq<char>,
    pub server_url: Seq<char>,
    pub room_name: Seq<char>,
}

impl View for Config {
    type V = ConfigView;

    open spec fn view(&self) -> ConfigView {
        ConfigView {
            username: self.username@,
            password: self.password@,
            server_url: self.server_url@,
            room_name: self.room_name@,
        }
    }
}

impl Clone for Config {
    fn clone(&self) -> (copy: Config)
        ensures
            copy == *self,
    {
        Config {
            username: self.username.clone(),
            password: self.password.clone(),
            server_url: self.server_url.clone(),
            room_name: self.room_name.clone(),
        }
    }
}

/// What one of the places searched for a configuration gave.
#[derive(Debug)]
pub enum Candidate {
    /// Nothing is there.
    Missing,
    /// Something is there, but it cannot be read as the four settings.
    Invalid,
    /// The settings that were read there.
    Valid(Config),
}

/// `i` is the first place in `found` where something is.
pub open spec fn first_present(found: Seq<Candidate>, i: int) -> bool {
    &&& 0 <= i < found.len()
    &&& !(found[i] is Missing)
    &&& forall|j: int| 0 <= j < i ==> found[j] is Missing
}

/// Nothing is in any place of `found`.
pub open spec fn all_missing(found: Seq<Candidate>) -> bool {
    forall|j: int| 0 <= j < found.len() ==> found[j] is Missing
}

/// What a candidate that is present yields.
pub open spec fn yield_of(candidate: Candidate) -> Result<Config, Failure> {
    match candidate {
        Candidate::Valid(config) => Ok(config),
        _ => Err(Failure::ConfigParseError),
    }
}

/// The first place in `found` where something is. It is meant for a `found`
/// in which not everything is missing.
pub open spec fn first_index(found: Seq<Candidate>) -> int {
    choose|i: int| first_present(found, i)
}

/// The configuration that `found` gives: what the first place where
/// something is yields, or `ConfigNotFound` with nothing anywhere.
pub open spec fn chosen(found: Seq<Candidate>) -> Result<Config, Failure> {
    if all_missing(found) {
        Err(Failure::ConfigNotFound)
    } else {
        yield_of(found[first_index(found)])
    }
}

/// Only one place can be the first where something is, and it is the one
/// that `chosen` goes by.
pub proof fn first_present_decides(found: Seq<Candidate>, i: int)
    requires
        first_present(found, i),
    ensures
        !all_missing(found),
        first_index(found) == i,
        chosen(found) == yield_of(found[i]),
{
    let k = first_index(found);
    assert(first_present(found, k));
    if k < i {
        assert(found[k] is Missing);
    }
    if i < k {
        assert(found[i] is Missing);
    }
}

/// Picks the configuration among what the places searched gave, in their
/// order of preference.
///
/// The first place where something is decides: its settings are returned, or
/// `ConfigParseError` if it holds no valid settings. Later places are not
/// consulted, not even when the first is invalid. With nothing anywhere the
/// result is `ConfigNotFound`.
pub fn load_config(found: &Vec<Candidate>) -> (loaded: Result<Config, Failure>)
    ensures
        loaded == chosen(found@),
        all_missing(found@) <==> loaded == Err::<Config, Failure>(Failure::ConfigNotFound),
        forall|i: int| first_present(found@, i) ==> loaded == yield_of(#[trigger] found@[i]),
{
    let mut i: usize = 0;
    while i < found.len()
        invariant
            i <= found.len(),
            forall|j: int| 0 <= j < i ==> found@[j] is Missing,
        decreases found.len() - i,
    {
        match &found[i] {
            Candidate::Missing => {},
            Candidate::Invalid => {
                proof {
                    first_present_decides(found@, i as int);
                }
                return Err(Failure::ConfigParseError);
            },
            Candidate::Valid(config) => {
                proof {
                    first_present_decides(found@, i as int);
                }
                return Ok(config.clone());
            },
        }
        i += 1;
    }
    Err(Failure::ConfigNotFound)
}

} // verus!
