use vstd::prelude::*;

pub mod clock;
pub mod decimal;
pub mod decision;
pub mod errors;
pub mod text;
pub mod twitch;
pub mod youtube;

verus! {

/// The remote services whose rate limits this library knows how to respect.
pub enum Api {
    Youtube,
    Twitch,
    Bigquery,
}

} // verus!
