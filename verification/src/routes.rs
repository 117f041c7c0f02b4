//! What each request of the service is answered with. The functions here
//! decide; reading from storage, the network and the clock is left to the
//! caller, who hands in what was read.

pub mod auth;
pub mod members;
