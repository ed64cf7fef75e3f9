//! An allow-listed web page fetcher: the decisions of one HTTP GET, from the
//! target check through the status check to the decoding of the body, as a
//! verified step function that a driver feeds with what the network returned.

pub mod allow;
pub mod body;
pub mod error;
pub mod fetch;
pub mod laws;
pub mod greeting;
