//! Resolving the coordinates of places known only by a map URL.
pub mod decimal;
pub mod extract;
pub mod resolve;
pub mod assemble;
pub mod reconcile;
