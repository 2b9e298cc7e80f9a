//! Decision logic of a small user-records service: the record types, the
//! uniform error value, bearer-token issue and verification, and the
//! per-endpoint rules that say what to answer and when storage may be
//! touched.

pub mod clock;
pub mod error;
pub mod json;
pub mod jwt;
pub mod models;
pub mod routes;
