//! What holds of the results of the library's functions, stated over what goes in
//! and what comes out, and how the results of several calls go together.
//!
//! `call_ensures(f, args, result)` reads: a call of `f` on `args` gave `result`.
pub mod bars;
pub mod counts;
pub mod facts;
pub mod failures;
pub mod handles;
pub mod lines;
pub mod paths;
pub mod prefetch;
pub mod reading;
pub mod records;
pub mod requests;
pub mod searching;
pub mod values;
pub mod walking;
pub mod widths;
