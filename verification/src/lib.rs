//! Bridge between a status-code, out-parameter accessibility API and owned,
//! typed values, with the focus-chain walk built on top of it.

pub mod accessibility;
pub mod controller;
pub mod event;
pub mod poll;
