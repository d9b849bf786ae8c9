//! A four-operation calculator that keeps a history of what it computed,
//! with the texts it shows and a few integer statistics beside it.

pub mod calculator;
pub mod history;
pub mod number;
pub mod stats;
pub mod utils;
