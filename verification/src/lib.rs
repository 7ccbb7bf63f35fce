//! Verified core of an online-market backend: the live location relay and the
//! decisions its request handlers and repositories make.

pub mod data;
pub mod handler;
pub mod model;
pub mod relay;
