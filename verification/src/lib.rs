//! An in-process calculator server: the activation, instance-state and
//! self-registration rules of a COM class, stated as contracts over plain
//! values and proved.
//!
//! The hosting glue (exported entry points, interface dispatch, registry and
//! loader calls, the instance lock) lives outside this crate and drives the
//! functions here with the values it obtained from the system.
#![allow(non_snake_case)]
#![allow(non_upper_case_globals)]

pub mod identity;
pub mod error;
pub mod calculator;
pub mod loader;
pub mod registration;
pub mod class_factory;
pub mod export;
