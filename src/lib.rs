//! Small, self-contained building blocks: newtype wrappers, a closed set of
//! shapes, generic containers, constant tables and string-producing traits,
//! each with its behaviour stated as a contract.

pub mod composite;
pub mod config_flag;
pub mod constants;
pub mod decimal;
pub mod generic_traits;
pub mod generic_impl;
pub mod newtype;
pub mod parameter_order;
pub mod shape;
