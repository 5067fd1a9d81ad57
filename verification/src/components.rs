//! Component data types attached to entities.

pub mod behavioural;
pub mod control;
pub mod phys;
pub mod visual;
