//! Odd list shapes built from the other containers.

pub mod double_single;
