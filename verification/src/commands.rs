//! Command handlers' decision logic: what each command decides and computes,
//! with the terminal and file-system work left to the host binary.

pub mod project;
pub mod sudo;
