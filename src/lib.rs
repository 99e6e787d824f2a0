//! A small compute service: a parallel filter-square-sum over random values,
//! the size normalisation of its query parameter, and the text of its answers.

pub mod aggregate;
pub mod draw;
pub mod size;
pub mod text;
pub mod service;
pub mod page;
