//! Dense square matrix multiplication on flat, row-major buffers, with a
//! single-threaded kernel and a row-parallel kernel that are proved to
//! compute the same product.

pub mod dimension;
pub mod layout;
pub mod scalar;
pub mod product;
pub mod kernel;
pub mod laws;
