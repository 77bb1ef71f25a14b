//! Verified bookkeeping core for a family of GPU rendering demos.
//!
//! The GPU itself (devices, queues, swap chains, shaders) is driven by an
//! unverified front end; this crate holds the parts that are plain data and
//! plain arithmetic: texture row padding for read-back, capture bookkeeping,
//! bind-group planning, mesh assembly and integer-coordinate geometry.

pub mod binding;
pub mod capture;
pub mod controller;
pub mod draw;
pub mod geometry;
pub mod instances;
pub mod mesh;
pub mod uniforms;
pub mod vertex_layout;
