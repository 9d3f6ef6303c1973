//! Verified layout and control core of a batch trainer for feed-forward
//! neural networks.
//!
//! Everything here works on dimensions, indices and decisions: which slice of
//! the parameter vector a layer owns, where a layer's columns stand in the
//! network Jacobian, which entry of a layer's parameter Jacobian carries which
//! input, when a line search or a damping loop has to give up, and when the
//! conjugate-gradient direction restarts. The numeric kernels that evaluate
//! layers and solve the damped normal equations are driven by these answers.

pub mod damping;
pub mod error;
pub mod layer;
pub mod line_search;
pub mod network;
pub mod schedule;
pub mod trainer;
