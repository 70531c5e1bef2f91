//! Verified decision logic of a PID pendulum demonstrator: the sample
//! layouts that the numerical integrator, differentiator and controller
//! accept, the finite-difference stencil that the differentiator reads,
//! the session state that records the pendulum's history frame by frame,
//! and the canvas title.
pub mod canvas;
pub mod samples;
pub mod session;
