//! Input-driven camera control for a real-time 3D viewer.
//!
//! The library keeps the state that the viewer's input handling decides on:
//! which keys are held, which way the camera moves on each axis, whether the
//! mouse is dragging, and the camera's yaw and pitch. Angles are held as whole
//! micro-radians, so that the pitch limit and the accumulation of mouse motion
//! are exact.
pub mod keyboard;
pub mod orientation;
pub mod integrator;

