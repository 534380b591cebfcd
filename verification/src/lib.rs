//! Trackball-style interactive rotation: pointer motion and button state,
//! classified into a closed set of semantic events, drive a drag state
//! machine that decides how a controlled object's accumulated 3D orientation
//! changes. The controller answers each event with a rotation command — raw
//! axis and squared cursor travel — that the host realises with its
//! floating-point quaternion and writes to the object's transform.

pub mod controller;
pub mod events;
pub mod math;
