//! A first-person fly camera controller: mouse motion turns the camera by a
//! clamped pitch and a yaw, held keys steer it, and a toggle key grabs or
//! frees the cursor. Angles are fixed-point, in microradians.

pub mod frame;
pub mod grab;
pub mod look;
pub mod movement;
