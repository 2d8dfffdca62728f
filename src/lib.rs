//! A small 2D game engine's verified core: vector maths, the placement of
//! drawn shapes, and the frame loop's input tracking and lifecycle.
pub mod logic;
pub mod transform;
pub mod vector;

pub use logic::{centered_x2_of, FrameEvents, FrameInfo, FrameLoop, GameUpdate, MouseButton, Phase, WindowEvent};
pub use transform::{rect_corners, Transform, QUAD_STRIP};
pub use vector::Vector2;
