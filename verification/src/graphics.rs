//! What the library decides about the answers of the graphics driver.

pub mod shaders;
