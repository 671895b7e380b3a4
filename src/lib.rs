//! Seabed generation and hazard rules for an underwater game: the terrain
//! grid and its triangle list, which faces feed each vertex normal, the
//! scenery scattered over the seabed, and how hazards enter the view.
pub mod assets;
pub mod hazard;
pub mod normals;
mod random;
pub mod scatter;
pub mod terrain;
