//! The Visual Studio generator.

pub mod generate;
pub mod guid;
pub mod index_map;
pub mod item;
pub mod pool;
pub mod reached;
pub mod sheets;
pub mod sln;
pub mod solution;
pub mod vcxproj;
pub mod walk;
