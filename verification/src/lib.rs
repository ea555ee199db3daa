//! Game logic of the ROSE Online client's resources, systems and user
//! interface windows: passive recovery, entity event reactions, the character
//! information window and the skill list debug window.

pub mod name_pattern;
pub mod resources;
pub mod systems;
pub mod text;
pub mod ui;
