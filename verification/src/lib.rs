//! Game rules of the Dragon World sandbox that do not depend on floating
//! point: WAV encoding of audio clips, the terrain grid topology, the
//! tower layout plan, and the quest / combat / pickup state machines.

pub mod audio;
pub mod combat;
pub mod house;
pub mod menu;
pub mod player;
pub mod quest;
pub mod sword;
pub mod terrain;
pub mod tower;
pub mod wav;
