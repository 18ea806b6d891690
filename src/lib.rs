//! Verified core of a canvas note-taking interface: the geometry of resizing
//! nodes by their corner handles, the splitting of node text into link and
//! plain sections, label editing from keyboard input, and the small decision
//! tables that the widgets are built from.

pub mod geometry;
pub mod sections;
pub mod editing;
pub mod widgets;
pub mod keyboard;
