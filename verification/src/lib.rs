//! Game-side logic of a bow-drawing arcade game: the identifier scheme used
//! to tag objects by their owning player, keyboard movement state, the
//! mouse-gesture state machine that nocks, draws and releases arrows, and the
//! bookkeeping that retires landed arrows.

pub mod synchro;
pub mod controls;
pub mod drawing;
pub mod arrows;
pub mod assets;
