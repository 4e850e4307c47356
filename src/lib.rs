//! Start-up sequence of a desktop application: the fixed layout of its data
//! directory, the capability modules it exposes to its frontend, the
//! bootstrap state machine that provisions the layout, a model of the host
//! with the laws that a launch obeys, and the folder-picker bridge command.

pub mod bootstrap;
pub mod capability;
pub mod dialog;
pub mod host;
pub mod layout;
