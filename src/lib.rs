//! A todo-list session: the list model with selection, marks and deletion, the
//! key controller over it, and the view model that each frame paints.

pub mod controller;
pub mod lemmas;
pub mod model;
pub mod view;
