//! Core logic of a client-rendered portfolio site: theming, route
//! resolution, navigation state for the action bar, and the modal image
//! viewer with its overlay dismissal rules.

pub mod actionbar;
pub mod app;
pub mod assets;
pub mod fa_icon;
pub mod gallery;
pub mod home;
pub mod image_viewer;
pub mod overlay;
pub mod page;
pub mod tag;
pub mod text;
pub mod theme;
