//! Generation of the Android (Jetpack Compose) project files of a Dowe application.
use vstd::prelude::*;

pub mod text;
pub mod context;
pub mod artifacts;
pub mod style_values;
pub mod layout;
pub mod navigation;
pub mod values;
pub mod forms;
pub mod form_node;
pub mod media;
pub mod data;
pub mod shell;
pub mod display;
pub mod text_node;
pub mod button;
pub mod tree;
pub mod overlays;
pub mod laws;
pub mod sorted;
pub mod consumption;
pub mod generate;
pub mod svg_paint;

