pub mod app_builder;
pub mod builder;
pub mod error;
pub mod render;
pub mod source;

pub use app_builder::{AppBuilder, BuildPlan};
pub use builder::{Builder, MarkerBuilder, ScriptedBuilder};
pub use error::BuildError;
pub use render::{render_dockerfile, render_env};
pub use source::AppSource;
