//! Rendering of a book, a tree of chapters, into HTML pages through a
//! template engine: the table of contents, the template context shared by all
//! pages, the context of each chapter, and the order in which pages are made.

pub mod book;
pub mod config;
pub mod context;
pub mod engine;
pub mod error;
pub mod helpers;
pub mod json;
pub mod renderer;
pub mod settings;
pub mod text;
pub mod theme;
pub mod toc;

pub use crate::config::{HtmlConfig, Playpen};
pub use crate::renderer::HtmlRenderer;
