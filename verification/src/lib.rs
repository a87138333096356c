//! Rules of a 2D platformer character controller, stated and proved over
//! exact fixed-point arithmetic, together with the bookkeeping rules of a
//! small journal generator.

pub mod scalar;
pub mod character;
pub mod config;
pub mod context;
pub mod db;
pub mod message;
pub mod post;
pub mod subcommands;
pub mod text;
pub mod web;
