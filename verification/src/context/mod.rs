//! What the templates of each page are given.

pub mod home;
