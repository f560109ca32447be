//! Backend logic of a desktop application shell: greeting and simulated
//! content, and the gateway that decides which operating-system program is
//! started for a "reveal path" or "run command" request.

pub mod text;
pub mod words;
pub mod policy;
pub mod host;
pub mod model;
pub mod command;
pub mod browse;
pub mod content;
pub mod info;
