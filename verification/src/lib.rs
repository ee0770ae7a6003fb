//! Layered resolution of service deployment manifests and the artifacts
//! derived from them.

pub mod auth;
pub mod context;
pub mod error;
pub mod json;
pub mod kong;
pub mod kongfig;
pub mod kube;
pub mod layers;
pub mod manifest;
pub mod merge;
pub mod plugins;
pub mod status;
pub mod string_map;
pub mod strings;
pub mod structs;
