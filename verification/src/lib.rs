//! Rendering-layer utilities for a small game engine: the game-wide
//! configuration bags and a GPU mipmap-chain generator built on a
//! full-screen-triangle blit pipeline.

pub mod config;
pub mod mip;
