//! Verified core of a QML video item.
//!
//! A decode engine produces frames on its own threads; a compositor paints them
//! through one render node per item; a control thread issues playback commands.
//! This crate holds every decision the item takes between the three and proves
//! it against a contract. It never touches the engine or the compositor itself:
//! each method records the commands and notifications it decided on, and the
//! host that embeds the item performs them.
#![allow(non_snake_case)]

pub mod callback;
pub mod config;
pub mod counter;
pub mod frame;
pub mod pipeline;
pub mod scene;
pub mod video_item;
pub mod video_player;

