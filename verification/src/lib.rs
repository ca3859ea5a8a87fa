//! The logic of an Archipelago client for Elden Ring.
//!
//! Archipelago is a multiworld randomizer: what one player picks up may belong to
//! another. In the game the randomized items are placeholders. This crate says what a
//! placeholder stands for, which items and map markers are due, which locations are
//! checked, and what the server is told. It holds no game memory and no connection: it
//! takes plain values and returns what is to be done.

pub mod text;
pub mod item_id;
pub mod inventory;
pub mod slot_data;
pub mod save_data;
pub mod item;
pub mod game;
pub mod region_lock;
pub mod client_core;
pub mod display;
pub mod client;
pub mod incoming;
pub mod seed;
pub mod sync;
pub mod locations;
pub mod goal;
pub mod command;
pub mod laws;
