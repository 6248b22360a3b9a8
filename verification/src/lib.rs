//! The verified core of an interactive viewer of the Mandelbrot set and of the guessing
//! game built around it.
//!
//! The viewer draws one quad over the whole viewport and lets the fragment stage colour
//! it by a camera; the camera is dragged with the pointer and zoomed with the wheel,
//! within bounds where there are any. What of this is decided on whole numbers, on
//! order and on text is decided here, with contracts: which pointer movements pan and
//! by what share of the view (`input`), how a number is held within bounds (`bounds`),
//! how the surface is configured and resized (`surface`), and what is drawn
//! (`geometry`). The device itself, and arithmetic on the camera's coordinates, are
//! the caller's.
//!
//! The game adds accounts (`user`, `password`), the session cookie (`cookie`, over
//! `text`), the answers of the server to sign-up, login and logout (`auth`), the errors
//! of its database (`database`), and finished games with their leaderboard (`game`).

pub mod auth;
pub mod bounds;
pub mod cookie;
pub mod database;
pub mod game;
pub mod geometry;
pub mod input;
pub mod password;
pub mod surface;
pub mod tech_stack;
pub mod text;
pub mod user;
