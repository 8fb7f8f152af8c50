//! A 2D camera system for games: the bookkeeping and scheduling of following,
//! shake and transitions, the integer core of the screen-shake noise, and the
//! easing curves that transitions are named by.

pub mod controller;
pub mod easing;
pub mod follow;
pub mod noise;
