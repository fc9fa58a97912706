use vstd::prelude::*;

pub mod animation;
pub mod collision;
pub mod coord;
pub mod coords;
pub mod engine;
pub mod frame;
pub mod scene;
pub mod tools;
pub mod sprite;
pub mod sprite_animation;
pub mod trajectory;

verus! {

} // verus!
