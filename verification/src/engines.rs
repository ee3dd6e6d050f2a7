pub mod godot;
pub mod unity;
pub mod unreal;
