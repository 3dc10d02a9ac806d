pub mod aiming;
pub mod collider;
pub mod display;
pub mod drone;
pub mod environment;
pub mod gun;
pub mod player;
pub mod projectile;
pub mod scene;
pub mod turret;
