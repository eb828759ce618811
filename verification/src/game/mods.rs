pub mod ammo;
pub mod health;
pub mod location;
pub mod money;
pub mod trouble_meter;
