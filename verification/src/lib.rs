pub mod fixed;
pub mod combat;
pub mod state;
pub mod movement;
pub mod hit;
pub mod frame;
pub mod rollback;
pub mod checksum;
pub mod net;
pub mod input;
pub mod bindings;
pub mod menu;
pub mod keys;
pub mod online;
pub mod signal;
