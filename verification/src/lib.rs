//! The decisions of a network drone: which packet it forwards, answers, drops
//! or floods, and what it tells the simulation controller.
pub mod action;
pub mod codes;
pub mod controller;
pub mod drone;
pub mod laws;
pub mod laws_conduct;
pub mod laws_packet;
pub mod laws_route;
pub mod model;
pub mod packet;
pub mod routing;
