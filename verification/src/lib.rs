//! Decision logic of a gamepad tele-operation front end for a quadruped robot:
//! gait selection, the activation lock, button debouncing, the bounded log
//! buffer, rosbridge envelope filtering, setting keys and link bookkeeping.
#![allow(non_camel_case_types)]

pub mod command;
pub mod front;
pub mod log_buffer;
pub mod game_pad;
pub mod mapping;
pub mod msg_sender;
pub mod session;
pub mod system_status;
