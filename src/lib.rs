//! Real-time control kernel of a bedside clock: message queue, user
//! interface state machine, alarm schedules, alarm player, button
//! debouncing and the priority ceilings of the shared resources.

pub mod alarm;
pub mod alarm_manager;
pub mod button;
pub mod datetime;
pub mod msg_queue;
pub mod tasks;
pub mod text;
pub mod ui;
