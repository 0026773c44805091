//! State kept by the terminal front end's widgets. Rendering itself lives
//! outside this crate; what is verified here is the bookkeeping those widgets
//! rely on: scroll indices that stay in range and the queue of user events
//! that the front end polls.

pub mod event_queue;
pub mod focusable_paragraph;
pub mod global_listener;
pub mod primary_control;
pub mod text_area;
