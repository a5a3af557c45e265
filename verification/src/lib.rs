//! The evening programme guide: from the channels and programmes of a television feed to
//! the table of what starts tonight on the channels of a fixed list.
//!
//! [`filter::filter_programs_on`] picks the programmes and [`render::render_table`] lays
//! them out. Fetching the feed and reading it from XML are left to the caller.

pub mod channels;
pub mod error;
pub mod evening;
pub mod feed;
pub mod filter;
pub mod render;
pub mod text;
pub mod timestamp;

pub use channels::{channel_id_to_name, filter_channel_ids, is_whitelisted, CHANNELS};
pub use error::GuideError;
pub use evening::{in_evening_window, is_evening_program};
pub use feed::{XMLChannel, XMLProgram, Xml};
pub use filter::{filter_programs, filter_programs_on, show_program, Program};
pub use render::{render_row, render_table};
pub use text::{pad_right, str_eq, str_truncate};
pub use timestamp::{parse_timestamp, Date, Timestamp, TIMESTAMP_FORMAT};
