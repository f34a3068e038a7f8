pub mod buffer;
pub mod command;
pub mod history;
pub mod render;
pub mod shell;
pub mod text;

pub use buffer::EditBuffer;
pub use command::Action;
pub use history::EditSession;
pub use render::{Color, Piece};
pub use shell::{Input, Key, RunOutcome, Shell, Step};
