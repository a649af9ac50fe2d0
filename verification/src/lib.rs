//! A character-cell console: a grid of coloured characters, a clipped
//! rectangular copy between grids, and saved windows drawn on top of it.

pub mod blit;
pub mod console;
pub mod constants;
pub mod dialog;
pub mod region;
pub mod rusted;
pub mod rusted_choice;
pub mod rusted_message;
pub mod window;

pub use crate::blit::util_copy_buffer;
pub use crate::console::{
    fill_console_output_attribute, fill_console_output_character, read_console_output,
    set_console_attribute, set_console_buffer_size, set_console_cursor_position, write_console,
    write_console_output, Attribute, CharInfo, Console, ConsoleView, Coord, Rect,
};
pub use crate::constants::{
    BACKGROUND_BLUE, BACKGROUND_GREEN, BACKGROUND_INTENSITY, BACKGROUND_RED, BOX_BOTLEFT_DOUBLE,
    BOX_BOTRIGHT_DOUBLE, BOX_HORIZONTAL_DOUBLE, BOX_TOPLEFT_DOUBLE, BOX_TOPRIGHT_DOUBLE,
    BOX_VERTICAL_DOUBLE, DOUBLE_RIGHT_ARROW, FOREGROUND_BLUE, FOREGROUND_GREEN,
    FOREGROUND_INTENSITY, FOREGROUND_RED,
};
pub use crate::rusted::{Rusted, RustedIter};
pub use crate::rusted_choice::RustedChoice;
pub use crate::rusted_message::RustedMessage;
pub use crate::window::Window;
