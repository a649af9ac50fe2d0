use vstd::prelude::*;

verus! {

/// Attribute bit: red in the foreground.
pub const FOREGROUND_RED: u16 = 0x0001;

/// Attribute bit: green in the foreground.
pub const FOREGROUND_GREEN: u16 = 0x0002;

/// Attribute bit: blue in the foreground.
pub const FOREGROUND_BLUE: u16 = 0x0004;

/// Attribute bit: a bright foreground.
pub const FOREGROUND_INTENSITY: u16 = 0x0008;

/// Attribute bit: red in the background.
pub const BACKGROUND_RED: u16 = 0x0010;

/// Attribute bit: green in the background.
pub const BACKGROUND_GREEN: u16 = 0x0020;

/// Attribute bit: blue in the background.
pub const BACKGROUND_BLUE: u16 = 0x0040;

/// Attribute bit: a bright background.
pub const BACKGROUND_INTENSITY: u16 = 0x0080;

/// The horizontal edge of a double-line frame.
pub const BOX_HORIZONTAL_DOUBLE: char = '\u{2550}';

/// The vertical edge of a double-line frame.
pub const BOX_VERTICAL_DOUBLE: char = '\u{2551}';

/// The top-left corner of a double-line frame.
pub const BOX_TOPLEFT_DOUBLE: char = '\u{2554}';

/// The top-right corner of a double-line frame.
pub const BOX_TOPRIGHT_DOUBLE: char = '\u{2557}';

/// The bottom-left corner of a double-line frame.
pub const BOX_BOTLEFT_DOUBLE: char = '\u{255A}';

/// The bottom-right corner of a double-line frame.
pub const BOX_BOTRIGHT_DOUBLE: char = '\u{255D}';

/// The mark before the option under the cursor of a choice box.
pub const DOUBLE_RIGHT_ARROW: char = '\u{00BB}';

} // verus!
