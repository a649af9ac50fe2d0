use crate::console::{CharInfo, ConsoleView};
use crate::dialog::{
    box_rect, dialog_rect, half, half_of, put_text_at, text_length, text_length_of,
};
use crate::region::{restore, snapshot};
use crate::rusted::{background_bits, foreground_bits, window_opened, Rusted};
use crate::window::Window;
use vstd::prelude::*;

verus! {

/// A framed box with lines of text, shown over the console and taken away
/// again.
pub struct RustedMessage {
    is_open: bool,
    window: Option<Window>,
    center_align_text: bool,
}

/// The column at which a line of `bytes` bytes starts.
pub open spec fn line_column(rect: (int, int, int, int), centered: bool, bytes: usize) -> int {
    if centered {
        half(rect.2 - text_length(bytes))
    } else {
        rect.0 + 2
    }
}

/// The grid after the first `count` lines were written into the box, one
/// row each from the third row of the box on.
pub open spec fn message_lines(
    v: ConsoleView,
    lines: Seq<&str>,
    rect: (int, int, int, int),
    centered: bool,
    count: nat,
) -> ConsoleView
    decreases count,
{
    if count == 0 {
        v
    } else {
        let line = lines[count - 1];
        put_text_at(
            message_lines(v, lines, rect, centered, (count - 1) as nat),
            line_column(rect, centered, line.len()),
            (count - 1) + 2 + rect.1,
            line@,
        )
    }
}

/// The grid after the message box was drawn on it: the window opened in
/// bright white on blue with a frame, then the lines written.
pub open spec fn message_shown(v: ConsoleView, lines: Seq<&str>, centered: bool) -> ConsoleView {
    let rect = box_rect(v.size, lines.len() as int);
    message_lines(
        window_opened(v, rect.0, rect.1, rect.2, rect.3, 15, 4, true),
        lines,
        rect,
        centered,
        lines.len(),
    )
}

impl RustedMessage {
    /// Whether the box is shown.
    pub closed spec fn spec_is_open(&self) -> bool {
        self.is_open
    }

    /// The window that holds what the box covers.
    pub closed spec fn saved(&self) -> Option<Window> {
        self.window
    }

    /// Whether each line is centred in the box.
    pub closed spec fn centered(&self) -> bool {
        self.center_align_text
    }

    /// A message box that is not shown.
    pub fn new(center_align_text: bool) -> (message: Self)
        ensures
            !message.spec_is_open(),
            message.saved().is_none(),
            message.centered() == center_align_text,
    {
        Self { is_open: false, window: None, center_align_text }
    }

    /// Whether the box is shown.
    pub fn is_open(&self) -> (open: bool)
        ensures
            open == self.spec_is_open(),
    {
        self.is_open
    }

    /// Shows the box with the given lines; does nothing where it is shown
    /// already.
    pub fn show(&mut self, ctx: &mut Rusted, lines: Vec<&str>)
        requires
            old(ctx).console.wf(),
            lines@.len() + 4 <= u16::MAX,
        ensures
            final(ctx).console.wf(),
            old(self).spec_is_open() ==> *final(self) == *old(self) && *final(ctx) == *old(ctx),
            !old(self).spec_is_open() ==> {
                let rect = box_rect(old(ctx).console.size, lines@.len() as int);
                &&& final(self).spec_is_open()
                &&& final(self).centered() == old(self).centered()
                &&& final(self).saved() matches Some(window) && window.wf() && window.data@ == seq![
                    rect.0 as i32,
                    rect.1 as i32,
                    rect.2 as i32,
                    rect.3 as i32,
                ] && window.buffer@ == snapshot(
                    old(ctx).console@.cells,
                    old(ctx).console.size.0,
                    old(ctx).console.size.1,
                    Seq::new((rect.2 * rect.3) as nat, |i: int| CharInfo::blank()),
                    window.region(),
                )
                &&& final(ctx).console@ == message_shown(
                    old(ctx).console@,
                    lines@,
                    old(self).centered(),
                )
                &&& final(ctx).foreground_color == foreground_bits(15)
                &&& final(ctx).background_color == background_bits(4)
            },
    {
        if self.is_open {
            return ;
        }
        let rect = dialog_rect(ctx.console.size, lines.len());
        let ghost before = ctx.console@;
        let ghost place = box_rect(before.size, lines@.len() as int);
        let fgc: u16 = 15;
        let bgc: u16 = 4;
        self.window = Some(ctx.open_window(rect, fgc, bgc, true));
        let ghost opened = ctx.console@;
        let centered = self.center_align_text;
        let mut index: usize = 0;
        while index < lines.len()
            invariant
                index <= lines@.len(),
                lines@.len() + 4 <= u16::MAX,
                place == (rect.0 as int, rect.1 as int, rect.2 as int, rect.3 as int),
                0 <= rect.2 <= u16::MAX,
                -0x4000_0000 <= rect.0 <= 0x3fff_0000,
                -0x4000_0000 <= rect.1 <= 0x3fff_0000,
                ctx.console.wf(),
                ctx.console@ == message_lines(opened, lines@, place, centered, index as nat),
                ctx.foreground_color == foreground_bits(15),
                ctx.background_color == background_bits(4),
            decreases lines@.len() - index,
        {
            let line: &str = lines[index];
            let y: i32 = (index as i32) + 2 + rect.1;
            let x: i32 = if centered {
                half_of(rect.2 - text_length_of(line))
            } else {
                rect.0 + 2
            };
            ctx.outchars(x, y, line);
            index = index + 1;
        }
        self.is_open = true;
    }

    /// Takes the box away: what it covered is put back. Does nothing where
    /// the box is not shown.
    pub fn close(&mut self, ctx: &mut Rusted)
        ensures
            !final(self).spec_is_open(),
            final(self).centered() == old(self).centered(),
            !old(self).spec_is_open() ==> *final(self) == *old(self) && *final(ctx) == *old(ctx),
            old(self).spec_is_open() ==> final(self).saved().is_none(),
            old(self).spec_is_open() && old(self).saved().is_none() ==> *final(ctx) == *old(ctx),
            old(self).spec_is_open() ==> (old(self).saved() matches Some(window) ==> {
                &&& final(ctx).console@ == (ConsoleView {
                    cells: restore(
                        window.buffer@,
                        old(ctx).console@.cells,
                        old(ctx).console.size.0,
                        window.region(),
                    ),
                    ..old(ctx).console@
                })
                &&& final(ctx).foreground_color == old(ctx).foreground_color
                &&& final(ctx).background_color == old(ctx).background_color
            }),
            old(ctx).console.wf() ==> final(ctx).console.wf(),
    {
        if self.is_open {
            let window = self.window.take();
            match window {
                Some(window) => {
                    ctx.close_window(window);
                },
                None => {},
            }
            self.is_open = false;
        }
    }
}

} // verus!
