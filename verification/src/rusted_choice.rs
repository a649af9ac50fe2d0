use crate::console::{CharInfo, ConsoleView};
use crate::constants::DOUBLE_RIGHT_ARROW;
use crate::dialog::{box_rect, dialog_rect, put_text_at, text_length, text_length_of};
use crate::region::{restore, snapshot};
use crate::rusted::{background_bits, foreground_bits, put_at, window_opened, Rusted};
use crate::window::Window;
use vstd::prelude::*;

verus! {

/// A framed box with a question and a list of options, one of which is
/// marked.
pub struct RustedChoice {
    pub selected_choice: Option<u8>,
    is_open: bool,
    window: Option<Window>,
    cursor: u8,
    question: String,
    options: Vec<String>,
    q_x: i32,
    q_y: i32,
    opt_x: i32,
    opt_y: i32,
}

/// Where the question and the options of a choice box are written: the
/// column and row of the question, then those of the first option.
pub open spec fn choice_anchor(rect: (int, int, int, int), question_bytes: usize) -> (
    int,
    int,
    int,
    int,
) {
    (
        rect.0 + rect.2 / 2 - text_length(question_bytes) / 2,
        rect.1 + 2,
        rect.0 + 2 + rect.2 / 2 - 5,
        2,
    )
}

/// The grid after the first `count` options were written, one row each.
pub open spec fn option_rows(
    v: ConsoleView,
    options: Seq<Seq<char>>,
    x: int,
    y: int,
    count: nat,
) -> ConsoleView
    decreases count,
{
    if count == 0 {
        v
    } else {
        put_text_at(
            option_rows(v, options, x, y, (count - 1) as nat),
            x,
            (count - 1) + y,
            options[count - 1],
        )
    }
}

/// The grid after the question, the options and the mark before the option
/// under the cursor were written.
pub open spec fn choice_drawn(
    v: ConsoleView,
    anchor: (int, int, int, int),
    question: Seq<char>,
    options: Seq<Seq<char>>,
    cursor: u8,
) -> ConsoleView {
    put_at(
        option_rows(
            put_text_at(v, anchor.0, anchor.1, question),
            options,
            anchor.2,
            anchor.3,
            options.len(),
        ),
        anchor.2,
        anchor.3 + cursor,
        DOUBLE_RIGHT_ARROW,
    )
}

/// The grid after the choice box was drawn on it: the window opened in bright
/// white on blue with a frame, then the question and the options written with
/// the first option marked.
pub open spec fn choice_shown(v: ConsoleView, question: &str, options: Seq<Seq<char>>)
    -> ConsoleView {
    let rect = box_rect(v.size, options.len() as int);
    choice_drawn(
        window_opened(v, rect.0, rect.1, rect.2, rect.3, 15, 4, true),
        choice_anchor(rect, question.len()),
        question@,
        options,
        0,
    )
}

/// The texts of a list of strings.
pub open spec fn texts(options: Seq<String>) -> Seq<Seq<char>> {
    Seq::new(options.len(), |i: int| options[i]@)
}

impl RustedChoice {
    /// Whether the box is shown.
    pub closed spec fn spec_is_open(&self) -> bool {
        self.is_open
    }

    /// The window that holds what the box covers.
    pub closed spec fn saved(&self) -> Option<Window> {
        self.window
    }

    /// The option under the cursor, counted from zero.
    pub closed spec fn spec_cursor(&self) -> u8 {
        self.cursor
    }

    /// The option that was chosen last, if any.
    pub closed spec fn spec_selected(&self) -> Option<u8> {
        self.selected_choice
    }

    /// The question that was asked.
    pub closed spec fn spec_question(&self) -> Seq<char> {
        self.question@
    }

    /// The options that were offered.
    pub closed spec fn spec_options(&self) -> Seq<Seq<char>> {
        texts(self.options@)
    }

    /// Where the question and the options are written.
    pub closed spec fn anchor(&self) -> (int, int, int, int) {
        (self.q_x as int, self.q_y as int, self.opt_x as int, self.opt_y as int)
    }

    /// The cursor is on one of the options, whose number fits in 8 bits, and
    /// the places of the texts are such that the row of an option fits in 32
    /// bits.
    pub closed spec fn wf(&self) -> bool {
        &&& self.options@.len() <= u8::MAX
        &&& self.options@.len() > 0 ==> self.cursor < self.options@.len()
        &&& -0x4000_0000 <= self.opt_y <= 0x4000_0000
    }

    /// A choice box that is not shown: nothing is chosen, the cursor is on
    /// the first place, and there is neither a question nor an option.
    pub fn new() -> (choice: Self)
        ensures
            choice.wf(),
            !choice.spec_is_open(),
            choice.saved().is_none(),
            choice.spec_selected().is_none(),
            choice.spec_cursor() == 0,
            choice.spec_question() == Seq::<char>::empty(),
            choice.spec_options() == Seq::<Seq<char>>::empty(),
            choice.anchor() == (0int, 0int, 0int, 0int),
    {
        let choice = Self {
            selected_choice: None,
            is_open: false,
            window: None,
            cursor: 0,
            question: String::new(),
            options: Vec::new(),
            q_x: 0,
            q_y: 0,
            opt_x: 0,
            opt_y: 0,
        };
        assert(choice.spec_options() =~= Seq::<Seq<char>>::empty());
        choice
    }

    /// Whether the box is shown.
    pub fn is_open(&self) -> (open: bool)
        ensures
            open == self.spec_is_open(),
    {
        self.is_open
    }

    /// The option under the cursor, counted from zero.
    pub fn cursor(&self) -> (cursor: u8)
        ensures
            cursor == self.spec_cursor(),
    {
        self.cursor
    }

    /// Moves the cursor to the option before, and from the first option to
    /// the last. Does nothing where the box is not shown or has no option.
    pub fn move_cursor_prev(&mut self)
        requires
            old(self).wf(),
        ensures
            final(self).wf(),
            final(self).spec_is_open() == old(self).spec_is_open(),
            final(self).saved() == old(self).saved(),
            final(self).spec_question() == old(self).spec_question(),
            final(self).spec_options() == old(self).spec_options(),
            final(self).anchor() == old(self).anchor(),
            old(self).spec_is_open() && old(self).spec_options().len() > 0 ==> {
                &&& final(self).spec_cursor() == (old(self).spec_cursor() + old(
                    self,
                ).spec_options().len() - 1) % (old(self).spec_options().len() as int)
                &&& final(self).spec_selected() == Some(final(self).spec_cursor())
            },
            !(old(self).spec_is_open() && old(self).spec_options().len() > 0) ==> *final(self)
                == *old(self),
    {
        let count: usize = self.options.len();
        if self.is_open && count > 0 {
            let before: usize = (self.cursor as usize + count - 1) % count;
            self.cursor = before as u8;
            self.selected_choice = Some(self.cursor);
        }
    }

    /// Moves the cursor to the option after, and from the last option to the
    /// first. Does nothing where the box is not shown or has no option.
    pub fn move_cursor_next(&mut self)
        requires
            old(self).wf(),
        ensures
            final(self).wf(),
            final(self).spec_is_open() == old(self).spec_is_open(),
            final(self).saved() == old(self).saved(),
            final(self).spec_question() == old(self).spec_question(),
            final(self).spec_options() == old(self).spec_options(),
            final(self).anchor() == old(self).anchor(),
            old(self).spec_is_open() && old(self).spec_options().len() > 0 ==> {
                &&& final(self).spec_cursor() == (old(self).spec_cursor() + 1) % (old(
                    self,
                ).spec_options().len() as int)
                &&& final(self).spec_selected() == Some(final(self).spec_cursor())
            },
            !(old(self).spec_is_open() && old(self).spec_options().len() > 0) ==> *final(self)
                == *old(self),
    {
        let count: usize = self.options.len();
        if self.is_open && count > 0 {
            let after: usize = (self.cursor as usize + 1) % count;
            self.cursor = after as u8;
            self.selected_choice = Some(self.cursor);
        }
    }

    /// Shows the box with the options "Yes" and "No"; does nothing where it
    /// is shown already.
    pub fn show_yes_no(&mut self, ctx: &mut Rusted, question: &str)
        requires
            old(self).wf(),
            old(ctx).console.wf(),
        ensures
            final(self).wf(),
            final(ctx).console.wf(),
            old(self).spec_is_open() ==> *final(self) == *old(self) && *final(ctx) == *old(ctx),
            !old(self).spec_is_open() ==> final(self).shown_from(
                *old(ctx),
                *final(ctx),
                question,
                seq!["  Yes"@, "  No"@],
            ),
    {
        let mut options: Vec<String> = Vec::new();
        options.push("  Yes".to_owned());
        options.push("  No".to_owned());
        assert(texts(options@) =~= seq!["  Yes"@, "  No"@]);
        self.show_choice(ctx, question, options);
    }

    /// What holds of the box and the console once the box was shown on the
    /// console `before`: the box is open with its cursor on the first option,
    /// its window holds the cells that the box covers, and the console shows
    /// the box.
    pub open spec fn shown_from(
        &self,
        before: Rusted,
        after: Rusted,
        question: &str,
        options: Seq<Seq<char>>,
    ) -> bool {
        let rect = box_rect(before.console.size, options.len() as int);
        &&& self.spec_is_open()
        &&& self.spec_cursor() == 0
        &&& self.spec_selected() == Some(0u8)
        &&& self.spec_question() == question@
        &&& self.spec_options() == options
        &&& self.anchor() == choice_anchor(rect, question.len())
        &&& self.saved() matches Some(window) && window.wf() && window.data@ == seq![
            rect.0 as i32,
            rect.1 as i32,
            rect.2 as i32,
            rect.3 as i32,
        ] && window.buffer@ == snapshot(
            before.console@.cells,
            before.console.size.0,
            before.console.size.1,
            Seq::new((rect.2 * rect.3) as nat, |i: int| CharInfo::blank()),
            window.region(),
        )
        &&& after.console@ == choice_shown(before.console@, question, options)
        &&& after.foreground_color == foreground_bits(15)
        &&& after.background_color == background_bits(4)
    }

    /// Shows the box with the given question and options; does nothing where
    /// it is shown already.
    pub fn show_choice(&mut self, ctx: &mut Rusted, question: &str, options: Vec<String>)
        requires
            old(self).wf(),
            old(ctx).console.wf(),
            options@.len() <= u8::MAX,
        ensures
            final(self).wf(),
            final(ctx).console.wf(),
            old(self).spec_is_open() ==> *final(self) == *old(self) && *final(ctx) == *old(ctx),
            !old(self).spec_is_open() ==> final(self).shown_from(
                *old(ctx),
                *final(ctx),
                question,
                texts(options@),
            ),
    {
        if self.is_open {
            return ;
        }
        let rect = dialog_rect(ctx.console.size, options.len());
        let (box_x, box_y, box_width, _box_height) = rect;
        self.q_x = box_x + (box_width / 2) - (text_length_of(question) / 2);
        self.q_y = box_y + 2;
        self.opt_x = box_x + 2 + (box_width / 2) - 5;
        self.opt_y = 2;
        let fgc: u16 = 15;
        let bgc: u16 = 4;
        self.window = Some(ctx.open_window(rect, fgc, bgc, true));
        self.question = question.to_owned();
        self.options = options;
        self.cursor = 0;
        self.selected_choice = Some(0);
        self.render(ctx);
        self.is_open = true;
    }

    /// Writes the question, the options and the mark.
    fn render(&self, ctx: &mut Rusted)
        requires
            self.wf(),
            old(ctx).console.wf(),
        ensures
            final(ctx).console.wf(),
            final(ctx).console@ == choice_drawn(
                old(ctx).console@,
                self.anchor(),
                self.spec_question(),
                self.spec_options(),
                self.spec_cursor(),
            ),
            final(ctx).foreground_color == old(ctx).foreground_color,
            final(ctx).background_color == old(ctx).background_color,
    {
        ctx.outchars(self.q_x, self.q_y, self.question.as_str());
        let ghost asked = ctx.console@;
        let mut index: usize = 0;
        while index < self.options.len()
            invariant
                self.wf(),
                index <= self.options@.len(),
                ctx.console.wf(),
                ctx.console@ == option_rows(
                    asked,
                    self.spec_options(),
                    self.opt_x as int,
                    self.opt_y as int,
                    index as nat,
                ),
                ctx.foreground_color == old(ctx).foreground_color,
                ctx.background_color == old(ctx).background_color,
            decreases self.options@.len() - index,
        {
            let y: i32 = (index as i32) + self.opt_y;
            ctx.outchars(self.opt_x, y, self.options[index].as_str());
            index = index + 1;
        }
        ctx.outchar(self.opt_x, self.opt_y + (self.cursor as i32), DOUBLE_RIGHT_ARROW);
    }

    /// Writes the question, the options and the mark again; does nothing
    /// where the box is not shown.
    pub fn redraw(&self, ctx: &mut Rusted)
        requires
            self.wf(),
            old(ctx).console.wf(),
        ensures
            final(ctx).console.wf(),
            !self.spec_is_open() ==> *final(ctx) == *old(ctx),
            self.spec_is_open() ==> final(ctx).console@ == choice_drawn(
                old(ctx).console@,
                self.anchor(),
                self.spec_question(),
                self.spec_options(),
                self.spec_cursor(),
            ),
            final(ctx).foreground_color == old(ctx).foreground_color,
            final(ctx).background_color == old(ctx).background_color,
    {
        if self.is_open {
            self.render(ctx);
        }
    }

    /// Takes the box away: what it covered is put back. Does nothing where
    /// the box is not shown.
    pub fn close(&mut self, ctx: &mut Rusted)
        requires
            old(self).wf(),
        ensures
            final(self).wf(),
            !final(self).spec_is_open(),
            final(self).spec_cursor() == old(self).spec_cursor(),
            final(self).spec_selected() == old(self).spec_selected(),
            final(self).spec_question() == old(self).spec_question(),
            final(self).spec_options() == old(self).spec_options(),
            !old(self).spec_is_open() ==> *final(self) == *old(self) && *final(ctx) == *old(ctx),
            old(self).spec_is_open() ==> final(self).saved().is_none(),
            old(self).spec_is_open() && old(self).saved().is_none() ==> *final(ctx) == *old(ctx),
            old(self).spec_is_open() ==> (old(self).saved() matches Some(window) ==> {
                &&& final(ctx).console@ == (ConsoleView {
                    cells: restore(
                        window.buffer@,
                        old(ctx).console@.cells,
                        old(ctx).console.size.0,
                        window.region(),
                    ),
                    ..old(ctx).console@
                })
                &&& final(ctx).foreground_color == old(ctx).foreground_color
                &&& final(ctx).background_color == old(ctx).background_color
            }),
            old(ctx).console.wf() ==> final(ctx).console.wf(),
    {
        if self.is_open {
            let window = self.window.take();
            match window {
                Some(window) => {
                    ctx.close_window(window);
                },
                None => {},
            }
            self.is_open = false;
        }
    }
}

impl Default for RustedChoice {
    fn default() -> (choice: Self)
        ensures
            choice.wf(),
            !choice.spec_is_open(),
            choice.saved().is_none(),
            choice.spec_selected().is_none(),
            choice.spec_cursor() == 0,
            choice.spec_question() == Seq::<char>::empty(),
            choice.spec_options() == Seq::<Seq<char>>::empty(),
            choice.anchor() == (0int, 0int, 0int, 0int),
    {
        Self::new()
    }
}

} // verus!
