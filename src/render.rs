//! What the display draws: a label per departure row, drawn when the rows
//! change, and a countdown per row, redrawn on every tick over its old text.
use vstd::prelude::*;
use crate::countdown::{countdown_chars, countdown_text};
use crate::departure::{countdown_minutes, countdown_seconds, views, Departure, DepartureView};
use crate::instant::div_toward_zero;

verus! {

/// Pixels above the first departure row.
pub const Y_OFFSET: i32 = 4;

/// Pixels between two departure rows.
pub const Y_GAP: i32 = 4;

/// Height of a label box, and of a row's drawn part.
pub const LABEL_HEIGHT: u32 = 36;

/// Pixels from the top of one departure row to the top of the next: a label
/// box and the gap below it.
pub const ROW_HEIGHT: i32 = 36 + Y_GAP;

/// Left edge of a label box.
pub const LABEL_X: i64 = 12;

/// Width of a label box.
pub const LABEL_WIDTH: u32 = 50;

/// Left edge of a label's text.
pub const LABEL_TEXT_X: i64 = 14;

/// Left edge of a countdown.
pub const TIME_X: i64 = 72;

/// Width of a whole row, from the label box to the end of the countdown field.
pub const ROW_WIDTH: u32 = 180;

/// The colours the display uses.
#[derive(Clone, Copy, Debug, PartialEq, Eq, Structural)]
pub enum Color {
    Black,
    White,
    Red,
}

/// One drawing step. Text is white, in the large font, vertically centred on
/// `y`; with a background colour it covers what was drawn there before.
#[derive(Debug, PartialEq, Eq)]
pub enum DrawCommand {
    Fill { x: i64, y: i64, width: u32, height: u32, color: Color },
    Text { text: String, x: i64, y: i64, background: Option<Color> },
}

/// What a drawing step holds.
pub enum CommandView {
    Fill { x: int, y: int, width: int, height: int, color: Color },
    Text { text: Seq<char>, x: int, y: int, background: Option<Color> },
}

impl View for DrawCommand {
    type V = CommandView;

    open spec fn view(&self) -> CommandView {
        match self {
            DrawCommand::Fill { x, y, width, height, color } => CommandView::Fill {
                x: *x as int,
                y: *y as int,
                width: *width as int,
                height: *height as int,
                color: *color,
            },
            DrawCommand::Text { text, x, y, background } => CommandView::Text {
                text: text@,
                x: *x as int,
                y: *y as int,
                background: *background,
            },
        }
    }
}

/// The views of a sequence of drawing steps.
pub open spec fn command_views(cs: Seq<DrawCommand>) -> Seq<CommandView> {
    cs.map_values(|c: DrawCommand| c@)
}

/// Top edge of row `line`; row 0 is the heading, departures start at row 1.
pub open spec fn row_top(y_offset: int, line: int, height: int) -> int {
    y_offset + line * height
}

/// Vertical middle of row `line`.
pub open spec fn row_middle(y_offset: int, line: int, height: int) -> int {
    row_top(y_offset, line, height) + div_toward_zero(height, 2)
}

/// The countdown of departure `d` in row `line`, on a black background.
pub open spec fn time_view(d: DepartureView, line: int, y_offset: int, height: int) -> CommandView {
    CommandView::Text {
        text: countdown_chars(countdown_minutes(d.leaving_in), countdown_seconds(d.leaving_in)),
        x: TIME_X as int,
        y: row_middle(y_offset, line, height),
        background: Some(Color::Black),
    }
}

/// The label of departure `d` in row `line`: a red box, then its line's code.
pub open spec fn label_views(d: DepartureView, line: int, y_offset: int, height: int) -> Seq<
    CommandView,
> {
    seq![
        CommandView::Fill {
            x: LABEL_X as int,
            y: row_top(y_offset, line, height),
            width: LABEL_WIDTH as int,
            height: LABEL_HEIGHT as int,
            color: Color::Red,
        },
        CommandView::Text {
            text: d.line_number,
            x: LABEL_TEXT_X as int,
            y: row_middle(y_offset, line, height),
            background: None,
        },
    ]
}

/// The labels of departures `ds`, the i-th in row i + 1.
pub open spec fn label_commands(ds: Seq<DepartureView>, y_offset: int, height: int) -> Seq<
    CommandView,
>
    decreases ds.len(),
{
    if ds.len() == 0 {
        seq![]
    } else {
        label_commands(ds.drop_last(), y_offset, height) + label_views(
            ds.last(),
            ds.len() as int,
            y_offset,
            height,
        )
    }
}

/// The countdowns of departures `ds`, the i-th in row i + 1.
pub open spec fn time_commands(ds: Seq<DepartureView>, y_offset: int, height: int) -> Seq<
    CommandView,
> {
    Seq::new(ds.len(), |i: int| time_view(ds[i], i + 1, y_offset, height))
}

/// A black box over departure row `line`.
pub open spec fn erase_view(line: int) -> CommandView {
    CommandView::Fill {
        x: LABEL_X as int,
        y: row_top(Y_OFFSET as int, line, ROW_HEIGHT as int),
        width: ROW_WIDTH as int,
        height: LABEL_HEIGHT as int,
        color: Color::Black,
    }
}

/// Black boxes over the departure rows after the first `kept` of `drawn` rows.
pub open spec fn erase_commands(kept: int, drawn: int) -> Seq<CommandView> {
    Seq::new(
        if drawn > kept {
            (drawn - kept) as nat
        } else {
            0
        },
        |k: int| erase_view(kept + k + 1),
    )
}

/// The line codes of departures `ds`, top to bottom.
pub open spec fn line_labels(ds: Seq<DepartureView>) -> Seq<Seq<char>> {
    ds.map_values(|d: DepartureView| d.line_number)
}

/// The texts of a sequence of strings.
pub open spec fn texts(v: Seq<String>) -> Seq<Seq<char>> {
    v.map_values(|s: String| s@)
}

/// What one tick draws, given the labels on the display and the departures
/// now: the countdowns alone where the labels are the same; else first black
/// over rows that are no longer used, then every label, then the countdowns.
pub open spec fn frame_commands(drawn: Seq<Seq<char>>, ds: Seq<DepartureView>) -> Seq<CommandView> {
    if line_labels(ds) == drawn {
        time_commands(ds, Y_OFFSET as int, ROW_HEIGHT as int)
    } else {
        erase_commands(ds.len() as int, drawn.len() as int) + label_commands(
            ds,
            Y_OFFSET as int,
            ROW_HEIGHT as int,
        ) + time_commands(ds, Y_OFFSET as int, ROW_HEIGHT as int)
    }
}

/// `height` halved, rounded toward zero.
fn half(height: i32) -> (r: i64)
    ensures
        r == div_toward_zero(height as int, 2),
{
    if height >= 0 {
        (height / 2) as i64
    } else {
        -(((-(height as i64)) / 2))
    }
}

/// Top edge of row `line`.
fn top_of_row(y_offset: i32, line: i32, height: i32) -> (r: i64)
    ensures
        r == row_top(y_offset as int, line as int, height as int),
        -0x4000_0001_0000_0000 <= r <= 0x4000_0001_0000_0000,
{
    let l = line as i64;
    let h = height as i64;
    assert(-0x4000_0000_0000_0000 <= l * h <= 0x4000_0000_0000_0000) by (nonlinear_arith)
        requires
            -0x8000_0000 <= l <= 0x7fff_ffff,
            -0x8000_0000 <= h <= 0x7fff_ffff,
    ;
    y_offset as i64 + l * h
}

/// Vertical middle of row `line`.
fn middle_of_row(y_offset: i32, line: i32, height: i32) -> (r: i64)
    ensures
        r == row_middle(y_offset as int, line as int, height as int),
{
    top_of_row(y_offset, line, height) + half(height)
}

/// Draws the countdown of `departure` in row `line`, over the old one.
pub fn draw_time_counter(departure: &Departure, line: i32, y_offset: i32, height: i32) -> (r:
    DrawCommand)
    ensures
        r@ == time_view(departure@, line as int, y_offset as int, height as int),
{
    let (minutes, seconds) = departure.format_time();
    DrawCommand::Text {
        text: countdown_text(minutes, seconds),
        x: TIME_X,
        y: middle_of_row(y_offset, line, height),
        background: Some(Color::Black),
    }
}

/// Where the countdowns of a column of departure rows go.
#[derive(Clone, Copy, Debug)]
pub struct TimeCounter {
    y_start: i32,
    height: i32,
}

impl TimeCounter {
    /// Rows start `y_start` pixels down and are `height` pixels apart.
    pub fn new(y_start: i32, height: i32) -> (r: TimeCounter)
        ensures
            r.y_start() == y_start,
            r.height() == height,
    {
        TimeCounter { y_start, height }
    }

    /// Pixels above the first row.
    pub closed spec fn y_start(self) -> i32 {
        self.y_start
    }

    /// Pixels from one row to the next.
    pub closed spec fn height(self) -> i32 {
        self.height
    }

    /// Draws the countdown of `departure` in row `line`, over the old one.
    pub fn draw(&self, departure: &Departure, line: i32) -> (r: DrawCommand)
        ensures
            r@ == time_view(departure@, line as int, self.y_start() as int, self.height() as int),
    {
        draw_time_counter(departure, line, self.y_start, self.height)
    }
}

/// The countdowns of `departures`, the i-th in row i + 1.
pub fn display_departure_times(departures: &Vec<Departure>, y_offset: i32, height: i32) -> (r: Vec<
    DrawCommand,
>)
    requires
        departures.len() < i32::MAX,
    ensures
        command_views(r@) == time_commands(views(departures@), y_offset as int, height as int),
{
    let mut out: Vec<DrawCommand> = Vec::new();
    let mut i: usize = 0;
    while i < departures.len()
        invariant
            departures.len() < i32::MAX,
            i <= departures.len(),
            out.len() == i,
            forall|j: int|
                0 <= j < i ==> (#[trigger] out@[j])@ == time_view(
                    departures@[j]@,
                    j + 1,
                    y_offset as int,
                    height as int,
                ),
        decreases departures.len() - i,
    {
        out.push(draw_time_counter(&departures[i], i as i32 + 1, y_offset, height));
        i += 1;
    }
    assert(command_views(out@) =~= time_commands(views(departures@), y_offset as int, height as int));
    out
}

/// The labels of `departures`, the i-th in row i + 1.
pub fn display_departure_lines(departures: &Vec<Departure>, y_offset: i32, height: i32) -> (r: Vec<
    DrawCommand,
>)
    requires
        departures.len() < i32::MAX,
    ensures
        command_views(r@) == label_commands(views(departures@), y_offset as int, height as int),
{
    let mut out: Vec<DrawCommand> = Vec::new();
    let mut i: usize = 0;
    while i < departures.len()
        invariant
            departures.len() < i32::MAX,
            i <= departures.len(),
            command_views(out@) == label_commands(
                views(departures@).subrange(0, i as int),
                y_offset as int,
                height as int,
            ),
        decreases departures.len() - i,
    {
        let line: i32 = i as i32 + 1;
        let ghost before = command_views(out@);
        out.push(
            DrawCommand::Fill {
                x: LABEL_X,
                y: top_of_row(y_offset, line, height),
                width: LABEL_WIDTH,
                height: LABEL_HEIGHT,
                color: Color::Red,
            },
        );
        out.push(
            DrawCommand::Text {
                text: departures[i].line_number.clone(),
                x: LABEL_TEXT_X,
                y: middle_of_row(y_offset, line, height),
                background: None,
            },
        );
        proof {
            let ds = views(departures@).subrange(0, i + 1);
            assert(ds.drop_last() =~= views(departures@).subrange(0, i as int));
            assert(ds.last() == departures@[i as int]@);
            assert(command_views(out@) =~= before + label_views(
                departures@[i as int]@,
                line as int,
                y_offset as int,
                height as int,
            ));
        }
        i += 1;
    }
    assert(views(departures@).subrange(0, i as int) =~= views(departures@));
    out
}

/// The render task's memory of the display: the line codes of the labels now
/// drawn, top to bottom.
#[derive(Debug)]
pub struct Renderer {
    rows: Vec<String>,
}

impl View for Renderer {
    type V = Seq<Seq<char>>;

    closed spec fn view(&self) -> Seq<Seq<char>> {
        texts(self.rows@)
    }
}

impl Renderer {
    /// Row numbers of the drawn labels fit the display's coordinates.
    pub closed spec fn wf(&self) -> bool {
        self.rows.len() < i32::MAX
    }

    /// A display with no departure rows drawn yet.
    pub fn new() -> (r: Renderer)
        ensures
            r.wf(),
            r@ == Seq::<Seq<char>>::empty(),
    {
        let r = Renderer { rows: Vec::new() };
        assert(r@ =~= Seq::<Seq<char>>::empty());
        r
    }

    /// Whether the drawn labels are those of `departures`.
    fn same_rows(&self, departures: &Vec<Departure>) -> (r: bool)
        ensures
            r == (line_labels(views(departures@)) == self@),
    {
        if self.rows.len() != departures.len() {
            assert(line_labels(views(departures@)).len() != self@.len());
            return false;
        }
        let mut i: usize = 0;
        while i < self.rows.len()
            invariant
                self.rows.len() == departures.len(),
                i <= self.rows.len(),
                forall|j: int| 0 <= j < i ==> self.rows@[j]@ == departures@[j].line_number@,
            decreases self.rows.len() - i,
        {
            if self.rows[i] != departures[i].line_number {
                assert(line_labels(views(departures@))[i as int] != self@[i as int]);
                return false;
            }
            i += 1;
        }
        assert(line_labels(views(departures@)) =~= self@);
        true
    }

    /// The drawing steps of one tick, showing `departures`: labels are drawn
    /// again only where they differ from those on the display, and rows that
    /// are no longer used are blacked out; every countdown is drawn anew.
    pub fn frame(&mut self, departures: &Vec<Departure>) -> (r: Vec<DrawCommand>)
        requires
            old(self).wf(),
            departures.len() < i32::MAX,
        ensures
            final(self).wf(),
            final(self)@ == line_labels(views(departures@)),
            command_views(r@) == frame_commands(old(self)@, views(departures@)),
    {
        let times = display_departure_times(departures, Y_OFFSET, ROW_HEIGHT);
        if self.same_rows(departures) {
            return times;
        }
        let ghost drawn = self@;
        let mut out: Vec<DrawCommand> = Vec::new();
        let n = departures.len();
        let mut k: usize = n;
        while k < self.rows.len()
            invariant
                self.rows.len() < i32::MAX,
                self@ == drawn,
                n == departures.len(),
                n <= k,
                k <= self.rows.len() || k == n,
                out.len() == k - n,
                forall|j: int|
                    0 <= j < out.len() ==> (#[trigger] out@[j])@ == erase_view(n + j + 1),
            decreases self.rows.len() - k,
        {
            out.push(
                DrawCommand::Fill {
                    x: LABEL_X,
                    y: top_of_row(Y_OFFSET, k as i32 + 1, ROW_HEIGHT),
                    width: ROW_WIDTH,
                    height: LABEL_HEIGHT,
                    color: Color::Black,
                },
            );
            k += 1;
        }
        assert(command_views(out@) =~= erase_commands(departures.len() as int, drawn.len() as int));
        let ghost erased = command_views(out@);
        let mut labels = display_departure_lines(departures, Y_OFFSET, ROW_HEIGHT);
        let ghost label_part = command_views(labels@);
        out.append(&mut labels);
        let ghost with_labels = command_views(out@);
        assert(with_labels =~= erased + label_part);
        let mut times = times;
        let ghost time_part = command_views(times@);
        out.append(&mut times);
        assert(command_views(out@) =~= with_labels + time_part);
        let mut rows: Vec<String> = Vec::new();
        let mut i: usize = 0;
        while i < departures.len()
            invariant
                i <= departures.len(),
                rows.len() == i,
                forall|j: int| 0 <= j < i ==> (#[trigger] rows@[j])@ == departures@[j].line_number@,
            decreases departures.len() - i,
        {
            rows.push(departures[i].line_number.clone());
            i += 1;
        }
        self.rows = rows;
        assert(self@ =~= line_labels(views(departures@)));
        out
    }
}

} // verus!
