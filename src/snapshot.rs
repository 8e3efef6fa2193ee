use vstd::prelude::*;
use ansi_to_tui::IntoText;
use crate::rect::Rect;
use crate::source::ImageSource;

verus! {

/// How many lines of styled text the encoder's output holds once its escape
/// sequences are parsed, or `None` when it does not parse.
pub uninterp spec fn ansi_line_count(text: Seq<char>) -> Option<nat>;

/// Relies on `ansi_to_tui::IntoText::into_text`: parses escape-coded text into
/// styled lines; the count of lines is a function of the text alone.
#[verifier::external_body]
fn styled_line_count(data: &String) -> (r: Option<usize>)
    ensures
        r matches Some(n) ==> ansi_line_count(data@) == Some(n as nat),
        r is None ==> ansi_line_count(data@) is None,
{
    data.into_text().ok().map(|text| text.lines.len())
}

/// Why a frame could not be produced or drawn.
#[derive(Clone, Copy, Debug, PartialEq, Eq, Structural)]
pub enum ChafaError {
    /// The encoder produced no output, or output that does not parse as styled text.
    EncoderFailure,
    /// The resize policy answered against its own contract.
    PolicyContractViolation,
}

/// Where one line of a snapshot goes: the line's index, the cell it starts
/// at, and how many cells it may fill.
#[derive(Clone, Copy, Debug, PartialEq, Eq, Structural)]
pub struct LineSlot {
    pub line: usize,
    pub x: u16,
    pub y: u16,
    pub width: u16,
}

/// The slot of line `i` of a text drawn into `area`.
pub open spec fn slot_at(area: Rect, i: int) -> LineSlot {
    LineSlot { line: i as usize, x: area.x, y: (area.y + i) as u16, width: area.visible_cols() as u16 }
}

/// How many of `n` lines fit in `area`: one per row, the rest are dropped.
pub open spec fn placed_lines(area: Rect, n: int) -> int {
    if n <= area.visible_rows() {
        n
    } else {
        area.visible_rows()
    }
}

/// The slots of the first lines of a text of `n` lines drawn into `area`.
pub open spec fn plan_spec(area: Rect, n: int) -> Seq<LineSlot> {
    Seq::new(placed_lines(area, n) as nat, |i: int| slot_at(area, i))
}

/// Whether a slot lies inside `area`, its whole width included.
pub open spec fn slot_inside(area: Rect, s: LineSlot) -> bool {
    &&& area.y <= s.y < area.y + area.height
    &&& area.x == s.x
    &&& s.x + s.width <= area.x + area.width
}

/// Places the lines of a text of `n_lines` lines into `area`: line `i` at the
/// left edge of row `area.y + i`, clipped to the area's width, and no line
/// below the area's last row.
pub fn plan_lines(area: Rect, n_lines: usize) -> (r: Vec<LineSlot>)
    ensures
        r@ == plan_spec(area, n_lines as int),
{
    let rows: u16 = area.bottom() - area.y;
    let cols: u16 = area.right() - area.x;
    let count: usize = if n_lines <= rows as usize {
        n_lines
    } else {
        rows as usize
    };
    let mut out: Vec<LineSlot> = Vec::new();
    let mut i: usize = 0;
    while i < count
        invariant
            i <= count,
            count == placed_lines(area, n_lines as int),
            rows == area.visible_rows(),
            cols == area.visible_cols(),
            out@.len() == i,
            forall|j: int| 0 <= j < i ==> out@[j] == slot_at(area, j),
        decreases count - i,
    {
        out.push(LineSlot { line: i, x: area.x, y: area.y + i as u16, width: cols });
        i += 1;
    }
    assert(out@ =~= plan_spec(area, n_lines as int));
    out
}

/// The bytes per pixel of the buffer handed to the encoder: red, green, blue.
pub const CHANNELS: u32 = 3;

/// What the encoder is told of a frame: the cells to fill, and the size and
/// row stride of the pixel buffer it reads.
#[derive(Clone, Copy, Debug, PartialEq, Eq, Structural)]
pub struct EncodeGeometry {
    pub cols: i32,
    pub rows: i32,
    pub pixel_width: i32,
    pub pixel_height: i32,
    pub rowstride: i32,
}

/// The encoder's parameters for a frame of `rect`'s cells drawn from an RGB
/// buffer of `pixel_width` by `pixel_height` pixels; `None` when the buffer's
/// size or row stride does not fit the encoder's integers.
pub fn encode_geometry(rect: Rect, pixel_width: u32, pixel_height: u32) -> (r: Option<EncodeGeometry>)
    ensures
        r is Some <==> pixel_width * CHANNELS <= i32::MAX && pixel_height <= i32::MAX,
        r matches Some(g) ==> g == (EncodeGeometry {
            cols: rect.width as i32,
            rows: rect.height as i32,
            pixel_width: pixel_width as i32,
            pixel_height: pixel_height as i32,
            rowstride: (pixel_width * CHANNELS) as i32,
        }),
{
    if pixel_width > (i32::MAX as u32) / CHANNELS || pixel_height > i32::MAX as u32 {
        return None;
    }
    Some(
        EncodeGeometry {
            cols: rect.width as i32,
            rows: rect.height as i32,
            pixel_width: pixel_width as i32,
            pixel_height: pixel_height as i32,
            rowstride: (pixel_width * CHANNELS) as i32,
        },
    )
}

/// Whether the resize policy chose a rectangle that covers no cell.
pub open spec fn refused_rect(resized: Option<Rect>) -> bool {
    match resized {
        Some(t) => t.is_degenerate_spec(),
        None => false,
    }
}

/// What a snapshot holds: the encoder's text and the rectangle it was made for.
pub struct SnapshotView {
    pub text: Seq<char>,
    pub rect: Rect,
}

/// An encoded frame: escape-coded text that draws an image in `rect`'s cells.
#[derive(Clone)]
pub struct Chafas {
    data: String,
    rect: Rect,
}

impl View for Chafas {
    type V = SnapshotView;

    closed spec fn view(&self) -> SnapshotView {
        SnapshotView { text: self.data@, rect: self.rect }
    }
}

/// What drawing a snapshot's text into `area` does: the slots of its lines, or
/// the encoder's failure when the text does not parse.
pub open spec fn render_spec(text: Seq<char>, area: Rect) -> Result<Seq<LineSlot>, ChafaError> {
    match ansi_line_count(text) {
        Some(n) => Ok(plan_spec(area, n as int)),
        None => Err(ChafaError::EncoderFailure),
    }
}

impl Chafas {
    /// A snapshot of the encoder's text `data` for the rectangle `rect`.
    pub fn new(data: String, rect: Rect) -> (r: Chafas)
        ensures
            r@ == (SnapshotView { text: data@, rect }),
    {
        Chafas { data, rect }
    }

    /// A snapshot of `source`: `resized` is the rectangle the resize policy
    /// chose, `None` when it left the image at its desired size, and `encoded`
    /// the encoder's text for that rectangle, `None` when the encoder failed.
    /// A rectangle that covers no cell is refused as the policy's fault.
    pub fn from_source<P>(source: &ImageSource<P>, resized: Option<Rect>, encoded: Option<String>) -> (r:
        Result<Chafas, ChafaError>)
        ensures
            match r {
                Ok(c) => !refused_rect(resized) && encoded is Some && c@ == (SnapshotView {
                    text: encoded.unwrap()@,
                    rect: match resized {
                        Some(t) => t,
                        None => source.desired,
                    },
                }),
                Err(e) => if refused_rect(resized) {
                    e == ChafaError::PolicyContractViolation
                } else {
                    encoded is None && e == ChafaError::EncoderFailure
                },
            },
    {
        if let Some(t) = resized {
            if t.is_degenerate() {
                return Err(ChafaError::PolicyContractViolation);
            }
        }
        match encoded {
            Some(data) => Ok(Chafas::new(data, source.target(resized))),
            None => Err(ChafaError::EncoderFailure),
        }
    }

    /// The rectangle this snapshot was encoded for.
    pub fn rect(&self) -> (r: Rect)
        ensures
            r == self@.rect,
    {
        self.rect
    }

    /// The encoder's text.
    pub fn data(&self) -> (r: &String)
        ensures
            r@ == self@.text,
    {
        &self.data
    }

    /// Where each line of the text goes when drawn into `area`; the text is
    /// parsed first, and text that does not parse is the encoder's failure.
    pub fn render(&self, area: Rect) -> (r: Result<Vec<LineSlot>, ChafaError>)
        ensures
            match (r, render_spec(self@.text, area)) {
                (Ok(v), Ok(s)) => v@ == s,
                (Err(e), Err(f)) => e == f,
                _ => false,
            },
    {
        match styled_line_count(&self.data) {
            Some(n) => Ok(plan_lines(area, n)),
            None => Err(ChafaError::EncoderFailure),
        }
    }
}

impl Default for Chafas {
    fn default() -> (r: Chafas)
        ensures
            r@ == (SnapshotView { text: Seq::empty(), rect: Rect::empty() }),
    {
        Chafas { data: String::new(), rect: Rect::default() }
    }
}

/// Drawing a text into an area writes inside the area only: every line lands
/// on one of its rows, starts at its left edge and ends by its right edge,
/// however many lines the text holds.
pub proof fn law_render_stays_inside(text: Seq<char>, area: Rect)
    ensures
        render_spec(text, area) matches Ok(slots) ==> forall|i: int|
            0 <= i < slots.len() ==> slot_inside(area, #[trigger] slots[i]),
{
}

/// A text of `n` lines drawn into an area of at least `n` rows fills exactly
/// `n` rows, the first `n` of the area, line `i` on row `i`.
pub proof fn law_render_fills_one_row_per_line(area: Rect, n: int)
    requires
        0 <= n <= area.visible_rows(),
    ensures
        plan_spec(area, n).len() == n,
        forall|i: int|
            0 <= i < n ==> (#[trigger] plan_spec(area, n)[i]).y == area.y + i && plan_spec(area, n)[i].line == i,
{
}

} // verus!
