use vstd::prelude::*;

verus! {

/// The most points a plot shows at once, besides its right-hand point.
pub const WINDOW_SPAN: usize = 10;

/// The margin, in pixels, kept free on each side of a canvas.
pub const CANVAS_MARGIN: u32 = 30;

/// The readings of one thermal zone, each paired with its position in the
/// series, and the optional right-hand edge of the visible window.
#[derive(Debug)]
pub struct Plot<V> {
    /// The points of the series: the position of the reading and the reading.
    pub data: Vec<(usize, V)>,
    /// Index of the right-hand side of the plot; `None` follows new data.
    pub x_max: Option<usize>,
}

/// The right-hand edge that a drag by `movement` pixels gives a plot of
/// `len` points whose current edge is `x_max`. The length and the edge are
/// taken as `i32`, truncated as an `as` cast truncates them.
pub open spec fn dragged_x_max(x_max: Option<usize>, len: int, movement: int) -> Option<usize> {
    let n = len as i32;
    match x_max {
        None => {
            if movement > 0 {
                let x = n - movement;
                Some((if x > 0 { x } else { 0 }) as usize)
            } else {
                None
            }
        },
        Some(old) => {
            let x = (old as i32) - movement;
            if x >= n {
                None
            } else if x < 0 {
                Some(1)
            } else {
                Some(x as usize)
            }
        },
    }
}

/// The left-hand edge of a window whose right-hand edge is `right`.
pub open spec fn left_edge(right: int) -> int {
    if right <= WINDOW_SPAN {
        0
    } else {
        right - WINDOW_SPAN
    }
}

impl<V> Plot<V> {
    /// The number of points in the series.
    pub open spec fn len(&self) -> int {
        self.data@.len() as int
    }

    /// The right-hand edge of the visible window: the chosen one, or the
    /// newest point when the plot follows new data.
    pub open spec fn right_edge(&self) -> int {
        match self.x_max {
            None => self.len() - 1,
            Some(k) => k as int,
        }
    }

    /// The window can be shown: there is a point, and a chosen right-hand
    /// edge names one of them.
    pub open spec fn can_show(&self) -> bool {
        &&& self.len() > 0
        &&& self.x_max matches Some(k) ==> k < self.len()
    }

    /// Each point's first component is its own position in the series.
    pub open spec fn positions_match(&self) -> bool {
        forall|j: int| 0 <= j < self.len() ==> #[trigger] self.data@[j].0 == j
    }

    /// The state every plot of the front end keeps.
    pub open spec fn wf(&self) -> bool {
        self.can_show() && self.positions_match()
    }

    /// A drag by `movement` pixels does not overflow the `i32` subtraction
    /// that the front end makes of it.
    pub open spec fn drag_in_range(&self, movement: int) -> bool {
        match self.x_max {
            None => movement > 0 ==> i32::MIN <= (self.len() as i32) - movement,
            Some(old) => i32::MIN <= (old as i32) - movement <= i32::MAX,
        }
    }

    /// A plot with no points that follows new data.
    pub fn default() -> (p: Self)
        ensures
            p.data@ == Seq::<(usize, V)>::empty(),
            p.x_max == None::<usize>,
    {
        Plot { data: Vec::new(), x_max: None }
    }

    /// Appends a reading at the next position of the series.
    pub fn push_reading(&mut self, reading: V)
        requires
            old(self).len() < usize::MAX,
        ensures
            final(self).data@ == old(self).data@.push((old(self).data@.len() as usize, reading)),
            final(self).x_max == old(self).x_max,
    {
        let data_len = self.data.len();
        self.data.push((data_len, reading));
    }

    /// The visible window `(x_min, x_max)`: it ends at the right-hand edge
    /// and spans at most `WINDOW_SPAN` positions before it.
    pub fn window(&self) -> (w: (usize, usize))
        requires
            self.can_show(),
        ensures
            w.1 == self.right_edge(),
            w.0 == left_edge(w.1 as int),
            w.0 <= w.1 < self.len(),
            w.1 - w.0 <= WINDOW_SPAN,
            self.x_max is None ==> w.1 + 1 == self.len(),
            self.x_max matches Some(k) ==> w.1 == k,
            w.1 >= 10 ==> w.1 - w.0 == 10,
            w.1 <= 10 ==> w.0 == 0,
    {
        let x_max = match self.x_max {
            None => self.data.len() - 1,
            Some(x_max) => x_max,
        };
        let x_min = if x_max <= WINDOW_SPAN { 0 } else { x_max - WINDOW_SPAN };
        (x_min, x_max)
    }

    /// The right-hand edge after dragging the plot by `movement_x` pixels
    /// with the first button held.
    pub fn dragged(&self, movement_x: i32) -> (r: Option<usize>)
        requires
            self.drag_in_range(movement_x as int),
        ensures
            r == dragged_x_max(self.x_max, self.len(), movement_x as int),
    {
        match self.x_max {
            None => {
                if movement_x > 0 {
                    let x_max: i32 = self.data.len() as i32 - movement_x;
                    let x_max: i32 = if 0 < x_max { x_max } else { 0 };
                    Some(x_max as usize)
                } else {
                    None
                }
            },
            Some(old_x_max) => {
                let x_max: i32 = old_x_max as i32 - movement_x;
                if x_max >= self.data.len() as i32 {
                    None
                } else if x_max < 0 {
                    Some(1)
                } else {
                    Some(x_max as usize)
                }
            },
        }
    }
}

/// The left-hand edge keeps the window as wide as it can be: ten positions
/// before the right-hand edge, or down to the first point when there are fewer.
pub proof fn lemma_left_edge_span(right: int)
    requires
        right >= 0,
    ensures
        WINDOW_SPAN == 10,
        0 <= left_edge(right) <= right,
        right >= 10 ==> right - left_edge(right) == 10,
        right <= 10 ==> left_edge(right) == 0,
{
}

/// The right-hand edge is the newest point while the plot follows new data,
/// and the chosen position otherwise.
pub proof fn lemma_right_edge_is_newest_or_chosen<V>(p: Plot<V>)
    ensures
        p.x_max is None ==> p.right_edge() + 1 == p.data@.len(),
        p.x_max matches Some(k) ==> p.right_edge() == k,
{
}

/// What a drag does, for a length and an edge within `i32`: from following,
/// a drag to the right fixes the edge that many points before the end (or at
/// the first point), and any other drag keeps following; from a chosen edge,
/// the edge moves back by the movement, follows again once it would reach the
/// end, and goes to position 1 once it would pass the first point.
pub proof fn lemma_drag_moves_edge(x_max: Option<usize>, len: int, movement: int)
    requires
        0 <= len <= i32::MAX,
        i32::MIN <= movement <= i32::MAX,
        x_max matches Some(start) ==> start <= i32::MAX,
    ensures
        x_max is None && movement > 0 ==> (dragged_x_max(x_max, len, movement) matches Some(k) && (
        k + movement == len || (k == 0 && len <= movement))),
        x_max is None && movement <= 0 ==> dragged_x_max(x_max, len, movement) is None,
        x_max matches Some(start) ==> (dragged_x_max(x_max, len, movement) is None <==> start
            - movement >= len),
        x_max matches Some(start) ==> (0 <= start - movement < len ==> (dragged_x_max(
            x_max,
            len,
            movement,
        ) matches Some(k) && k + movement == start)),
        x_max matches Some(start) ==> (start - movement < 0 ==> dragged_x_max(x_max, len, movement)
            == Some::<usize>(1)),
{
}

/// The window of a plot that can show it lies within its points and holds
/// at most `WINDOW_SPAN + 1` of them, ending at the right-hand edge.
pub proof fn lemma_window_within_data<V>(p: Plot<V>)
    requires
        p.can_show(),
    ensures
        0 <= left_edge(p.right_edge()) <= p.right_edge() < p.len(),
        p.right_edge() - left_edge(p.right_edge()) <= WINDOW_SPAN,
        p.x_max is None ==> p.right_edge() == p.len() - 1,
{
}

/// A drag without horizontal movement leaves the right-hand edge of a plot
/// in its kept state as it was, when its length fits in an `i32`.
pub proof fn lemma_still_drag_keeps_edge<V>(p: Plot<V>)
    requires
        p.wf(),
        p.len() <= i32::MAX,
    ensures
        dragged_x_max(p.x_max, p.len(), 0) == p.x_max,
{
}

/// Dragging a plot that follows new data to the left keeps it following;
/// dragging its chosen edge at or past the newest point makes it follow again
/// (for a length and an edge that fit in an `i32`).
pub proof fn lemma_drag_follows<V>(p: Plot<V>, movement: int)
    requires
        p.len() <= i32::MAX,
        p.x_max matches Some(old) ==> old <= i32::MAX,
    ensures
        p.x_max is None && movement <= 0 ==> dragged_x_max(p.x_max, p.len(), movement) is None,
        p.x_max matches Some(old) && old - movement >= p.len() ==> dragged_x_max(
            p.x_max,
            p.len(),
            movement,
        ) is None,
{
}

/// The size of a plot's canvas in a window of the given size: the window's
/// width less the margin, and at most three quarters of that width high.
pub fn canvas_size(window_width: u32, window_height: u32) -> (size: (u32, u32))
    requires
        window_width >= CANVAS_MARGIN,
        window_height >= CANVAS_MARGIN,
        window_width * 3 <= u32::MAX,
    ensures
        size.0 == window_width - CANVAS_MARGIN,
        size.1 == if window_height - CANVAS_MARGIN <= window_width * 3 / 4 {
            window_height - CANVAS_MARGIN
        } else {
            window_width * 3 / 4
        },
{
    let width = window_width - CANVAS_MARGIN;
    let tall = window_height - CANVAS_MARGIN;
    let wide = window_width * 3 / 4;
    let height = if tall <= wide { tall } else { wide };
    (width, height)
}

} // verus!
