use vstd::prelude::*;

use crate::plot::{dragged_x_max, left_edge, Plot};
use crate::stats::Stats;

verus! {

/// What the front end reads of a mouse event over a plot's canvas.
#[derive(Debug, Clone, Copy)]
pub struct MouseInput {
    /// The buttons held, one bit each; bit 0 is the first button.
    pub buttons: u16,
    /// The horizontal movement since the previous event, in pixels.
    pub movement_x: i32,
}

/// Bit 0 of the buttons, the first button, is set.
pub open spec fn first_button_held(buttons: u16) -> bool {
    buttons % 2 == 1
}

/// The first button is held exactly when bit 0 of the buttons is set,
/// whatever the other bits.
pub proof fn lemma_first_button_is_bit_zero(buttons: u16)
    ensures
        first_button_held(buttons) <==> (buttons & 1u16) != 0,
{
    assert(((buttons & 1u16) != 0) == (buttons % 2 == 1)) by (bit_vector);
}

/// The messages the front end handles.
pub enum Msg<V> {
    /// A report arrived from the server.
    Stats(Stats<V>),
    /// The plots are to be drawn again.
    Redraw,
    /// The mouse moved over the canvas of the plot with the given index.
    MouseEvent(usize, MouseInput),
    /// A button was pressed or released over a canvas.
    Ping,
}

/// The part of one plot to draw: the points from `x_min` to `x_max`,
/// both included.
#[derive(Debug, PartialEq, Eq, Structural)]
pub struct PlotWindow {
    pub index: usize,
    pub x_min: usize,
    pub x_max: usize,
}

/// What the front end does after handling a message.
#[derive(Debug, PartialEq)]
pub enum Effect {
    /// Nothing more.
    Nothing,
    /// Send itself a `Redraw` message.
    RequestRedraw,
    /// Draw these windows, one for each plot, in the order of the plots.
    Draw(Vec<PlotWindow>),
}

/// The state of the front end: the latest report, if any, and one plot for
/// each thermal zone seen so far.
pub struct App<V> {
    pub stats: Option<Stats<V>>,
    pub plots: Vec<Plot<V>>,
}

/// The points of plot `j` before a report: none for a plot the report creates.
pub open spec fn prior_data<V>(prev: Seq<Plot<V>>, j: int) -> Seq<(usize, V)> {
    if j < prev.len() {
        prev[j].data@
    } else {
        Seq::empty()
    }
}

/// The right-hand edge of plot `j` before a report: a plot the report
/// creates follows new data.
pub open spec fn prior_x_max<V>(prev: Seq<Plot<V>>, j: int) -> Option<usize> {
    if j < prev.len() {
        prev[j].x_max
    } else {
        None
    }
}

/// A report extends plot `j` from what it held before: its points and edge
/// if it existed, no points and following new data if the report creates it.
pub proof fn lemma_report_extends_prior<V>(prev: Seq<Plot<V>>, j: int)
    requires
        0 <= j,
    ensures
        j < prev.len() ==> prior_data(prev, j) == prev[j].data@ && prior_x_max(prev, j)
            == prev[j].x_max,
        j >= prev.len() ==> prior_data(prev, j).len() == 0 && prior_x_max(prev, j) is None,
{
}

/// The window drawn for plot `i`.
pub open spec fn window_of<V>(p: Plot<V>, i: int) -> PlotWindow {
    PlotWindow {
        index: i as usize,
        x_min: left_edge(p.right_edge()) as usize,
        x_max: p.right_edge() as usize,
    }
}

/// The window drawn for a plot that can show it is the plot's own window:
/// it ends at the newest point while the plot follows new data, and at the
/// chosen position otherwise, and it holds the ten positions before that edge,
/// or every position down to the first when there are fewer.
pub proof fn lemma_drawn_window<V>(p: Plot<V>, i: int)
    requires
        p.can_show(),
        0 <= i <= usize::MAX,
    ensures
        window_of(p, i).index == i,
        p.x_max is None ==> window_of(p, i).x_max + 1 == p.data@.len(),
        p.x_max matches Some(k) ==> window_of(p, i).x_max == k,
        window_of(p, i).x_min <= window_of(p, i).x_max,
        window_of(p, i).x_max >= 10 ==> window_of(p, i).x_max - window_of(p, i).x_min == 10,
        window_of(p, i).x_max <= 10 ==> window_of(p, i).x_min == 0,
{
    assert(p.data@.len() == p.data.len());
    crate::plot::lemma_left_edge_span(p.right_edge());
}

impl<V: Copy> App<V> {
    /// Every plot keeps its state.
    pub open spec fn wf(&self) -> bool {
        forall|i: int| 0 <= i < self.plots@.len() ==> (#[trigger] self.plots@[i]).wf()
    }

    /// The message can be handled without leaving the front end's integer
    /// arithmetic or the range of its plots.
    pub open spec fn accepts(&self, msg: &Msg<V>) -> bool {
        match msg {
            Msg::Stats(_) => forall|i: int|
                0 <= i < self.plots@.len() ==> (#[trigger] self.plots@[i]).len() < usize::MAX,
            Msg::Redraw => forall|i: int|
                0 <= i < self.plots@.len() ==> (#[trigger] self.plots@[i]).can_show(),
            Msg::MouseEvent(i, e) => first_button_held(e.buttons) ==> {
                &&& *i < self.plots@.len()
                &&& self.plots@[*i as int].drag_in_range(e.movement_x as int)
            },
            Msg::Ping => true,
        }
    }

    /// The one move that can leave a plot's right-hand edge past its last
    /// point: dragging a plot of a single point, whose edge is chosen, to
    /// the right.
    pub open spec fn drags_past_end(&self, msg: &Msg<V>) -> bool {
        match msg {
            Msg::MouseEvent(i, e) => {
                &&& first_button_held(e.buttons)
                &&& self.plots@[*i as int].x_max matches Some(old) && old - e.movement_x < 0
                &&& self.plots@[*i as int].len() < 2
            },
            _ => false,
        }
    }

    /// Every plot can show its window, so that a `Redraw` can be handled.
    pub fn can_redraw(&self) -> (r: bool)
        ensures
            r == (forall|i: int| 0 <= i < self.plots@.len() ==> (#[trigger] self.plots@[i]).can_show()),
    {
        let mut i: usize = 0;
        while i < self.plots.len()
            invariant
                0 <= i <= self.plots@.len(),
                forall|j: int| 0 <= j < i ==> (#[trigger] self.plots@[j]).can_show(),
            decreases self.plots@.len() - i,
        {
            let plot = &self.plots[i];
            let shows = plot.data.len() > 0 && match plot.x_max {
                None => true,
                Some(k) => k < plot.data.len(),
            };
            if !shows {
                return false;
            }
            i = i + 1;
        }
        true
    }

    /// The state before any message: no report and no plot.
    pub fn create() -> (app: Self)
        ensures
            app.stats is None,
            app.plots@.len() == 0,
            app.wf(),
    {
        App { stats: None, plots: Vec::new() }
    }

    /// Handles one message. Returns whether the page is to be rendered
    /// again, and what to do next.
    pub fn update(&mut self, msg: Msg<V>) -> (r: (bool, Effect))
        requires
            old(self).accepts(&msg),
        ensures
            old(self).wf() && !old(self).drags_past_end(&msg) ==> final(self).wf(),
            match msg {
                Msg::Stats(s) => {
                    let prev = old(self).plots@;
                    let temps = s.temperatures@;
                    &&& r.0
                    &&& r.1 == Effect::RequestRedraw
                    &&& final(self).stats == Some(s)
                    &&& final(self).plots@.len() == if prev.len() < temps.len() {
                        temps.len()
                    } else {
                        prev.len()
                    }
                    &&& forall|j: int|
                        0 <= j < temps.len() ==> {
                            &&& (#[trigger] final(self).plots@[j]).data@ == prior_data(
                                prev,
                                j,
                            ).push((prior_data(prev, j).len() as usize, temps[j]))
                            &&& final(self).plots@[j].x_max == prior_x_max(prev, j)
                        }
                    &&& forall|j: int|
                        temps.len() <= j < prev.len() ==> #[trigger] final(self).plots@[j]
                            == prev[j]
                },
                Msg::Redraw => {
                    &&& !r.0
                    &&& *final(self) == *old(self)
                    &&& r.1 matches Effect::Draw(ws) && ws@.len() == old(self).plots@.len()
                        && forall|i: int|
                        0 <= i < ws@.len() ==> #[trigger] ws@[i] == window_of(
                            old(self).plots@[i],
                            i,
                        )
                },
                Msg::MouseEvent(i, e) => {
                    &&& r.0
                    &&& final(self).stats == old(self).stats
                    &&& if first_button_held(e.buttons) {
                        let p = old(self).plots@[i as int];
                        &&& r.1 == Effect::RequestRedraw
                        &&& final(self).plots@ == old(self).plots@.update(
                            i as int,
                            Plot {
                                data: p.data,
                                x_max: dragged_x_max(p.x_max, p.len(), e.movement_x as int),
                            },
                        )
                    } else {
                        &&& r.1 == Effect::Nothing
                        &&& *final(self) == *old(self)
                    }
                },
                Msg::Ping => {
                    &&& r.0
                    &&& r.1 == Effect::Nothing
                    &&& *final(self) == *old(self)
                },
            },
    {
        match msg {
            Msg::Stats(s) => {
                let ghost prev = self.plots@;
                let n = s.temperatures.len();
                let mut i: usize = 0;
                while i < n
                    invariant
                        0 <= i <= n,
                        n == s.temperatures@.len(),
                        self.plots@.len() == if prev.len() < i {
                            i as int
                        } else {
                            prev.len() as int
                        },
                        forall|j: int|
                            0 <= j < prev.len() ==> (#[trigger] prev[j]).len() < usize::MAX,
                        forall|j: int|
                            0 <= j < i ==> {
                                &&& (#[trigger] self.plots@[j]).data@ == prior_data(
                                    prev,
                                    j,
                                ).push((prior_data(prev, j).len() as usize, s.temperatures@[j]))
                                &&& self.plots@[j].x_max == prior_x_max(prev, j)
                            },
                        forall|j: int| i <= j < prev.len() ==> #[trigger] self.plots@[j] == prev[j],
                    decreases n - i,
                {
                    if i >= self.plots.len() {
                        self.plots.push(Plot::default());
                    }
                    let reading = s.temperatures[i];
                    self.plots[i].push_reading(reading);
                    i = i + 1;
                }
                self.stats = Some(s);
                (true, Effect::RequestRedraw)
            },
            Msg::Redraw => {
                let mut windows: Vec<PlotWindow> = Vec::new();
                let mut index: usize = 0;
                while index < self.plots.len()
                    invariant
                        0 <= index <= self.plots@.len(),
                        forall|i: int|
                            0 <= i < self.plots@.len() ==> (#[trigger] self.plots@[i]).can_show(),
                        windows@.len() == index,
                        forall|i: int|
                            0 <= i < index ==> #[trigger] windows@[i] == window_of(
                                self.plots@[i],
                                i,
                            ),
                    decreases self.plots@.len() - index,
                {
                    let (x_min, x_max) = self.plots[index].window();
                    windows.push(PlotWindow { index, x_min, x_max });
                    index = index + 1;
                }
                (false, Effect::Draw(windows))
            },
            Msg::MouseEvent(plot_index, e) => {
                let held = e.buttons & 1u16 != 0;
                assert(held == first_button_held(e.buttons)) by {
                    let b = e.buttons;
                    assert((b & 1u16 != 0) == (b % 2 == 1)) by (bit_vector);
                }
                if held {
                    let x_max = self.plots[plot_index].dragged(e.movement_x);
                    self.plots[plot_index].x_max = x_max;
                    (true, Effect::RequestRedraw)
                } else {
                    (true, Effect::Nothing)
                }
            },
            Msg::Ping => (true, Effect::Nothing),
        }
    }
}

} // verus!
