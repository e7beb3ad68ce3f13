use web_temperature_plots::app::{App, Effect, MouseInput, Msg, PlotWindow};
use web_temperature_plots::plot::{canvas_size, Plot};
use web_temperature_plots::stats::Stats;

fn report(temps: &[f32]) -> Msg<f32> {
    Msg::Stats(Stats { temperatures: temps.to_vec() })
}

fn plot_with(n: usize, x_max: Option<usize>) -> Plot<f32> {
    let mut p = Plot::default();
    for i in 0..n {
        p.push_reading(i as f32 * 0.5);
    }
    p.x_max = x_max;
    p
}

#[test]
fn stats_new_is_empty() {
    let s: Stats<f32> = Stats::new();
    assert!(s.temperatures.is_empty());
}

#[test]
fn plot_default_follows_with_no_points() {
    let p: Plot<f32> = Plot::default();
    assert!(p.data.is_empty());
    assert_eq!(p.x_max, None);
}

#[test]
fn push_reading_uses_next_position() {
    let mut p: Plot<f32> = Plot::default();
    p.push_reading(21.5);
    p.push_reading(22.0);
    assert_eq!(p.data, vec![(0, 21.5), (1, 22.0)]);
}

#[test]
fn window_follows_newest_point() {
    assert_eq!(plot_with(5, None).window(), (0, 4));
    assert_eq!(plot_with(11, None).window(), (0, 10));
    assert_eq!(plot_with(12, None).window(), (1, 11));
    assert_eq!(plot_with(20, None).window(), (9, 19));
    assert_eq!(plot_with(1, None).window(), (0, 0));
}

#[test]
fn window_ends_at_chosen_edge() {
    assert_eq!(plot_with(20, Some(12)).window(), (2, 12));
    assert_eq!(plot_with(20, Some(3)).window(), (0, 3));
    assert_eq!(plot_with(20, Some(10)).window(), (0, 10));
}

#[test]
fn drag_from_following() {
    assert_eq!(plot_with(20, None).dragged(5), Some(15));
    assert_eq!(plot_with(20, None).dragged(30), Some(0));
    assert_eq!(plot_with(20, None).dragged(20), Some(0));
    assert_eq!(plot_with(20, None).dragged(0), None);
    assert_eq!(plot_with(20, None).dragged(-3), None);
}

#[test]
fn drag_from_chosen_edge() {
    assert_eq!(plot_with(20, Some(10)).dragged(4), Some(6));
    assert_eq!(plot_with(20, Some(10)).dragged(-5), Some(15));
    assert_eq!(plot_with(20, Some(10)).dragged(-9), Some(19));
    assert_eq!(plot_with(20, Some(10)).dragged(-10), None);
    assert_eq!(plot_with(20, Some(10)).dragged(-15), None);
    assert_eq!(plot_with(20, Some(10)).dragged(10), Some(0));
    assert_eq!(plot_with(20, Some(10)).dragged(12), Some(1));
    assert_eq!(plot_with(20, Some(10)).dragged(0), Some(10));
}

#[test]
fn canvas_size_keeps_margin_and_ratio() {
    assert_eq!(canvas_size(1030, 800), (1000, 770));
    assert_eq!(canvas_size(430, 800), (400, 322));
    assert_eq!(canvas_size(30, 30), (0, 0));
}

#[test]
fn create_has_no_stats_and_no_plots() {
    let app: App<f32> = App::create();
    assert!(app.stats.is_none());
    assert!(app.plots.is_empty());
    assert!(app.can_redraw());
}

#[test]
fn reports_grow_the_plots() {
    let mut app: App<f32> = App::create();
    assert_eq!(app.update(report(&[40.0, 41.5])), (true, Effect::RequestRedraw));
    assert_eq!(app.plots.len(), 2);
    assert_eq!(app.plots[0].data, vec![(0, 40.0)]);
    assert_eq!(app.plots[1].data, vec![(0, 41.5)]);
    assert_eq!(app.stats.as_ref().unwrap().temperatures, vec![40.0, 41.5]);

    assert_eq!(app.update(report(&[42.0])), (true, Effect::RequestRedraw));
    assert_eq!(app.plots.len(), 2);
    assert_eq!(app.plots[0].data, vec![(0, 40.0), (1, 42.0)]);
    assert_eq!(app.plots[1].data, vec![(0, 41.5)]);
    assert_eq!(app.stats.as_ref().unwrap().temperatures, vec![42.0]);

    assert_eq!(app.update(report(&[43.0, 44.0, 45.0])), (true, Effect::RequestRedraw));
    assert_eq!(app.plots.len(), 3);
    assert_eq!(app.plots[0].data, vec![(0, 40.0), (1, 42.0), (2, 43.0)]);
    assert_eq!(app.plots[1].data, vec![(0, 41.5), (1, 44.0)]);
    assert_eq!(app.plots[2].data, vec![(0, 45.0)]);
    assert!(app.plots.iter().all(|p| p.x_max.is_none()));
}

#[test]
fn empty_report_changes_no_plot() {
    let mut app: App<f32> = App::create();
    app.update(report(&[40.0]));
    assert_eq!(app.update(report(&[])), (true, Effect::RequestRedraw));
    assert_eq!(app.plots.len(), 1);
    assert_eq!(app.plots[0].data, vec![(0, 40.0)]);
    assert!(app.stats.as_ref().unwrap().temperatures.is_empty());
}

#[test]
fn redraw_gives_one_window_per_plot() {
    let mut app: App<f32> = App::create();
    for k in 0..15 {
        app.update(report(&[k as f32, 2.0 * k as f32]));
    }
    app.update(report(&[99.0]));
    let (rerender, effect) = app.update(Msg::Redraw);
    assert!(!rerender);
    assert_eq!(
        effect,
        Effect::Draw(vec![
            PlotWindow { index: 0, x_min: 5, x_max: 15 },
            PlotWindow { index: 1, x_min: 4, x_max: 14 },
        ])
    );
    assert_eq!(app.plots[0].data.len(), 16);
    assert_eq!(app.plots[1].data.len(), 15);
}

#[test]
fn redraw_with_no_plots_draws_nothing() {
    let mut app: App<f32> = App::create();
    assert_eq!(app.update(Msg::Redraw), (false, Effect::Draw(vec![])));
}

#[test]
fn mouse_move_without_button_changes_nothing() {
    let mut app: App<f32> = App::create();
    for k in 0..20 {
        app.update(report(&[k as f32]));
    }
    let input = MouseInput { buttons: 2, movement_x: 7 };
    assert_eq!(app.update(Msg::MouseEvent(0, input)), (true, Effect::Nothing));
    assert_eq!(app.plots[0].x_max, None);
}

#[test]
fn dragging_moves_and_releases_the_window() {
    let mut app: App<f32> = App::create();
    for k in 0..20 {
        app.update(report(&[k as f32, k as f32]));
    }
    let drag = |m: i32| Msg::MouseEvent(1, MouseInput { buttons: 1, movement_x: m });
    assert_eq!(app.update(drag(5)), (true, Effect::RequestRedraw));
    assert_eq!(app.plots[1].x_max, Some(15));
    assert_eq!(app.plots[0].x_max, None);
    assert_eq!(app.update(drag(-2)), (true, Effect::RequestRedraw));
    assert_eq!(app.plots[1].x_max, Some(17));
    assert_eq!(app.update(drag(100)), (true, Effect::RequestRedraw));
    assert_eq!(app.plots[1].x_max, Some(1));
    assert_eq!(app.update(drag(-30)), (true, Effect::RequestRedraw));
    assert_eq!(app.plots[1].x_max, None);
    let (_, effect) = app.update(Msg::Redraw);
    assert_eq!(
        effect,
        Effect::Draw(vec![
            PlotWindow { index: 0, x_min: 9, x_max: 19 },
            PlotWindow { index: 1, x_min: 9, x_max: 19 },
        ])
    );
}

#[test]
fn drag_with_other_buttons_held_counts() {
    let mut app: App<f32> = App::create();
    for k in 0..20 {
        app.update(report(&[k as f32]));
    }
    let input = MouseInput { buttons: 3, movement_x: 4 };
    assert_eq!(app.update(Msg::MouseEvent(0, input)), (true, Effect::RequestRedraw));
    assert_eq!(app.plots[0].x_max, Some(16));
}

#[test]
fn dragging_single_point_plot_past_its_end() {
    let mut app: App<f32> = App::create();
    app.update(report(&[30.0]));
    let drag = Msg::MouseEvent(0, MouseInput { buttons: 1, movement_x: 1 });
    app.update(drag);
    assert_eq!(app.plots[0].x_max, Some(0));
    assert!(app.can_redraw());
    let drag = Msg::MouseEvent(0, MouseInput { buttons: 1, movement_x: 1 });
    app.update(drag);
    assert_eq!(app.plots[0].x_max, Some(1));
    assert!(!app.can_redraw());
}

#[test]
fn ping_changes_nothing() {
    let mut app: App<f32> = App::create();
    app.update(report(&[30.0]));
    assert_eq!(app.update(Msg::Ping), (true, Effect::Nothing));
    assert_eq!(app.plots[0].data, vec![(0, 30.0)]);
}

#[test]
fn mouse_move_without_button_over_any_index() {
    let mut app: App<f32> = App::create();
    let input = MouseInput { buttons: 0, movement_x: 3 };
    assert_eq!(app.update(Msg::MouseEvent(5, input)), (true, Effect::Nothing));
    assert!(app.plots.is_empty());
    assert!(app.stats.is_none());
}

#[test]
fn drag_takes_edges_as_truncated_i32() {
    assert_eq!(plot_with(1, Some(2147483648)).dragged(0), Some(1));
    assert_eq!(plot_with(1, Some(4294967296 + 5)).dragged(0), None);
    assert_eq!(plot_with(20, Some(4294967296 + 5)).dragged(2), Some(3));
}
