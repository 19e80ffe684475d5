use scatterplot::{
    plan_command_buffers, Circle, CircleManadger, CommandDeps, CommandPlan, DrawCall, DrawError,
    EventAction, PipelineCache, RenderError, PipelineKey, Plot, Plotter, PlotterError, Renderer, WindowEvent,
    WindowSurface, CLEAR_COLOR,
};

fn deps(f: u64, p: u64, i: u64) -> CommandDeps {
    CommandDeps { framebuffers: f, pipeline: p, instances: i }
}

#[test]
fn pipeline_is_reused_only_for_its_key() {
    let mut cache: PipelineCache<&str> = PipelineCache::new();
    let key = PipelineKey { render_pass: 1, width: 800, height: 600 };
    assert_eq!(cache.get(key), None);
    assert_eq!(cache.insert(key, "first"), Ok(1));
    assert_eq!(cache.get(key), Some(&"first"));
    let resized = PipelineKey { render_pass: 1, width: 1024, height: 600 };
    assert_eq!(cache.get(resized), None);
    assert_eq!(cache.get(PipelineKey { render_pass: 2, ..key }), None);
    assert_eq!(cache.insert(resized, "second"), Ok(2));
    assert_eq!(cache.get(key), None);
    assert_eq!(cache.get(resized), Some(&"second"));
    assert_eq!(cache.generation(), 2);
    cache.clear();
    assert_eq!(cache.get(resized), None);
}

#[test]
fn one_command_buffer_per_framebuffer() {
    let surface: WindowSurface<u8, u8, u8> =
        WindowSurface::new((640, 480), vec![0, 1, 2], vec![10, 11, 12]).unwrap();
    let mut a = Plot::new(7);
    let mut b = Plot::new(8);
    let m = Circle::new(0, [0; 3], [0; 4]);
    a.scatter(&mut vec![m; 5]);
    b.scatter(&mut vec![m; 3]);
    let mut packer = CircleManadger::new();
    assert_eq!(plan_command_buffers(&surface, &packer, 8), Err(DrawError::NotBaked));
    packer.create_buffers(&vec![a, b]).unwrap();
    let plans = plan_command_buffers(&surface, &packer, 8).unwrap();
    let draw = DrawCall { vertex_count: 6, instance_count: 3, first_vertex: 0, first_instance: 5 };
    assert_eq!(
        plans,
        vec![
            CommandPlan { framebuffer: 0, clear_color: CLEAR_COLOR, draw: Some(draw) },
            CommandPlan { framebuffer: 1, clear_color: CLEAR_COLOR, draw: Some(draw) },
            CommandPlan { framebuffer: 2, clear_color: CLEAR_COLOR, draw: Some(draw) },
        ]
    );
    let mut empty = Plot::new(9);
    empty.scatter(&mut vec![]);
    let mut a2 = Plot::new(7);
    a2.scatter(&mut vec![m; 5]);
    packer.create_buffers(&vec![a2, empty]).unwrap();
    let plans = plan_command_buffers(&surface, &packer, 9).unwrap();
    assert_eq!(plans.len(), 3);
    assert!(plans.iter().all(|p| p.draw.is_none()));
}

#[test]
fn unknown_plot_has_no_plan() {
    let surface: WindowSurface<u8, u8, u8> = WindowSurface::new((1, 1), vec![0], vec![0]).unwrap();
    let mut packer = CircleManadger::new();
    packer.create_buffers(&vec![Plot::new(1)]).unwrap();
    assert_eq!(plan_command_buffers(&surface, &packer, 2), Err(DrawError::UnknownPlot));
}

#[test]
fn clear_color_is_opaque_blue() {
    let c: Vec<f32> = CLEAR_COLOR.iter().map(|b| f32::from_bits(*b)).collect();
    assert_eq!(c, vec![0.0, 0.0, 1.0, 1.0]);
}

#[test]
fn stale_command_buffers_are_not_handed_out() {
    let mut surface: WindowSurface<u8, u8, u8> =
        WindowSurface::new((4, 4), vec![0, 1], vec![10, 11]).unwrap();
    let mut a = Plot::new(1);
    a.scatter(&mut vec![Circle::new(0, [0; 3], [0; 4]); 2]);
    let mut packer = CircleManadger::new();
    packer.create_buffers(&vec![a]).unwrap();
    let mut r: Renderer<&str> = Renderer::new();
    assert_eq!(r.get_command_buffer(1, deps(0, 1, 1)), None);
    r.build_command_buffers(&surface, &packer, 1, 1, vec!["cb0", "cb1"]).unwrap();
    assert_eq!(r.get_command_buffer(1, deps(0, 1, 1)), Some(&vec!["cb0", "cb1"]));
    assert_eq!(r.get_command_buffer(1, deps(1, 1, 1)), None);
    assert_eq!(r.get_command_buffer(1, deps(0, 2, 1)), None);
    assert_eq!(r.get_command_buffer(1, deps(0, 1, 2)), None);
    assert_eq!(r.get_command_buffer(2, deps(0, 1, 1)), None);
    surface.window_resized();
    surface.begin_tick();
    surface.recreate_swapchain((8, 8), vec![5, 6, 7], vec![15, 16, 17]).unwrap();
    assert_eq!(
        r.build_command_buffers(&surface, &packer, 1, 1, vec!["cb2", "cb3"]),
        Err(RenderError::BufferCount)
    );
    r.build_command_buffers(&surface, &packer, 1, 1, vec!["cb2", "cb3", "cb4"]).unwrap();
    assert_eq!(r.get_command_buffer(1, deps(0, 1, 1)), None);
    assert_eq!(r.get_command_buffer(1, deps(1, 1, 1)), Some(&vec!["cb2", "cb3", "cb4"]));
    assert_eq!(
        r.build_command_buffers(&surface, &packer, 9, 1, vec!["x", "y", "z"]),
        Err(RenderError::Draw(DrawError::UnknownPlot))
    );
    let removed = r.remove(1).unwrap();
    assert_eq!(removed.buffers, vec!["cb2", "cb3", "cb4"]);
    assert_eq!(removed.plans.len(), 3);
    assert_eq!(removed.plans[2].framebuffer, 2);
    assert!(r.remove(1).is_none());
}

#[test]
fn events_drive_the_plot_set() {
    let mut p = Plotter::new(1);
    p.new_plot(2).unwrap();
    assert_eq!(p.new_plot(1), Err(PlotterError::DuplicateId));
    assert_eq!(p.handle_event(WindowEvent::Resized(2)), EventAction::MarkResized(2));
    assert_eq!(p.handle_event(WindowEvent::Resized(3)), EventAction::Ignore);
    assert_eq!(p.handle_event(WindowEvent::MainEventsCleared), EventAction::Tick);
    assert_eq!(p.handle_event(WindowEvent::Other), EventAction::Ignore);
    assert_eq!(p.handle_event(WindowEvent::CloseRequested(1)), EventAction::Close { id: 1, exit: false });
    assert_eq!(p.handle_event(WindowEvent::CloseRequested(1)), EventAction::Ignore);
    assert_eq!(p.plots().len(), 1);
    assert_eq!(p.handle_event(WindowEvent::CloseRequested(2)), EventAction::Close { id: 2, exit: true });
    assert!(p.plots().is_empty());
}

#[test]
fn scatter_goes_to_the_current_plot() {
    let mut p = Plotter::new(1);
    p.new_plot(2).unwrap();
    p.scatter(&vec![1, 2], &vec![3, 4], 9, [1, 2, 3, 4]).unwrap();
    assert!(p.plots()[0].circles.is_empty());
    assert_eq!(p.plots()[1].circles, vec![Circle::new(9, [1, 3, 0], [1, 2, 3, 4]), Circle::new(9, [2, 4, 0], [1, 2, 3, 4])]);
    assert_eq!(p.current_plot().unwrap().id(), 2);
    let removed = p.remove_plot(2).unwrap();
    assert_eq!(removed.circles.len(), 2);
    assert!(p.current_plot().is_none());
    assert_eq!(p.scatter(&vec![1], &vec![1], 0, [0; 4]), Err(scatterplot::ScatterError::NoCurrentPlot));
}
