use scatterplot::{
    markers_from_points, Circle, CircleManadger, DrawCall, DrawError, InstanceRange, MyVertex,
    Plot, Plotter, ScatterError, TEMPLATE_VERTEX_COUNT,
};

fn bits(v: &[f32]) -> Vec<u32> {
    v.iter().map(|x| x.to_bits()).collect()
}

fn color(c: [f32; 4]) -> [u32; 4] {
    [c[0].to_bits(), c[1].to_bits(), c[2].to_bits(), c[3].to_bits()]
}

fn marker(x: f32, y: f32, radius: f32, c: [f32; 4]) -> Circle {
    Circle::new(radius.to_bits(), [x.to_bits(), y.to_bits(), 0f32.to_bits()], color(c))
}

#[test]
fn three_and_zero_markers() {
    let mut plotter = Plotter::new(10);
    plotter
        .scatter(&bits(&[-1.0, 0.0, 1.0]), &bits(&[-1.0, 0.0, 1.0]), 0.5f32.to_bits(), color([1.0, 0.0, 0.0, 1.0]))
        .unwrap();
    plotter.new_plot(20).unwrap();
    let mut packer = CircleManadger::new();
    plotter.create_buffers(&mut packer).unwrap();
    assert_eq!(packer.range_of(10), Some(InstanceRange { id: 10, offset: 0, count: 3 }));
    assert_eq!(packer.range_of(20), Some(InstanceRange { id: 20, offset: 3, count: 0 }));
    let draw_b = packer.draw(20).unwrap();
    assert_eq!(draw_b.instance_count, 0);
    assert_eq!(draw_b.first_instance, 3);
    assert_eq!(packer.instance_buffer().unwrap().len(), 3);
}

#[test]
fn two_markers_keep_their_positions() {
    let mut plot = Plot::new(1);
    let mut data = markers_from_points(&bits(&[-1.0, 1.0]), &bits(&[-1.0, 1.0]), 0.5f32.to_bits(), color([1.0, 1.0, 0.0, 1.0])).unwrap();
    plot.scatter(&mut data);
    assert!(data.is_empty());
    let mut packer = CircleManadger::new();
    packer.create_buffers(&vec![plot]).unwrap();
    let draw = packer.draw(1).unwrap();
    assert_eq!(draw.instance_count, 2);
    let instances = packer.instance_buffer().unwrap();
    assert_eq!(instances.len(), 2);
    let p0: Vec<f32> = instances[0].circle_position.iter().map(|b| f32::from_bits(*b)).collect();
    let p1: Vec<f32> = instances[1].circle_position.iter().map(|b| f32::from_bits(*b)).collect();
    assert_eq!(p0, vec![-1.0, -1.0, 0.0]);
    assert_eq!(p1, vec![1.0, 1.0, 0.0]);
    assert_eq!(f32::from_bits(instances[0].radius), 0.5);
}

#[test]
fn slices_follow_scatter_order_across_plots() {
    let red = [1.0, 0.0, 0.0, 1.0];
    let white = [1.0, 1.0, 1.0, 1.0];
    let mut plotter = Plotter::new(1);
    plotter.scatter(&bits(&[-1.0, 0.0, 1.0]), &bits(&[-1.0, 0.0, 1.0]), 0.5f32.to_bits(), color(red)).unwrap();
    plotter.scatter(&bits(&[1.0, 0.0, -1.0]), &bits(&[-1.0, 0.0, 1.0]), 0.5f32.to_bits(), color(white)).unwrap();
    plotter.new_plot(2).unwrap();
    plotter.scatter(&bits(&[0.0]), &bits(&[0.0]), 0.25f32.to_bits(), color(red)).unwrap();
    plotter.new_plot(3).unwrap();
    plotter.scatter(&bits(&[2.0, 3.0]), &bits(&[4.0, 5.0]), 1.0f32.to_bits(), color(white)).unwrap();
    let mut packer = CircleManadger::new();
    plotter.create_buffers(&mut packer).unwrap();
    let instances = packer.instance_buffer().unwrap().clone();
    let mut total = 0;
    for plot in plotter.plots() {
        let range = packer.range_of(plot.id()).unwrap();
        assert_eq!(range.count, plot.circles.len());
        assert_eq!(&instances[range.offset..range.offset + range.count], &plot.circles[..]);
        total += range.count;
    }
    assert_eq!(total, 9);
    assert_eq!(instances.len(), 9);
    assert_eq!(instances[3], marker(1.0, -1.0, 0.5, white));
    assert_eq!(instances[6], marker(0.0, 0.0, 0.25, red));
    assert_eq!(packer.range_of(3), Some(InstanceRange { id: 3, offset: 7, count: 2 }));
}

#[test]
fn rebuilding_twice_gives_the_same_contents() {
    let mut plotter = Plotter::new(5);
    plotter.scatter(&bits(&[1.0, 2.0]), &bits(&[3.0, 4.0]), 0.5f32.to_bits(), color([0.0, 1.0, 0.0, 1.0])).unwrap();
    plotter.new_plot(6).unwrap();
    plotter.scatter(&bits(&[7.0]), &bits(&[8.0]), 0.5f32.to_bits(), color([0.0, 0.0, 1.0, 1.0])).unwrap();
    let mut packer = CircleManadger::new();
    plotter.create_buffers(&mut packer).unwrap();
    let first_instances = packer.instance_buffer().unwrap().clone();
    let first_vertices = packer.vertex_buffer().unwrap().clone();
    let first_ranges = (packer.range_of(5), packer.range_of(6));
    let first_generation = packer.generation();
    plotter.create_buffers(&mut packer).unwrap();
    assert_eq!(packer.instance_buffer().unwrap(), &first_instances);
    assert_eq!(packer.vertex_buffer().unwrap(), &first_vertices);
    assert_eq!((packer.range_of(5), packer.range_of(6)), first_ranges);
    assert_eq!(packer.generation(), first_generation + 1);
}

#[test]
fn template_is_two_triangles() {
    let v = Circle::vertex();
    assert_eq!(v.len(), TEMPLATE_VERTEX_COUNT);
    let corner = |x: i32, y: i32| MyVertex { local_position: [x, y, 0] };
    assert_eq!(v, vec![corner(1, 1), corner(-1, 1), corner(1, -1), corner(-1, -1), corner(-1, 1), corner(1, -1)]);
}

#[test]
fn mismatched_coordinates_are_refused() {
    assert_eq!(markers_from_points(&bits(&[1.0, 2.0]), &bits(&[1.0]), 0, [0; 4]), Err(ScatterError::LengthMismatch));
    let mut plotter = Plotter::new(1);
    assert_eq!(plotter.scatter(&bits(&[1.0]), &bits(&[]), 0, [0; 4]), Err(ScatterError::LengthMismatch));
    assert!(plotter.plots()[0].circles.is_empty());
}

#[test]
fn empty_plot_list_builds_empty_buffers() {
    let mut packer = CircleManadger::new();
    assert_eq!(packer.draw(1), Err(DrawError::NotBaked));
    packer.create_buffers(&vec![]).unwrap();
    assert_eq!(packer.instance_buffer().unwrap().len(), 0);
    assert_eq!(packer.vertex_buffer().unwrap().len(), 6);
    assert_eq!(packer.draw(1), Err(DrawError::UnknownPlot));
}

#[test]
fn draw_call_uses_template_and_range() {
    let mut a = Plot::new(1);
    let mut b = Plot::new(2);
    a.scatter(&mut vec![marker(0.0, 0.0, 1.0, [1.0; 4]); 4]);
    b.scatter(&mut vec![marker(1.0, 0.0, 1.0, [1.0; 4]); 2]);
    let mut packer = CircleManadger::new();
    packer.create_buffers(&vec![a, b]).unwrap();
    assert_eq!(
        packer.draw(2),
        Ok(DrawCall { vertex_count: 6, instance_count: 2, first_vertex: 0, first_instance: 4 })
    );
}

#[test]
fn clearing_drops_buffers_and_ranges() {
    let mut a = Plot::new(1);
    a.scatter(&mut vec![marker(0.0, 0.0, 1.0, [1.0; 4])]);
    let mut packer = CircleManadger::new();
    packer.create_buffers(&vec![a]).unwrap();
    packer.clear_buffer();
    assert!(packer.instance_buffer().is_none());
    assert!(packer.vertex_buffer().is_none());
    assert!(packer.range_of(1).is_some());
    packer.clear();
    assert!(packer.range_of(1).is_none());
    assert_eq!(packer.generation(), 1);
}

#[test]
fn plot_clear_removes_markers() {
    let mut plotter = Plotter::new(1);
    plotter.scatter(&bits(&[1.0]), &bits(&[1.0]), 0, [0; 4]).unwrap();
    plotter.new_plot(2).unwrap();
    plotter.scatter(&bits(&[1.0]), &bits(&[1.0]), 0, [0; 4]).unwrap();
    plotter.clear();
    assert!(plotter.plots().iter().all(|p| p.circles.is_empty()));
    assert_eq!(plotter.plots().len(), 2);
}
