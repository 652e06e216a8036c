use enoki2d::camera::{CameraLayout, CameraPositioning, Viewport};

#[test]
fn layouts_cycle() {
    assert_eq!(CameraLayout::default(), CameraLayout::QuadSplit);
    assert_eq!(CameraLayout::Single.toggled(), CameraLayout::VerticalSplit);
    assert_eq!(CameraLayout::VerticalSplit.toggled(), CameraLayout::QuadSplit);
    assert_eq!(CameraLayout::QuadSplit.toggled(), CameraLayout::Single);
}

#[test]
fn layout_camera_counts() {
    assert_eq!(CameraLayout::Single.positions().len(), 1);
    assert_eq!(CameraLayout::VerticalSplit.positions().len(), 2);
    assert_eq!(CameraLayout::QuadSplit.positions().len(), 4);
}

#[test]
fn quad_split_viewports() {
    let vs: Vec<Viewport> = CameraLayout::QuadSplit
        .positions()
        .iter()
        .map(|p| p.viewport(1281, 721))
        .collect();
    assert_eq!(vs[0], Viewport { x: 0, y: 0, width: 640, height: 360 });
    assert_eq!(vs[1], Viewport { x: 640, y: 0, width: 640, height: 360 });
    assert_eq!(vs[2], Viewport { x: 0, y: 360, width: 640, height: 360 });
    assert_eq!(vs[3], Viewport { x: 640, y: 360, width: 640, height: 360 });
}

#[test]
fn single_and_vertical_viewports() {
    let p = CameraLayout::Single.positions()[0];
    assert_eq!(p.viewport(800, 600), Viewport { x: 0, y: 0, width: 800, height: 600 });
    let right: CameraPositioning = CameraLayout::VerticalSplit.positions()[1];
    assert_eq!(right.viewport(800, 600), Viewport { x: 400, y: 0, width: 400, height: 600 });
}
