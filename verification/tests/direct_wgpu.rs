use std::rc::Rc;

use retained_ui::direct_wgpu::{DirectWgpuJob, Pipeline};
use retained_ui::rectangle::Rectangle;

fn bounds(n: i32) -> Rectangle {
    Rectangle { x: n, y: 2 * n, width: 10, height: 20 }
}

#[test]
fn job_holds_its_bundle_and_bounds() {
    let job = DirectWgpuJob::new(String::from("bundle"), bounds(1));
    assert_eq!(*job.bundle, "bundle");
    assert_eq!(job.bounds, bounds(1));
}

#[test]
fn job_shares_a_bundle_that_is_shared_already() {
    let bundle = Rc::new(vec![1u8, 2, 3]);
    let job = DirectWgpuJob::new_rc(Rc::clone(&bundle), bounds(2));
    assert!(Rc::ptr_eq(&job.bundle, &bundle));
    assert_eq!(Rc::strong_count(&bundle), 2);
    assert_eq!(job.bounds, bounds(2));
}

#[test]
fn pipeline_plans_one_pass_for_each_job_in_order() {
    let jobs = vec![
        DirectWgpuJob::new("first", bounds(1)),
        DirectWgpuJob::new("second", bounds(2)),
        DirectWgpuJob::new("third", bounds(3)),
    ];
    let mut pipeline = Pipeline::new();
    let passes = pipeline.draw(&jobs);
    assert_eq!(passes.len(), 3);
    assert_eq!(passes[0].viewport, bounds(1));
    assert_eq!(*passes[0].bundle, "first");
    assert_eq!(passes[1].viewport, bounds(2));
    assert_eq!(*passes[1].bundle, "second");
    assert_eq!(passes[2].viewport, bounds(3));
    assert_eq!(*passes[2].bundle, "third");
    let none: Vec<DirectWgpuJob<u8>> = Vec::new();
    assert!(pipeline.draw(&none).is_empty());
}
