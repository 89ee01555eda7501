use blackhole::render::node::TracerNode;
use blackhole::render::pipeline::{
    prepare_bind_group, update_graph, update_render, workgroup_count, Dispatch, PipelineKind,
};
use blackhole::render::resources::{bind_group_textures, PipelineStatus, TracerState};
use blackhole::render::tracer::{cam_movement, swap_image, MoveDirection, MoveKeys};
use blackhole::{SIZE_X, SIZE_Y, WORKGROUP_SIZE};

fn full(pipeline: PipelineKind, bind_group: usize) -> Dispatch {
    Dispatch { pipeline, bind_group, groups_x: 240, groups_y: 135, groups_z: 1 }
}

#[test]
fn workgroup_grid_of_target() {
    assert_eq!(workgroup_count(SIZE_X, WORKGROUP_SIZE), 240);
    assert_eq!(workgroup_count(SIZE_Y, WORKGROUP_SIZE), 135);
    assert_eq!(workgroup_count(10, 4), 2);
    assert_eq!(workgroup_count(3, 8), 0);
}

#[test]
fn loading_waits_for_init_pipeline() {
    for status in [
        PipelineStatus::Queued,
        PipelineStatus::Creating,
        PipelineStatus::ShaderNotLoaded,
    ] {
        let mut s = TracerState::Loading;
        update_render(&mut s, status, PipelineStatus::Ready);
        assert_eq!(s, TracerState::Loading);
    }
    let mut s = TracerState::Loading;
    update_render(&mut s, PipelineStatus::Ready, PipelineStatus::Queued);
    assert_eq!(s, TracerState::Init);
}

#[test]
fn init_waits_for_update_pipeline() {
    let mut s = TracerState::Init;
    update_render(&mut s, PipelineStatus::Ready, PipelineStatus::Creating);
    assert_eq!(s, TracerState::Init);
    update_render(&mut s, PipelineStatus::Failed, PipelineStatus::Ready);
    assert_eq!(s, TracerState::Update(1));
}

#[test]
fn update_alternates_bind_groups() {
    let mut s = TracerState::Update(1);
    update_render(&mut s, PipelineStatus::Queued, PipelineStatus::Failed);
    assert_eq!(s, TracerState::Update(0));
    update_render(&mut s, PipelineStatus::Ready, PipelineStatus::Ready);
    assert_eq!(s, TracerState::Update(1));
}

#[test]
fn failure_is_only_fatal_while_loading() {
    assert!(TracerState::Loading.init_failed(&PipelineStatus::Failed));
    assert!(!TracerState::Loading.init_failed(&PipelineStatus::ShaderNotLoaded));
    assert!(!TracerState::Init.init_failed(&PipelineStatus::Failed));
    assert!(!TracerState::Update(0).init_failed(&PipelineStatus::Failed));
    assert_eq!(TracerState::default(), TracerState::Loading);
}

#[test]
fn graph_dispatch_per_state() {
    assert_eq!(update_graph(&TracerState::Loading, false, true), None);
    assert_eq!(
        update_graph(&TracerState::Init, true, false),
        Some(full(PipelineKind::Init, 0))
    );
    assert_eq!(
        update_graph(&TracerState::Update(1), false, true),
        Some(full(PipelineKind::Update, 1))
    );
    assert_eq!(
        update_graph(&TracerState::Update(0), true, true),
        Some(full(PipelineKind::Update, 0))
    );
    assert_eq!(update_graph(&TracerState::Update(0), true, false), None);
}

#[test]
fn bind_groups_ping_pong() {
    assert_eq!(bind_group_textures(0), (0, 1));
    assert_eq!(bind_group_textures(1), (1, 0));
    assert_eq!(prepare_bind_group(), vec![(0, 1), (1, 0)]);
}

#[test]
fn each_pass_reads_what_the_last_wrote() {
    let pairs = prepare_bind_group();
    let mut s = TracerState::Init;
    let mut last_written: Option<usize> = None;
    for _ in 0..6 {
        let d = update_graph(&s, true, true).unwrap();
        let (read, written) = pairs[d.bind_group];
        if let (TracerState::Update(_), Some(w)) = (s, last_written) {
            assert_eq!(read, w);
        }
        last_written = Some(written);
        update_render(&mut s, PipelineStatus::Ready, PipelineStatus::Ready);
    }
}

#[test]
fn node_waits_for_skybox() {
    let mut n = TracerNode::default();
    assert_eq!(n.state(), TracerState::Loading);
    assert_eq!(n.run(false, true), None);
    n.update(PipelineStatus::Ready, PipelineStatus::Ready, false);
    assert_eq!(n.state(), TracerState::Loading);
    n.update(PipelineStatus::Queued, PipelineStatus::Ready, true);
    assert_eq!(n.state(), TracerState::Loading);
    n.update(PipelineStatus::Ready, PipelineStatus::Queued, true);
    assert_eq!(n.state(), TracerState::Init);
    assert_eq!(n.run(true, false), Some(full(PipelineKind::Init, 0)));
    n.update(PipelineStatus::Ready, PipelineStatus::Ready, false);
    assert_eq!(n.state(), TracerState::Update(1));
    assert_eq!(n.run(false, true), Some(full(PipelineKind::Update, 1)));
    n.update(PipelineStatus::Ready, PipelineStatus::Ready, false);
    assert_eq!(n.state(), TracerState::Update(0));
    assert_eq!(n.run(false, false), None);
}

#[test]
fn camera_keys_map_to_axes() {
    let none = MoveKeys { forward: false, back: false, left: false, right: false, down: false, up: false };
    assert_eq!(cam_movement(&none), MoveDirection { x: 0, y: 0, z: 0 });
    let all = MoveKeys { forward: true, back: true, left: true, right: true, down: true, up: true };
    assert_eq!(cam_movement(&all), MoveDirection { x: -1, y: -1, z: -1 });
    let back_right_up = MoveKeys { forward: false, back: true, left: false, right: true, down: false, up: true };
    assert_eq!(cam_movement(&back_right_up), MoveDirection { x: 1, y: 1, z: 1 });
}

#[test]
fn display_flips_between_textures() {
    assert_eq!(swap_image(true), 1);
    assert_eq!(swap_image(false), 0);
    let mut shown = 0usize;
    for _ in 0..4 {
        let next = swap_image(shown == 0);
        assert_ne!(next, shown);
        shown = next;
    }
    assert_eq!(shown, 0);
}

#[test]
fn ready_pipelines_give_init_then_alternating_updates() {
    let mut s = TracerState::Loading;
    for k in 1..=7usize {
        update_render(&mut s, PipelineStatus::Ready, PipelineStatus::Ready);
        if k == 1 {
            assert_eq!(s, TracerState::Init);
        } else {
            assert_eq!(s, TracerState::Update((k - 1) % 2));
        }
    }
}
