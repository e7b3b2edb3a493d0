use paper::frame::{ClearColor, Frame, Renderable, ONE_BITS};
use paper::mesh::MeshData;
use paper::renderer::{AcquireOutcome, DrawCall, PresentError, Renderer};
use paper::slot::SlotSync;
use paper::surface::{RenderTargets, SurfaceConfig, SurfaceState};

fn config() -> SurfaceConfig {
    SurfaceConfig { width: 640, height: 480, format: 7, present_mode: 1 }
}

fn mesh(vertices: usize, indices: usize) -> MeshData {
    MeshData::new(vec![3u8; vertices * 28], vec![5u8; indices * 4]).unwrap()
}

fn identity_matrix() -> Vec<u8> {
    let mut out = Vec::new();
    for row in 0..4 {
        for col in 0..4 {
            let v: f32 = if row == col { 1.0 } else { 0.0 };
            out.extend_from_slice(&v.to_le_bytes());
        }
    }
    out
}

fn renderable(vertices: usize, indices: usize) -> Renderable {
    Renderable::new(mesh(vertices, indices), identity_matrix(), identity_matrix()).unwrap()
}

fn frame_of(meshes: &[(usize, usize)]) -> Frame {
    let mut frame = Frame::new();
    for &(v, i) in meshes {
        frame.push(renderable(v, i));
    }
    frame
}

#[test]
fn empty_frame_submits_with_zero_draws() {
    let mut renderer = Renderer::new(config());
    let frame = Frame::new();
    let plan = renderer.render(&frame, AcquireOutcome::Acquired).unwrap();
    assert_eq!(plan.draws.len(), 0);
    assert_eq!(plan.sync_actions.len(), 0);
    assert_eq!(plan.clear_color, ClearColor { r: ONE_BITS, g: ONE_BITS, b: ONE_BITS, a: ONE_BITS });
    assert_eq!(renderer.cache.len(), 0);
    assert_eq!(renderer.surface.state, SurfaceState::Configured);
}

#[test]
fn single_triangle_draws_three_indices() {
    let mut renderer = Renderer::new(config());
    let frame = frame_of(&[(3, 3)]);
    let plan = renderer.render(&frame, AcquireOutcome::Acquired).unwrap();
    assert_eq!(plan.draws, vec![DrawCall { slot: 0, index_count: 3 }]);
    assert_eq!(plan.sync_actions, vec![SlotSync::Created]);
    assert_eq!(renderer.cache.len(), 1);
}

#[test]
fn stable_sizes_write_in_place() {
    let mut renderer = Renderer::new(config());
    let first = frame_of(&[(3, 3), (6, 12)]);
    renderer.render(&first, AcquireOutcome::Acquired).unwrap();
    let second = frame_of(&[(3, 3), (6, 12)]);
    let plan = renderer.render(&second, AcquireOutcome::Acquired).unwrap();
    assert_eq!(
        plan.sync_actions,
        vec![
            SlotSync::Updated { vertex_replaced: false, index_replaced: false },
            SlotSync::Updated { vertex_replaced: false, index_replaced: false },
        ]
    );
}

#[test]
fn size_change_replaces_buffers_and_index_count() {
    let mut renderer = Renderer::new(config());
    renderer.render(&frame_of(&[(3, 3)]), AcquireOutcome::Acquired).unwrap();
    let plan = renderer
        .render(&frame_of(&[(6, 12)]), AcquireOutcome::Acquired)
        .unwrap();
    assert_eq!(
        plan.sync_actions,
        vec![SlotSync::Updated { vertex_replaced: true, index_replaced: true }]
    );
    assert_eq!(plan.draws, vec![DrawCall { slot: 0, index_count: 12 }]);
    assert_eq!(renderer.cache.slots[0].index_count, 12);
    assert_eq!(renderer.cache.slots[0].vertex.data.len(), 6 * 28);
    assert_eq!(renderer.cache.slots[0].index.data.len(), 12 * 4);
}

#[test]
fn resubmitting_a_frame_leaves_identical_contents() {
    let mut renderer = Renderer::new(config());
    renderer.render(&frame_of(&[(3, 3), (4, 6)]), AcquireOutcome::Acquired).unwrap();
    let uniform0 = renderer.cache.slots[0].uniform.clone();
    let vertex0 = renderer.cache.slots[0].vertex.data.clone();
    let index0 = renderer.cache.slots[0].index.data.clone();
    let vertex1 = renderer.cache.slots[1].vertex.data.clone();
    renderer.render(&frame_of(&[(3, 3), (4, 6)]), AcquireOutcome::Acquired).unwrap();
    assert_eq!(renderer.cache.slots[0].uniform, uniform0);
    assert_eq!(renderer.cache.slots[0].vertex.data, vertex0);
    assert_eq!(renderer.cache.slots[0].index.data, index0);
    assert_eq!(renderer.cache.slots[1].vertex.data, vertex1);
}

#[test]
fn growing_by_one_appends_one_slot() {
    let mut renderer = Renderer::new(config());
    renderer.render(&frame_of(&[(3, 3)]), AcquireOutcome::Acquired).unwrap();
    assert_eq!(renderer.cache.len(), 1);
    let plan = renderer
        .render(&frame_of(&[(3, 3), (6, 6)]), AcquireOutcome::Acquired)
        .unwrap();
    assert_eq!(renderer.cache.len(), 2);
    assert_eq!(
        plan.sync_actions,
        vec![
            SlotSync::Updated { vertex_replaced: false, index_replaced: false },
            SlotSync::Created,
        ]
    );
}

#[test]
fn shrinking_keeps_slots_and_draws_fewer() {
    let mut renderer = Renderer::new(config());
    renderer
        .render(&frame_of(&[(3, 3), (4, 6), (5, 9)]), AcquireOutcome::Acquired)
        .unwrap();
    assert_eq!(renderer.cache.len(), 3);
    let plan = renderer.render(&frame_of(&[(3, 3)]), AcquireOutcome::Acquired).unwrap();
    assert_eq!(renderer.cache.len(), 3);
    assert_eq!(plan.draws.len(), 1);
    // The unused slots keep their content from the larger frame.
    assert_eq!(renderer.cache.slots[2].index.data.len(), 9 * 4);
}

#[test]
fn draws_follow_frame_order() {
    let mut renderer = Renderer::new(config());
    let plan = renderer
        .render(&frame_of(&[(3, 3), (4, 6), (5, 9)]), AcquireOutcome::Acquired)
        .unwrap();
    assert_eq!(
        plan.draws,
        vec![
            DrawCall { slot: 0, index_count: 3 },
            DrawCall { slot: 1, index_count: 6 },
            DrawCall { slot: 2, index_count: 9 },
        ]
    );
}

#[test]
fn resize_rebuilds_targets_and_keeps_slots() {
    let mut renderer = Renderer::new(config());
    renderer.render(&frame_of(&[(3, 3)]), AcquireOutcome::Acquired).unwrap();
    renderer.resize(800, 600);
    assert_eq!(renderer.surface.config.width, 800);
    assert_eq!(renderer.surface.config.height, 600);
    assert_eq!(renderer.surface.config.format, 7);
    assert_eq!(renderer.surface.state, SurfaceState::Configured);
    assert_eq!(renderer.targets, RenderTargets { width: 800, height: 600 });
    assert_eq!(renderer.cache.len(), 1);
    assert_eq!(renderer.cache.slots[0].vertex.data.len(), 3 * 28);
}

#[test]
fn lost_surface_recreates_with_same_configuration() {
    let mut renderer = Renderer::new(config());
    renderer.render(&frame_of(&[(3, 3)]), AcquireOutcome::Acquired).unwrap();
    let err = renderer
        .render(&frame_of(&[(3, 3)]), AcquireOutcome::Lost)
        .unwrap_err();
    assert_eq!(err, PresentError::Lost);
    assert_eq!(renderer.surface.state, SurfaceState::Lost);
    renderer.recreate();
    assert_eq!(renderer.surface.state, SurfaceState::Configured);
    assert_eq!(renderer.surface.config.width, 640);
    assert_eq!(renderer.surface.config.height, 480);
    // The cache was untouched by the failed submission and the recreation.
    assert_eq!(renderer.cache.len(), 1);
}

#[test]
fn transient_errors_surface_and_leave_state_configured() {
    let mut renderer = Renderer::new(config());
    let cases = [
        (AcquireOutcome::OutOfMemory, PresentError::OutOfMemory),
        (AcquireOutcome::Outdated, PresentError::Outdated),
        (AcquireOutcome::Timeout, PresentError::Timeout),
        (AcquireOutcome::Other, PresentError::Other),
    ];
    for (acquire, expected) in cases {
        let err = renderer.render(&frame_of(&[(3, 3)]), acquire).unwrap_err();
        assert_eq!(err, expected);
        assert_eq!(renderer.surface.state, SurfaceState::Configured);
        assert_eq!(renderer.cache.len(), 0);
    }
}

#[test]
fn failed_acquisition_issues_no_buffer_work() {
    let mut renderer = Renderer::new(config());
    renderer.render(&frame_of(&[(3, 3)]), AcquireOutcome::Acquired).unwrap();
    let before = renderer.cache.slots[0].vertex.data.clone();
    // A frame with a different mesh size fails to acquire: nothing changes.
    renderer
        .render(&frame_of(&[(9, 9)]), AcquireOutcome::Outdated)
        .unwrap_err();
    assert_eq!(renderer.cache.slots[0].vertex.data, before);
    assert_eq!(renderer.cache.slots[0].vertex.data.len(), 3 * 28);
}

#[test]
fn uniform_holds_model_then_camera_matrix() {
    let mut renderer = Renderer::new(config());
    let m = mesh(3, 3);
    let transform = vec![0xaau8; 64];
    let camera = vec![0xbbu8; 64];
    let mut frame = Frame::new();
    frame.push(Renderable::new(m, transform, camera).unwrap());
    renderer.render(&frame, AcquireOutcome::Acquired).unwrap();
    let uniform = &renderer.cache.slots[0].uniform;
    assert_eq!(uniform.len(), 128);
    assert_eq!(uniform[..64], vec![0xaau8; 64][..]);
    assert_eq!(uniform[64..], vec![0xbbu8; 64][..]);
}

#[test]
fn plan_carries_the_frame_clear_color() {
    let mut renderer = Renderer::new(config());
    let mut frame = Frame::new();
    frame.clear_color = ClearColor {
        r: 0.25f32.to_bits(),
        g: 0.5f32.to_bits(),
        b: 0.75f32.to_bits(),
        a: 1.0f32.to_bits(),
    };
    let plan = renderer.render(&frame, AcquireOutcome::Acquired).unwrap();
    assert_eq!(plan.clear_color, frame.clear_color);
    assert_eq!(f32::from_bits(plan.clear_color.g), 0.5);
}

#[test]
fn surface_passes_through_resizing_to_configured() {
    let mut surface = paper::surface::PresentationSurface::new(config());
    surface.request_resize(1024, 768);
    assert_eq!(surface.state, SurfaceState::Resizing);
    assert_eq!(surface.config.width, 1024);
    assert_eq!(surface.config.height, 768);
    assert_eq!(surface.config.format, 7);
    surface.configure();
    assert_eq!(surface.state, SurfaceState::Configured);
    assert_eq!(surface.config.width, 1024);
}
