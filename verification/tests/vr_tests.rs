use flight::vr::{
    primary, secondary, tertiary, ControllerButton, ControllerRef, DisplayData, DisplayEvent,
    EyeParameters, FrameData, FrameMath, GamepadSample, Layer, PoseSample, StageTransform,
    Trackable, ViveController, VrState,
};

use nalgebra::{Isometry3, Matrix4, Quaternion, Translation3, UnitQuaternion, Vector3};

fn bits3(v: [f32; 3]) -> [u32; 3] {
    [v[0].to_bits(), v[1].to_bits(), v[2].to_bits()]
}

fn bits16(m: &Matrix4<f32>) -> [u32; 16] {
    let mut out = [0u32; 16];
    for (i, x) in m.as_slice().iter().enumerate() {
        out[i] = x.to_bits();
    }
    out
}

fn mat16(b: &[u32; 16]) -> Matrix4<f32> {
    Matrix4::from_column_slice(&b.iter().map(|&w| f32::from_bits(w)).collect::<Vec<f32>>())
}

/// Orientation bits in device order [x, y, z, w].
fn quat_bits(q: &UnitQuaternion<f32>) -> [u32; 4] {
    [
        q.coords[0].to_bits(),
        q.coords[1].to_bits(),
        q.coords[2].to_bits(),
        q.coords[3].to_bits(),
    ]
}

fn iso_of_pose(p: &flight::vr::Pose) -> Isometry3<f32> {
    let q = Quaternion::new(
        f32::from_bits(p.orientation[3]),
        f32::from_bits(p.orientation[0]),
        f32::from_bits(p.orientation[1]),
        f32::from_bits(p.orientation[2]),
    );
    let t = Translation3::new(
        f32::from_bits(p.position[0]),
        f32::from_bits(p.position[1]),
        f32::from_bits(p.position[2]),
    );
    Isometry3::from_parts(t, UnitQuaternion::new_normalize(q))
}

fn display_data(connected: bool, stage: Option<[u32; 16]>) -> DisplayData {
    DisplayData {
        display_name: String::from("headset"),
        connected,
        left_eye: EyeParameters {
            render_width: 640,
            render_height: 720,
        },
        right_eye: EyeParameters {
            render_width: 640,
            render_height: 700,
        },
        stage_parameters: stage,
    }
}

fn frame_data(pose: PoseSample) -> FrameData {
    FrameData {
        pose,
        left_view: [1; 16],
        right_view: [2; 16],
        left_projection: [3; 16],
        right_projection: [4; 16],
    }
}

fn frame_math(stage_inverse: Option<[u32; 16]>) -> FrameMath {
    FrameMath {
        stage_inverse,
        left_eye: [10, 11, 12],
        right_eye: [20, 21, 22],
    }
}

fn valid_pose() -> PoseSample {
    PoseSample {
        orientation: Some([0, 0, 0, 1.0f32.to_bits()]),
        position: Some(bits3([0.0, 0.0, 0.0])),
    }
}

fn gamepad(id: u32, pose: PoseSample, axes: Vec<f64>) -> GamepadSample {
    GamepadSample {
        id,
        name: format!("pad-{}", id),
        pose,
        axes: axes.into_iter().map(f64::to_bits).collect(),
        buttons: vec![
            ControllerButton {
                pressed: false,
                touched: false,
            },
            ControllerButton {
                pressed: true,
                touched: true,
            },
        ],
    }
}

fn state() -> VrState {
    VrState {
        layer: Layer::default(),
        exit: false,
        paused: false,
    }
}

#[test]
fn fixed_locks_a_resolved_role_to_its_id() {
    let m = state().sync(
        display_data(true, None),
        &frame_data(valid_pose()),
        &frame_math(None),
        vec![gamepad(7, valid_pose(), vec![0.0, 0.0, 0.0])],
    );
    assert_eq!(primary().fixed(&m), ControllerRef::Indexed(7));
    // Roles that resolve to nothing come back unchanged.
    assert_eq!(secondary().fixed(&m), ControllerRef::Secondary);
    assert_eq!(tertiary().fixed(&m), ControllerRef::Tertiary);
    // An indexed reference is already fixed.
    assert_eq!(
        ControllerRef::Indexed(3).fixed(&m),
        ControllerRef::Indexed(3)
    );
}

#[test]
fn enumeration_order_assigns_roles() {
    // Two controllers with ids 3 and 9, enumerated 9 then 3.
    let m = state().sync(
        display_data(true, None),
        &frame_data(valid_pose()),
        &frame_math(None),
        vec![
            gamepad(9, valid_pose(), vec![0.0, 0.0, 0.0]),
            gamepad(3, valid_pose(), vec![0.0, 0.0, 0.0]),
        ],
    );
    assert_eq!(primary().fixed(&m), ControllerRef::Indexed(9));
    assert_eq!(secondary().fixed(&m), ControllerRef::Indexed(3));
    assert_eq!(tertiary().fixed(&m), ControllerRef::Tertiary);
    assert!(m.controller(primary()).is_some());
    assert!(m.controller(secondary()).is_some());
    assert!(m.controller(tertiary()).is_none());
    assert_eq!(m.controllers().len(), 2);
}

#[test]
fn disconnected_device_yields_no_hmd() {
    let m = state().sync(
        display_data(false, None),
        &frame_data(valid_pose()),
        &frame_math(None),
        vec![],
    );
    assert!(m.hmd().is_none());
}

#[test]
fn connected_device_with_valid_pose_yields_hmd() {
    let m = state().sync(
        display_data(true, None),
        &frame_data(valid_pose()),
        &frame_math(None),
        vec![],
    );
    let hmd = m.hmd().unwrap();
    assert_eq!(hmd.name, "headset");
    assert_eq!(hmd.size, (1280, 720));
    assert_eq!(hmd.left.view, [1; 16]);
    assert_eq!(hmd.right.view, [2; 16]);
    assert_eq!(hmd.left.clip.w, 640);
    assert_eq!(hmd.right.clip.x, 640);
    assert_eq!(hmd.left.clip_offset, (-0.5f32).to_bits());
    assert_eq!(hmd.right.clip_offset, (0.5f32).to_bits());
    assert_eq!(hmd.pose(), hmd.pose);
}

#[test]
fn incomplete_pose_yields_no_hmd() {
    let sample = PoseSample {
        orientation: Some([0, 0, 0, 1.0f32.to_bits()]),
        position: None,
    };
    let m = state().sync(
        display_data(true, None),
        &frame_data(sample),
        &frame_math(None),
        vec![],
    );
    assert!(m.hmd().is_none());
}

#[test]
fn controllers_without_complete_pose_are_omitted_but_keep_roles() {
    let poseless = PoseSample {
        orientation: None,
        position: Some(bits3([0.0, 0.0, 0.0])),
    };
    let m = state().sync(
        display_data(true, None),
        &frame_data(valid_pose()),
        &frame_math(None),
        vec![
            gamepad(4, poseless, vec![0.0, 0.0, 0.0]),
            gamepad(5, valid_pose(), vec![0.0, 0.0, 0.0]),
        ],
    );
    // Role assignment counts every enumerated gamepad...
    assert_eq!(primary().fixed(&m), ControllerRef::Indexed(4));
    // ...but only complete poses are present as controllers.
    assert!(m.controller(primary()).is_none());
    assert!(m.controller(secondary()).is_some());
    assert_eq!(m.controllers().len(), 1);
}

#[test]
fn stage_transform_falls_back_to_identity() {
    let m = state().sync(
        display_data(true, None),
        &frame_data(valid_pose()),
        &frame_math(None),
        vec![],
    );
    assert!(matches!(m.stage, StageTransform::Identity));
    // Even with a leftover inverse in the math bundle, absent stage
    // parameters mean identity.
    let m = state().sync(
        display_data(true, None),
        &frame_data(valid_pose()),
        &frame_math(Some([9; 16])),
        vec![],
    );
    assert!(matches!(m.stage, StageTransform::Identity));
}

#[test]
fn stage_transform_is_the_inverse_of_sitting_to_standing() {
    let sitting = Isometry3::from_parts(
        Translation3::new(0.3, 1.2, -0.7),
        UnitQuaternion::from_axis_angle(&Vector3::y_axis(), 0.8),
    )
    .to_homogeneous();
    let inverse = sitting.try_inverse().unwrap();
    let m = state().sync(
        display_data(true, Some(bits16(&sitting))),
        &frame_data(valid_pose()),
        &frame_math(Some(bits16(&inverse))),
        vec![],
    );
    let words = match m.stage {
        StageTransform::Inverse(words) => words,
        StageTransform::Identity => panic!("expected an inverse stage transform"),
    };
    let product = mat16(&words) * sitting;
    for i in 0..4 {
        for j in 0..4 {
            let expected = if i == j { 1.0 } else { 0.0 };
            assert!((product[(i, j)] - expected).abs() < 1e-4);
        }
    }
}

#[test]
fn lifecycle_events_fold_in_order() {
    let mut s = state();
    s.apply_events(&vec![DisplayEvent::Pause, DisplayEvent::Other]);
    assert!(s.paused);
    assert!(!s.exit);
    s.apply_events(&vec![DisplayEvent::Resume, DisplayEvent::Exit]);
    assert!(!s.paused);
    assert!(s.exit);
    // Pause after resume in one batch: the last event wins.
    let mut s = state();
    s.apply_events(&vec![DisplayEvent::Resume, DisplayEvent::Pause]);
    assert!(s.paused);
}

#[test]
fn set_texture_only_touches_the_texture_id() {
    let mut s = state();
    let bounds = s.layer.left_bounds;
    s.set_texture(42);
    assert_eq!(s.layer.texture_id, 42);
    assert_eq!(s.layer.left_bounds, bounds);
}

#[test]
fn default_layer_covers_half_the_texture_per_eye() {
    let l = Layer::default();
    assert_eq!(l.texture_id, 0);
    assert_eq!(l.left_bounds, [0, 0, 0.5f32.to_bits(), 1.0f32.to_bits()]);
    assert_eq!(
        l.right_bounds,
        [0.5f32.to_bits(), 0, 0.5f32.to_bits(), 1.0f32.to_bits()]
    );
}

fn controller_moment(axes: Vec<f64>, pose: PoseSample) -> flight::vr::VrMoment {
    state().sync(
        display_data(true, None),
        &frame_data(valid_pose()),
        &frame_math(None),
        vec![gamepad(7, pose, axes)],
    )
}

#[test]
fn tracker_pad_untouched_keeps_prior_values() {
    let mut vc = ViveController::default();
    vc.update(&controller_moment(vec![0.3, -0.2, 0.1], valid_pose()))
        .unwrap();
    assert!(vc.pad_touched);
    assert_eq!(vc.pad, (0.3f64.to_bits(), (-0.2f64).to_bits()));
    // A (0, 0, x) sample means the pad is untouched; the pad values
    // keep their last touched state.
    vc.update(&controller_moment(vec![0.0, 0.0, 0.9], valid_pose()))
        .unwrap();
    assert!(!vc.pad_touched);
    assert_eq!(vc.pad, (0.3f64.to_bits(), (-0.2f64).to_bits()));
    assert_eq!(vc.trigger, 0.9f64.to_bits());
}

#[test]
fn tracker_wrong_arity_errors_and_changes_nothing() {
    let mut vc = ViveController::default();
    vc.update(&controller_moment(vec![0.3, -0.2, 0.1], valid_pose()))
        .unwrap();
    let pose = vc.pose;
    let pad = vc.pad;
    let connected = vc.connected;
    let r = vc.update(&controller_moment(vec![0.3, -0.2], valid_pose()));
    assert!(r.is_err());
    assert_eq!(vc.pose, pose);
    assert_eq!(vc.pad, pad);
    assert_eq!(vc.connected, connected);
    assert!(vc.pad_touched);
}

#[test]
fn tracker_disconnect_resets_inputs_but_keeps_pose() {
    let mut vc = ViveController::default();
    vc.update(&controller_moment(vec![0.3, -0.2, 0.1], valid_pose()))
        .unwrap();
    let pose = vc.pose;
    let no_controllers = state().sync(
        display_data(true, None),
        &frame_data(valid_pose()),
        &frame_math(None),
        vec![],
    );
    vc.update(&no_controllers).unwrap();
    assert!(!vc.connected);
    assert!(!vc.pad_touched);
    assert!(!vc.menu);
    assert!(!vc.grip);
    assert_eq!(vc.trigger, 0);
    assert_eq!(vc.pose, pose);
}

#[test]
fn tracker_buttons_and_trigger_follow_the_sample() {
    let mut vc = ViveController::default();
    vc.update(&controller_moment(vec![0.0, 0.0, 0.25], valid_pose()))
        .unwrap();
    assert!(vc.connected);
    assert_eq!(vc.trigger, 0.25f64.to_bits());
    assert!(!vc.menu);
    assert!(vc.grip);
}

#[test]
fn tracker_pose_delta_reconstructs_the_new_pose() {
    let q0 = UnitQuaternion::from_axis_angle(&Vector3::x_axis(), 0.4);
    let p0 = PoseSample {
        orientation: Some(quat_bits(&q0)),
        position: Some(bits3([1.0, 2.0, 3.0])),
    };
    let q1 = UnitQuaternion::from_axis_angle(&Vector3::y_axis(), -0.9);
    let p1 = PoseSample {
        orientation: Some(quat_bits(&q1)),
        position: Some(bits3([-0.5, 0.25, 2.0])),
    };
    let mut vc = ViveController::default();
    vc.update(&controller_moment(vec![0.0, 0.0, 0.0], p0)).unwrap();
    vc.update(&controller_moment(vec![0.0, 0.0, 0.0], p1)).unwrap();
    let prev = iso_of_pose(&vc.pose_prev);
    let cur = iso_of_pose(&vc.pose);
    // The frame-to-frame delta composed with the previous pose gives
    // back the new pose.
    let delta = cur * prev.inverse();
    let rebuilt = (delta * prev).to_homogeneous();
    let expected = cur.to_homogeneous();
    for i in 0..4 {
        for j in 0..4 {
            assert!((rebuilt[(i, j)] - expected[(i, j)]).abs() < 1e-4);
        }
    }
}

#[test]
fn duplicate_gamepad_ids_keep_the_last_sample() {
    let m = state().sync(
        display_data(true, None),
        &frame_data(valid_pose()),
        &frame_math(None),
        vec![
            gamepad(7, valid_pose(), vec![0.1, 0.0, 0.0]),
            gamepad(7, valid_pose(), vec![0.2, 0.0, 0.0]),
        ],
    );
    assert_eq!(m.controllers().len(), 1);
    let c = m.controller(ControllerRef::Indexed(7)).unwrap();
    assert_eq!(c.axes[0], 0.2f64.to_bits());
}

#[test]
fn default_tracker_is_neutral() {
    let vc = ViveController::default();
    assert_eq!(vc.is, ControllerRef::Primary);
    assert!(!vc.connected);
    assert_eq!(vc.trigger, 0);
    assert_eq!(vc.pad, (0, 0));
    assert!(!vc.pad_touched);
    let iso = iso_of_pose(&vc.pose).to_homogeneous();
    let ident = Matrix4::<f32>::identity();
    for i in 0..4 {
        for j in 0..4 {
            assert!((iso[(i, j)] - ident[(i, j)]).abs() < 1e-6);
        }
    }
}
