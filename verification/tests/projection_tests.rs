use isomagic::projection::{switch_projection, ProjectionKind, ProjectionSwitch};

#[test]
fn nothing_happens_without_a_press() {
    assert_eq!(switch_projection(false, true, ProjectionKind::Orthographic), None);
    assert_eq!(switch_projection(false, false, ProjectionKind::Perspective), None);
    assert_eq!(switch_projection(false, false, ProjectionKind::Custom), None);
}

#[test]
fn orthographic_becomes_perspective() {
    let s = switch_projection(true, true, ProjectionKind::Orthographic).unwrap();
    assert_eq!(
        s,
        ProjectionSwitch {
            is_ortho: false,
            label: "Perspective".to_string(),
            camera: Some(ProjectionKind::Perspective),
        }
    );
}

#[test]
fn perspective_becomes_orthographic() {
    let s = switch_projection(true, false, ProjectionKind::Perspective).unwrap();
    assert_eq!(s.is_ortho, true);
    assert_eq!(s.label, "Orthographic");
    assert_eq!(s.camera, Some(ProjectionKind::Orthographic));
}

#[test]
fn custom_projection_is_kept_but_flag_and_label_change() {
    let s = switch_projection(true, false, ProjectionKind::Custom).unwrap();
    assert_eq!(s.is_ortho, true);
    assert_eq!(s.label, "Orthographic");
    assert_eq!(s.camera, None);
}

fn apply(is_ortho: bool, kind: ProjectionKind) -> (bool, ProjectionKind) {
    let s = switch_projection(true, is_ortho, kind).unwrap();
    (s.is_ortho, s.camera.unwrap_or(kind))
}

#[test]
fn two_presses_restore_camera_and_flag() {
    for (flag, kind) in [
        (true, ProjectionKind::Orthographic),
        (false, ProjectionKind::Perspective),
        (false, ProjectionKind::Custom),
        (true, ProjectionKind::Perspective),
    ] {
        let (f1, k1) = apply(flag, kind);
        assert_eq!(apply(f1, k1), (flag, kind));
    }
}

#[test]
fn flag_keeps_agreeing_with_camera() {
    let mut flag = true;
    let mut kind = ProjectionKind::Orthographic;
    for _ in 0..5 {
        let (f, k) = apply(flag, kind);
        flag = f;
        kind = k;
        assert_eq!(flag, kind == ProjectionKind::Orthographic);
    }
}

#[test]
fn label_names_the_new_flag() {
    for flag in [true, false] {
        for kind in [ProjectionKind::Orthographic, ProjectionKind::Perspective, ProjectionKind::Custom] {
            let s = switch_projection(true, flag, kind).unwrap();
            let expected = if s.is_ortho { "Orthographic" } else { "Perspective" };
            assert_eq!(s.label, expected);
        }
    }
}
