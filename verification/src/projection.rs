//! Switching the level camera between orthographic and perspective projection.

use vstd::prelude::*;

verus! {

/// The kind of projection the level camera uses.
#[derive(Clone, Copy, Debug, PartialEq, Eq, Hash, Structural)]
pub enum ProjectionKind {
    Orthographic,
    Perspective,
    /// A projection of another kind; the switch leaves such a camera alone.
    Custom,
}

/// The outcome of one press of the projection switch.
#[derive(Clone, Debug, PartialEq, Eq)]
pub struct ProjectionSwitch {
    /// The new value of the "projection is orthographic" flag.
    pub is_ortho: bool,
    /// The new text of the on-screen projection label.
    pub label: String,
    /// The kind of projection to install on the camera, or `None` to leave it as it is.
    pub camera: Option<ProjectionKind>,
}

/// The text shown for a camera whose flag says `is_ortho`.
pub open spec fn projection_label(is_ortho: bool) -> Seq<char> {
    if is_ortho {
        "Orthographic"@
    } else {
        "Perspective"@
    }
}

/// The projection that replaces `current` on a switch: orthographic and perspective swap,
/// and any other projection is kept.
pub open spec fn switched_projection(current: ProjectionKind) -> Option<ProjectionKind> {
    match current {
        ProjectionKind::Orthographic => Some(ProjectionKind::Perspective),
        ProjectionKind::Perspective => Some(ProjectionKind::Orthographic),
        ProjectionKind::Custom => None,
    }
}

/// The camera's projection after a switch decided `camera` for it.
pub open spec fn projection_after(current: ProjectionKind, camera: Option<ProjectionKind>) -> ProjectionKind {
    match camera {
        Some(k) => k,
        None => current,
    }
}

/// Reacts to the projection key. Nothing happens unless it was just pressed; then the
/// flag flips, the label names the new flag's projection, and the camera's orthographic
/// and perspective projections swap (a custom projection is kept, while the flag and the
/// label still change).
pub fn switch_projection(space_just_pressed: bool, is_ortho: bool, current: ProjectionKind) -> (r: Option<ProjectionSwitch>)
    ensures
        r is Some <==> space_just_pressed,
        r matches Some(s) ==> {
            &&& s.is_ortho == !is_ortho
            &&& s.label@ == projection_label(s.is_ortho)
            &&& s.camera == switched_projection(current)
            &&& s.label@ == (if is_ortho { "Perspective"@ } else { "Orthographic"@ })
            &&& current == ProjectionKind::Orthographic ==> s.camera == Some(ProjectionKind::Perspective)
            &&& current == ProjectionKind::Perspective ==> s.camera == Some(ProjectionKind::Orthographic)
            &&& current == ProjectionKind::Custom ==> s.camera is None
        },
{
    if !space_just_pressed {
        return None;
    }
    let label = if is_ortho {
        "Perspective".to_owned()
    } else {
        "Orthographic".to_owned()
    };
    let camera = match current {
        ProjectionKind::Orthographic => Some(ProjectionKind::Perspective),
        ProjectionKind::Perspective => Some(ProjectionKind::Orthographic),
        ProjectionKind::Custom => None,
    };
    Some(ProjectionSwitch { is_ortho: !is_ortho, label, camera })
}

/// Two presses of the switch restore both the flag and the camera's projection.
pub proof fn lemma_switch_twice_restores(is_ortho: bool, current: ProjectionKind)
    ensures
        !(!is_ortho) == is_ortho,
        projection_after(
            projection_after(current, switched_projection(current)),
            switched_projection(projection_after(current, switched_projection(current))),
        ) == current,
{
}

/// A switch keeps the flag in agreement with the camera: if the flag said whether the
/// camera was orthographic before, it still does after, for orthographic and perspective
/// cameras.
pub proof fn lemma_switch_keeps_flag_in_agreement(is_ortho: bool, current: ProjectionKind)
    requires
        current != ProjectionKind::Custom,
        is_ortho == (current == ProjectionKind::Orthographic),
    ensures
        !is_ortho == (projection_after(current, switched_projection(current)) == ProjectionKind::Orthographic),
{
}

/// A switch names the projection the flag now describes, swaps orthographic and
/// perspective cameras and never installs a custom projection.
pub proof fn lemma_switch_outcome(is_ortho: bool, current: ProjectionKind)
    ensures
        projection_label(!is_ortho) == (if is_ortho { "Perspective"@ } else { "Orthographic"@ }),
        switched_projection(current) != Some(ProjectionKind::Custom),
        switched_projection(current) is None <==> current == ProjectionKind::Custom,
        switched_projection(current) matches Some(k) ==> k != current,
{
}

/// The label always tells the two projections apart.
pub proof fn lemma_labels_differ()
    ensures
        projection_label(true) != projection_label(false),
{
    reveal_strlit("Orthographic");
    reveal_strlit("Perspective");
    assert(projection_label(true)[0] != projection_label(false)[0]);
}

} // verus!
