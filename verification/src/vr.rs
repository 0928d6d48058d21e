//! Per-frame VR device synchronization: immutable `VrMoment` snapshots of
//! headset and controller state, role-based controller references, and a
//! stateful per-controller input tracker.
//!
//! The device transport is a collaborator, not part of this crate: a
//! device-facing caller polls the hardware, turns the samples into the
//! plain-value types below (scalar data as IEEE-754 bit words), computes
//! the few derived matrices the snapshot needs (stage inverse, eye
//! positions), and hands everything to [`VrState::sync`]. Every decision
//! made from those samples — event folding, pose validity, role
//! assignment, controller bookkeeping — is verified here.

use vstd::prelude::*;

use crate::draw::{EyeContext, Rect};

verus! {

/// Bit pattern of `1.0` as a 32-bit scalar.
pub const ONE_F32_BITS: u32 = 0x3F80_0000;

/// Bit pattern of `0.5` as a 32-bit scalar.
pub const HALF_F32_BITS: u32 = 0x3F00_0000;

/// Bit pattern of `-0.5` as a 32-bit scalar.
pub const NEG_HALF_F32_BITS: u32 = 0xBF00_0000;

/// All bits of a 64-bit scalar except the sign.
pub const F64_MAGNITUDE_MASK: u64 = 0x7FFF_FFFF_FFFF_FFFF;

/// Whether a 64-bit scalar bit pattern compares equal to zero: exactly
/// the two signed zeros. Any other pattern (a nonzero number, or a NaN,
/// which compares unequal to everything) does not.
pub open spec fn f64_bits_zero(b: u64) -> bool {
    b & F64_MAGNITUDE_MASK == 0
}

/// A raw pose sample as the device reports it: an orientation quaternion
/// (device order `[x, y, z, w]`) and a position, each optional, carried
/// as 32-bit scalar bit words.
#[derive(Clone, Copy)]
pub struct PoseSample {
    pub orientation: Option<[u32; 4]>,
    pub position: Option<[u32; 3]>,
}

/// A validated 6-DOF pose: orientation quaternion and position, as
/// 32-bit scalar bit words.
#[derive(Clone, Copy, Debug, PartialEq, Eq)]
pub struct Pose {
    pub orientation: [u32; 4],
    pub position: [u32; 3],
}

/// The identity pose: zero rotation, zero translation.
pub open spec fn is_identity_pose(p: Pose) -> bool {
    &&& p.orientation@ == seq![0u32, 0u32, 0u32, ONE_F32_BITS]
    &&& p.position@ == seq![0u32, 0u32, 0u32]
}

/// A pose sample yields a pose exactly when both its orientation and its
/// position are present; the pose carries them through unchanged.
pub fn pose_transform(s: &PoseSample) -> (r: Option<Pose>)
    ensures
        r is Some <==> (s.orientation is Some && s.position is Some),
        r is Some ==> r->Some_0.orientation == s.orientation->Some_0 && r->Some_0.position
            == s.position->Some_0,
{
    match (s.orientation, s.position) {
        (Some(o), Some(p)) => Some(Pose { orientation: o, position: p }),
        _ => None,
    }
}

/// One button's sampled state.
#[derive(Clone, Copy, Debug, PartialEq, Eq, Structural)]
pub struct ControllerButton {
    pub pressed: bool,
    pub touched: bool,
}

/// One connected controller in a moment: its reported name, validated
/// pose, axis samples (64-bit scalar bit words) and button states.
pub struct Controller {
    pub name: String,
    pub pose: Pose,
    pub axes: Vec<u64>,
    pub buttons: Vec<ControllerButton>,
}

/// Anything with a 6-DOF pose. Derived directions (the pose's local
/// axes, the forward vector, the world origin) are scalar arithmetic on
/// the pose and are left to the device-facing caller's math layer.
pub trait Trackable {
    /// The pose this entity is at.
    spec fn tracked_pose(&self) -> Pose;

    /// The pose this entity is at.
    fn pose(&self) -> (r: Pose)
        ensures
            r == self.tracked_pose(),
    ;
}

/// The headset in one moment: name, render size, pose, and the two eye
/// contexts the renderer draws with.
pub struct Hmd {
    pub name: String,
    pub size: (u32, u32),
    pub pose: Pose,
    pub left: EyeContext,
    pub right: EyeContext,
}

impl Trackable for Hmd {
    open spec fn tracked_pose(&self) -> Pose {
        self.pose
    }

    fn pose(&self) -> (r: Pose) {
        self.pose
    }
}

impl Trackable for Controller {
    open spec fn tracked_pose(&self) -> Pose {
        self.pose
    }

    fn pose(&self) -> (r: Pose) {
        self.pose
    }
}

/// The presentation layer handed back to the device on submit: the
/// texture to present and per-eye UV bounds (32-bit scalar bit words).
#[derive(Clone, Copy)]
pub struct Layer {
    pub texture_id: u32,
    pub left_bounds: [u32; 4],
    pub right_bounds: [u32; 4],
    pub texture_size: Option<(u32, u32)>,
}

impl Default for Layer {
    /// Texture zero, each eye bound to its half of the texture.
    fn default() -> (r: Layer)
        ensures
            r.texture_id == 0,
            r.left_bounds@ == seq![0u32, 0u32, HALF_F32_BITS, ONE_F32_BITS],
            r.right_bounds@ == seq![HALF_F32_BITS, 0u32, HALF_F32_BITS, ONE_F32_BITS],
            r.texture_size is None,
    {
        let l: [u32; 4] = [0, 0, HALF_F32_BITS, ONE_F32_BITS];
        let rb: [u32; 4] = [HALF_F32_BITS, 0, HALF_F32_BITS, ONE_F32_BITS];
        proof {
            assert(l@ =~= seq![0u32, 0u32, HALF_F32_BITS, ONE_F32_BITS]);
            assert(rb@ =~= seq![HALF_F32_BITS, 0u32, HALF_F32_BITS, ONE_F32_BITS]);
        }
        Layer { texture_id: 0, left_bounds: l, right_bounds: rb, texture_size: None }
    }
}

/// The stage-to-world transform of a moment: the inverse of the reported
/// sitting-to-standing transform (16 scalar bit words, column-major), or
/// the identity when none was reported or the inversion failed.
#[derive(Clone, Copy)]
pub enum StageTransform {
    Identity,
    Inverse([u32; 16]),
}

/// A discrete lifecycle event polled from the device. Pause, resume and
/// exit are the recognized kinds; everything else is `Other` and ignored.
#[derive(Clone, Copy, Debug, PartialEq, Eq, Structural)]
pub enum DisplayEvent {
    Pause,
    Resume,
    Exit,
    Other,
}

/// One lifecycle event folded into the (paused, exit) flags.
pub open spec fn step_flags(p: bool, e: bool, ev: DisplayEvent) -> (bool, bool) {
    match ev {
        DisplayEvent::Pause => (true, e),
        DisplayEvent::Resume => (false, e),
        DisplayEvent::Exit => (p, true),
        DisplayEvent::Other => (p, e),
    }
}

/// The (paused, exit) flags after folding a sequence of events in order.
pub open spec fn fold_flags(p: bool, e: bool, s: Seq<DisplayEvent>) -> (bool, bool)
    decreases s.len(),
{
    if s.len() == 0 {
        (p, e)
    } else {
        let prev = fold_flags(p, e, s.drop_last());
        step_flags(prev.0, prev.1, s.last())
    }
}

/// Per-eye render parameters as the device reports them.
#[derive(Clone, Copy, Debug, PartialEq, Eq, Structural)]
pub struct EyeParameters {
    pub render_width: u32,
    pub render_height: u32,
}

/// Display-wide data as the device reports it: identity, connection
/// state, per-eye render sizes and the optional sitting-to-standing
/// stage transform (16 scalar bit words).
pub struct DisplayData {
    pub display_name: String,
    pub connected: bool,
    pub left_eye: EyeParameters,
    pub right_eye: EyeParameters,
    pub stage_parameters: Option<[u32; 16]>,
}

/// One frame's pose data: the headset pose sample and per-eye view and
/// projection matrices (16 scalar bit words each).
#[derive(Clone, Copy)]
pub struct FrameData {
    pub pose: PoseSample,
    pub left_view: [u32; 16],
    pub right_view: [u32; 16],
    pub left_projection: [u32; 16],
    pub right_projection: [u32; 16],
}

/// The scalar results a moment needs from the caller's math layer: the
/// inverted stage transform (`None` when absent or singular) and each
/// eye's world position, the inverse view matrix applied to the origin.
#[derive(Clone, Copy)]
pub struct FrameMath {
    pub stage_inverse: Option<[u32; 16]>,
    pub left_eye: [u32; 3],
    pub right_eye: [u32; 3],
}

/// One gamepad as enumerated by the device this frame.
pub struct GamepadSample {
    pub id: u32,
    pub name: String,
    pub pose: PoseSample,
    pub axes: Vec<u64>,
    pub buttons: Vec<ControllerButton>,
}

/// The total render size for a display: eye widths side by side, the
/// larger of the eye heights.
pub fn size_from_data(data: &DisplayData) -> (r: (u32, u32))
    requires
        data.left_eye.render_width + data.right_eye.render_width <= u32::MAX,
    ensures
        r.0 == data.left_eye.render_width + data.right_eye.render_width,
        r.1 == if data.left_eye.render_height >= data.right_eye.render_height {
            data.left_eye.render_height
        } else {
            data.right_eye.render_height
        },
{
    let w = data.left_eye.render_width + data.right_eye.render_width;
    let h = if data.left_eye.render_height >= data.right_eye.render_height {
        data.left_eye.render_height
    } else {
        data.right_eye.render_height
    };
    (w, h)
}

/// The first controller entry whose id matches, if any.
pub open spec fn lookup(s: Seq<(u32, Controller)>, id: u32) -> Option<Controller>
    decreases s.len(),
{
    if s.len() == 0 {
        None
    } else if s[0].0 == id {
        Some(s[0].1)
    } else {
        lookup(s.drop_first(), id)
    }
}

/// Insert a controller under an id: replaces the entry holding the id,
/// or appends when the id is new.
pub open spec fn assoc_insert(s: Seq<(u32, Controller)>, id: u32, c: Controller) -> Seq<
    (u32, Controller),
>
    decreases s.len(),
{
    if s.len() == 0 {
        seq![(id, c)]
    } else if s[0].0 == id {
        seq![(id, c)].add(s.drop_first())
    } else {
        seq![s[0]].add(assoc_insert(s.drop_first(), id, c))
    }
}

/// The controller of a gamepad sample with a valid pose.
pub open spec fn controller_of(gp: GamepadSample) -> Controller {
    Controller {
        name: gp.name,
        pose: Pose {
            orientation: gp.pose.orientation->Some_0,
            position: gp.pose.position->Some_0,
        },
        axes: gp.axes,
        buttons: gp.buttons,
    }
}

/// Whether a gamepad sample carries a complete pose.
pub open spec fn gamepad_pose_valid(gp: GamepadSample) -> bool {
    gp.pose.orientation is Some && gp.pose.position is Some
}

/// The controller entries a moment holds for an enumeration of gamepads:
/// each sample with a complete pose, keyed by id in enumeration order,
/// later samples replacing earlier ones with the same id. Samples
/// lacking orientation or position are silently omitted.
pub open spec fn cont_of(s: Seq<GamepadSample>) -> Seq<(u32, Controller)>
    decreases s.len(),
{
    if s.len() == 0 {
        Seq::empty()
    } else {
        let rest = cont_of(s.drop_last());
        if gamepad_pose_valid(s.last()) {
            assoc_insert(rest, s.last().id, controller_of(s.last()))
        } else {
            rest
        }
    }
}

proof fn lemma_assoc_insert_replace(s: Seq<(u32, Controller)>, id: u32, c: Controller, k: int)
    requires
        0 <= k < s.len(),
        s[k].0 == id,
        forall|j: int| 0 <= j < k ==> s[j].0 != id,
    ensures
        assoc_insert(s, id, c) == s.update(k, (id, c)),
    decreases k,
{
    if k == 0 {
        assert(assoc_insert(s, id, c) =~= s.update(0, (id, c)));
    } else {
        assert(s.drop_first()[k - 1].0 == id);
        assert forall|j: int| 0 <= j < k - 1 implies s.drop_first()[j].0 != id by {
            assert(s.drop_first()[j] == s[j + 1]);
        }
        lemma_assoc_insert_replace(s.drop_first(), id, c, k - 1);
        assert(seq![s[0]].add(s.drop_first().update(k - 1, (id, c))) =~= s.update(k, (id, c)));
    }
}

proof fn lemma_assoc_insert_append(s: Seq<(u32, Controller)>, id: u32, c: Controller)
    requires
        forall|j: int| 0 <= j < s.len() ==> s[j].0 != id,
    ensures
        assoc_insert(s, id, c) == s.push((id, c)),
    decreases s.len(),
{
    if s.len() == 0 {
        assert(assoc_insert(s, id, c) =~= s.push((id, c)));
    } else {
        assert forall|j: int| 0 <= j < s.drop_first().len() implies s.drop_first()[j].0 != id by {
            assert(s.drop_first()[j] == s[j + 1]);
        }
        lemma_assoc_insert_append(s.drop_first(), id, c);
        assert(seq![s[0]].add(s.drop_first().push((id, c))) =~= s.push((id, c)));
    }
}

proof fn lemma_lookup_at(s: Seq<(u32, Controller)>, id: u32, k: int)
    requires
        0 <= k < s.len(),
        s[k].0 == id,
        forall|j: int| 0 <= j < k ==> s[j].0 != id,
    ensures
        lookup(s, id) == Some(s[k].1),
    decreases k,
{
    if k > 0 {
        assert(s.drop_first()[k - 1].0 == id);
        assert forall|j: int| 0 <= j < k - 1 implies s.drop_first()[j].0 != id by {
            assert(s.drop_first()[j] == s[j + 1]);
        }
        lemma_lookup_at(s.drop_first(), id, k - 1);
        assert(s.drop_first()[k - 1] == s[k]);
    }
}

proof fn lemma_lookup_none(s: Seq<(u32, Controller)>, id: u32)
    requires
        forall|j: int| 0 <= j < s.len() ==> s[j].0 != id,
    ensures
        lookup(s, id) is None,
    decreases s.len(),
{
    if s.len() > 0 {
        assert forall|j: int| 0 <= j < s.drop_first().len() implies s.drop_first()[j].0 != id by {
            assert(s.drop_first()[j] == s[j + 1]);
        }
        lemma_lookup_none(s.drop_first(), id);
    }
}

/// A reference to a controller, either by its current role in a moment
/// (resolved anew against every moment) or by fixed device id.
#[derive(Clone, Copy, Debug, PartialEq, Eq, Structural)]
pub enum ControllerRef {
    Primary,
    Secondary,
    Tertiary,
    Indexed(u32),
}

/// A reference to the primary controller.
pub fn primary() -> (r: ControllerRef)
    ensures
        r == ControllerRef::Primary,
{
    ControllerRef::Primary
}

/// A reference to the secondary controller.
pub fn secondary() -> (r: ControllerRef)
    ensures
        r == ControllerRef::Secondary,
{
    ControllerRef::Secondary
}

/// A reference to the tertiary controller.
pub fn tertiary() -> (r: ControllerRef)
    ensures
        r == ControllerRef::Tertiary,
{
    ControllerRef::Tertiary
}

/// An immutable snapshot of one frame of VR state: the connected
/// controllers keyed by device id, the headset if it reported a valid
/// pose, the first three enumerated controller ids as the frame's
/// primary, secondary and tertiary roles, the presentation layer, the
/// stage transform, and the lifecycle flags.
pub struct VrMoment {
    pub cont: Vec<(u32, Controller)>,
    pub hmd: Option<Hmd>,
    pub primary: Option<u32>,
    pub secondary: Option<u32>,
    pub tertiary: Option<u32>,
    pub layer: Layer,
    pub stage: StageTransform,
    pub exit: bool,
    pub paused: bool,
}

impl VrMoment {
    /// The controller entries of this moment, in enumeration order.
    pub open spec fn cont_seq(&self) -> Seq<(u32, Controller)> {
        self.cont@
    }

    /// The headset snapshot, if one was included.
    pub open spec fn spec_hmd(&self) -> Option<Hmd> {
        self.hmd
    }

    /// The id the primary role resolves to this frame.
    pub open spec fn spec_primary(&self) -> Option<u32> {
        self.primary
    }

    /// The id the secondary role resolves to this frame.
    pub open spec fn spec_secondary(&self) -> Option<u32> {
        self.secondary
    }

    /// The id the tertiary role resolves to this frame.
    pub open spec fn spec_tertiary(&self) -> Option<u32> {
        self.tertiary
    }

    /// The presentation layer captured for this frame.
    pub open spec fn spec_layer(&self) -> Layer {
        self.layer
    }

    /// The controller a reference resolves to in this moment.
    pub open spec fn spec_controller(&self, role: ControllerRef) -> Option<Controller> {
        match role.spec_index(*self) {
            Some(id) => lookup(self.cont_seq(), id),
            None => None,
        }
    }

    /// Look up the controller a reference resolves to in this moment:
    /// the role's id for this frame, if it is assigned and a controller
    /// with that id is connected.
    pub fn controller(&self, role: ControllerRef) -> (r: Option<&Controller>)
        ensures
            r is Some <==> self.spec_controller(role) is Some,
            r is Some ==> *r->Some_0 == self.spec_controller(role)->Some_0,
    {
        let id = match role.index(self) {
            Some(id) => id,
            None => {
                return None;
            },
        };
        let n = self.cont.len();
        let mut k: usize = 0;
        while k < n
            invariant
                k <= n,
                n == self.cont@.len(),
                role.spec_index(*self) == Some(id),
                forall|j: int| 0 <= j < k ==> self.cont@[j].0 != id,
            decreases n - k,
        {
            if self.cont[k].0 == id {
                proof {
                    lemma_lookup_at(self.cont@, id, k as int);
                }
                return Some(&self.cont[k].1);
            }
            k += 1;
        }
        proof {
            lemma_lookup_none(self.cont@, id);
        }
        None
    }

    /// The connected controllers of this moment, each with its id, in
    /// enumeration order.
    pub fn controllers(&self) -> (r: &Vec<(u32, Controller)>)
        ensures
            r@ == self.cont_seq(),
    {
        &self.cont
    }

    /// The headset, if it was connected with a valid pose this frame.
    pub fn hmd(&self) -> (r: Option<&Hmd>)
        ensures
            r is Some <==> self.spec_hmd() is Some,
            r is Some ==> *r->Some_0 == self.spec_hmd()->Some_0,
    {
        self.hmd.as_ref()
    }

    /// The presentation layer to hand back to the device; consuming the
    /// moment and submitting the layer is the device-facing caller's
    /// last step of a frame.
    pub fn layer(&self) -> (r: &Layer)
        ensures
            *r == self.spec_layer(),
    {
        &self.layer
    }
}

impl ControllerRef {
    /// The id this reference resolves to in a moment: role references
    /// read the moment's role assignment, an indexed reference is its
    /// own id.
    pub open spec fn spec_index(&self, moment: VrMoment) -> Option<u32> {
        match *self {
            ControllerRef::Primary => moment.spec_primary(),
            ControllerRef::Secondary => moment.spec_secondary(),
            ControllerRef::Tertiary => moment.spec_tertiary(),
            ControllerRef::Indexed(i) => Some(i),
        }
    }

    fn index(&self, moment: &VrMoment) -> (r: Option<u32>)
        ensures
            r == self.spec_index(*moment),
    {
        match *self {
            ControllerRef::Primary => moment.primary,
            ControllerRef::Secondary => moment.secondary,
            ControllerRef::Tertiary => moment.tertiary,
            ControllerRef::Indexed(i) => Some(i),
        }
    }

    /// Make this always reference the current controller (will not
    /// change when controller roles are reassigned): if the reference
    /// resolves to an id in the given moment, an indexed reference to
    /// that id; otherwise the reference itself, unchanged.
    pub fn fixed(&self, moment: &VrMoment) -> (r: ControllerRef)
        ensures
            self.spec_index(*moment) is Some ==> r == ControllerRef::Indexed(
                self.spec_index(*moment)->Some_0,
            ),
            self.spec_index(*moment) is None ==> r == *self,
    {
        match self.index(moment) {
            Some(i) => ControllerRef::Indexed(i),
            None => *self,
        }
    }
}

/// Insert a controller entry, replacing the entry with the same id or
/// appending when the id is new.
fn moment_insert(v: &mut Vec<(u32, Controller)>, id: u32, c: Controller)
    ensures
        final(v)@ == assoc_insert(old(v)@, id, c),
{
    let ghost pre = v@;
    let ghost cg = c;
    let n = v.len();
    let mut k: usize = 0;
    while k < n
        invariant
            k <= n,
            n == v@.len(),
            v@ == pre,
            pre == old(v)@,
            cg == c,
            forall|j: int| 0 <= j < k ==> v@[j].0 != id,
        decreases n - k,
    {
        if v[k].0 == id {
            proof {
                lemma_assoc_insert_replace(pre, id, cg, k as int);
            }
            v.remove(k);
            v.insert(k, (id, c));
            proof {
                assert(v@ =~= pre.update(k as int, (id, cg)));
            }
            return ;
        }
        k += 1;
    }
    proof {
        lemma_assoc_insert_append(pre, id, cg);
    }
    v.push((id, c));
}

/// The crate's share of the VR context: the presentation layer and the
/// lifecycle flags, plus the assembly of each frame's moment from the
/// device's samples. The device handles themselves, and the near and far
/// clip distances the device is polled with, live with the caller.
pub struct VrState {
    pub layer: Layer,
    pub exit: bool,
    pub paused: bool,
}

impl Default for VrState {
    /// The default presentation layer, neither paused nor exiting.
    fn default() -> (r: VrState)
        ensures
            r.layer.texture_id == 0,
            r.layer.left_bounds@ == seq![0u32, 0u32, HALF_F32_BITS, ONE_F32_BITS],
            r.layer.right_bounds@ == seq![HALF_F32_BITS, 0u32, HALF_F32_BITS, ONE_F32_BITS],
            r.layer.texture_size is None,
            !r.exit,
            !r.paused,
    {
        VrState { layer: Layer::default(), exit: false, paused: false }
    }
}

impl VrState {
    /// Attach the texture that frames will be presented from.
    pub fn set_texture(&mut self, texture_id: u32)
        ensures
            final(self).layer.texture_id == texture_id,
            final(self).layer.left_bounds == old(self).layer.left_bounds,
            final(self).layer.right_bounds == old(self).layer.right_bounds,
            final(self).layer.texture_size == old(self).layer.texture_size,
            final(self).exit == old(self).exit,
            final(self).paused == old(self).paused,
    {
        self.layer.texture_id = texture_id;
    }

    /// Fold the lifecycle events drained from the device this frame into
    /// the paused and exit flags, in order: pause and resume toggle
    /// `paused`, exit latches `exit`, anything else is ignored.
    pub fn apply_events(&mut self, events: &Vec<DisplayEvent>)
        ensures
            (final(self).paused, final(self).exit) == fold_flags(
                old(self).paused,
                old(self).exit,
                events@,
            ),
            final(self).layer == old(self).layer,
    {
        let n = events.len();
        let mut i: usize = 0;
        while i < n
            invariant
                i <= n,
                n == events@.len(),
                self.layer == old(self).layer,
                (self.paused, self.exit) == fold_flags(
                    old(self).paused,
                    old(self).exit,
                    events@.take(i as int),
                ),
            decreases n - i,
        {
            proof {
                assert(events@.take(i as int + 1).drop_last() =~= events@.take(i as int));
                assert(events@.take(i as int + 1).last() == events@[i as int]);
            }
            match events[i] {
                DisplayEvent::Pause => {
                    self.paused = true;
                },
                DisplayEvent::Resume => {
                    self.paused = false;
                },
                DisplayEvent::Exit => {
                    self.exit = true;
                },
                DisplayEvent::Other => {},
            }
            i += 1;
        }
        proof {
            assert(events@.take(n as int) =~= events@);
        }
    }

    /// Assemble one frame's immutable snapshot from the device's
    /// samples and the caller's derived matrices. The headset is
    /// included exactly when the device reports connected and a
    /// complete pose; the first three enumerated gamepads become the
    /// primary, secondary and tertiary roles whether or not their poses
    /// are complete; each gamepad with a complete pose becomes a
    /// controller entry; the stage transform falls back to the identity
    /// when no stage parameters are reported or inversion failed.
    pub fn sync(
        &self,
        data: DisplayData,
        frame: &FrameData,
        math: &FrameMath,
        gamepads: Vec<GamepadSample>,
    ) -> (m: VrMoment)
        requires
            data.left_eye.render_width + data.right_eye.render_width <= u32::MAX,
        ensures
            m.exit == self.exit,
            m.paused == self.paused,
            m.spec_layer() == self.layer,
            m.spec_primary() == if gamepads@.len() >= 1 {
                Some(gamepads@[0].id)
            } else {
                None::<u32>
            },
            m.spec_secondary() == if gamepads@.len() >= 2 {
                Some(gamepads@[1].id)
            } else {
                None::<u32>
            },
            m.spec_tertiary() == if gamepads@.len() >= 3 {
                Some(gamepads@[2].id)
            } else {
                None::<u32>
            },
            m.cont_seq() == cont_of(gamepads@),
            m.spec_hmd() is Some <==> (data.connected && frame.pose.orientation is Some
                && frame.pose.position is Some),
            m.spec_hmd() is Some ==> ({
                let h = m.spec_hmd()->Some_0;
                let height = if data.left_eye.render_height >= data.right_eye.render_height {
                    data.left_eye.render_height
                } else {
                    data.right_eye.render_height
                };
                &&& h.name == data.display_name
                &&& h.size.0 == data.left_eye.render_width + data.right_eye.render_width
                &&& h.size.1 == height
                &&& h.pose.orientation == frame.pose.orientation->Some_0
                &&& h.pose.position == frame.pose.position->Some_0
                &&& h.left.eye == math.left_eye
                &&& h.left.view == frame.left_view
                &&& h.left.proj == frame.left_projection
                &&& h.left.clip_offset == NEG_HALF_F32_BITS
                &&& h.left.clip == (Rect {
                    x: 0u16,
                    y: 0u16,
                    w: data.left_eye.render_width as u16,
                    h: height as u16,
                })
                &&& h.right.eye == math.right_eye
                &&& h.right.view == frame.right_view
                &&& h.right.proj == frame.right_projection
                &&& h.right.clip_offset == HALF_F32_BITS
                &&& h.right.clip == (Rect {
                    x: data.left_eye.render_width as u16,
                    y: 0u16,
                    w: data.right_eye.render_width as u16,
                    h: height as u16,
                })
            }),
            m.stage == (match data.stage_parameters {
                Some(_) => match math.stage_inverse {
                    Some(ws) => StageTransform::Inverse(ws),
                    None => StageTransform::Identity,
                },
                None => StageTransform::Identity,
            }),
    {
        let (w, h) = size_from_data(&data);
        let stage = match data.stage_parameters {
            Some(_) => match math.stage_inverse {
                Some(ws) => StageTransform::Inverse(ws),
                None => StageTransform::Identity,
            },
            None => StageTransform::Identity,
        };
        let pose_opt = pose_transform(&frame.pose);
        let hmd = if data.connected {
            match pose_opt {
                Some(pose) => Some(
                    Hmd {
                        name: data.display_name,
                        size: (w, h),
                        pose,
                        left: EyeContext {
                            eye: math.left_eye,
                            view: frame.left_view,
                            proj: frame.left_projection,
                            clip_offset: NEG_HALF_F32_BITS,
                            clip: Rect {
                                x: 0,
                                y: 0,
                                w: #[verifier::truncate] (data.left_eye.render_width as u16),
                                h: #[verifier::truncate] (h as u16),
                            },
                        },
                        right: EyeContext {
                            eye: math.right_eye,
                            view: frame.right_view,
                            proj: frame.right_projection,
                            clip_offset: HALF_F32_BITS,
                            clip: Rect {
                                x: #[verifier::truncate] (data.left_eye.render_width as u16),
                                y: 0,
                                w: #[verifier::truncate] (data.right_eye.render_width as u16),
                                h: #[verifier::truncate] (h as u16),
                            },
                        },
                    },
                ),
                None => None,
            }
        } else {
            None
        };
        let primary = if gamepads.len() >= 1 {
            Some(gamepads[0].id)
        } else {
            None
        };
        let secondary = if gamepads.len() >= 2 {
            Some(gamepads[1].id)
        } else {
            None
        };
        let tertiary = if gamepads.len() >= 3 {
            Some(gamepads[2].id)
        } else {
            None
        };
        let ghost gs = gamepads@;
        let total = gamepads.len();
        let mut rest = gamepads;
        let mut cont: Vec<(u32, Controller)> = Vec::new();
        let mut i: usize = 0;
        while rest.len() > 0
            invariant
                i <= total,
                gs.len() == total as nat,
                rest@ == gs.skip(i as int),
                cont@ == cont_of(gs.take(i as int)),
            decreases rest@.len(),
        {
            proof {
                assert(rest@.len() == gs.len() - i as int);
            }
            let gp = rest.remove(0);
            proof {
                assert(gp == gs[i as int]);
                assert(gs.take(i as int + 1).drop_last() =~= gs.take(i as int));
                assert(gs.take(i as int + 1).last() == gs[i as int]);
            }
            let id = gp.id;
            match (gp.pose.orientation, gp.pose.position) {
                (Some(o), Some(p)) => {
                    let c = Controller {
                        name: gp.name,
                        pose: Pose { orientation: o, position: p },
                        axes: gp.axes,
                        buttons: gp.buttons,
                    };
                    proof {
                        assert(c == controller_of(gs[i as int]));
                    }
                    moment_insert(&mut cont, id, c);
                },
                _ => {
                    proof {
                        assert(!gamepad_pose_valid(gs[i as int]));
                    }
                },
            }
            i += 1;
            proof {
                assert(rest@ =~= gs.skip(i as int));
            }
        }
        proof {
            assert(i == gs.len());
            assert(gs.take(i as int) =~= gs);
        }
        VrMoment {
            cont,
            hmd,
            primary,
            secondary,
            tertiary,
            layer: self.layer,
            stage,
            exit: self.exit,
            paused: self.paused,
        }
    }
}

/// A structure for tracking the state of a hand controller — touchpad,
/// trigger, menu and grip buttons, 6-DOF pose — across frames.
///
/// `pose_prev` keeps the pose the tracker held before the latest
/// connected update, so the frame-to-frame pose delta is the
/// composition of the new pose with the inverse of `pose_prev`; `pad`
/// and `pad_prev` likewise keep the last two touched pad samples, so
/// the pad delta is their componentwise difference. Both compositions
/// are scalar arithmetic on bit words, left to the caller's math layer.
pub struct ViveController {
    /// Which controller is connected to this state object.
    pub is: ControllerRef,
    pub connected: bool,
    /// The controller's pose as of the latest update that saw it.
    pub pose: Pose,
    /// The pose held before the latest update that saw the controller.
    pub pose_prev: Pose,
    /// Trigger amount, a 64-bit scalar bit word.
    pub trigger: u64,
    /// Touchpad position `(x, y)` of the last touched sample, 64-bit
    /// scalar bit words.
    pub pad: (u64, u64),
    /// Touchpad position held before the last touched sample.
    pub pad_prev: (u64, u64),
    pub pad_touched: bool,
    pub menu: bool,
    pub grip: bool,
}

impl Default for ViveController {
    /// Follows the primary role; disconnected, at the identity pose,
    /// with everything released and centered.
    fn default() -> (r: ViveController)
        ensures
            r.is == ControllerRef::Primary,
            !r.connected,
            is_identity_pose(r.pose),
            is_identity_pose(r.pose_prev),
            r.trigger == 0,
            r.pad == (0u64, 0u64),
            r.pad_prev == (0u64, 0u64),
            !r.pad_touched,
            !r.menu,
            !r.grip,
    {
        let orientation: [u32; 4] = [0, 0, 0, ONE_F32_BITS];
        let position: [u32; 3] = [0, 0, 0];
        proof {
            assert(orientation@ =~= seq![0u32, 0u32, 0u32, ONE_F32_BITS]);
            assert(position@ =~= seq![0u32, 0u32, 0u32]);
        }
        let p = Pose { orientation, position };
        ViveController {
            is: ControllerRef::Primary,
            connected: false,
            pose: p,
            pose_prev: p,
            trigger: 0,
            pad: (0, 0),
            pad_prev: (0, 0),
            pad_touched: false,
            menu: false,
            grip: false,
        }
    }
}

impl ViveController {
    /// Fold one moment into the tracker. If the bound reference
    /// resolves to no controller, the tracker resets to a disconnected,
    /// released state, keeping its poses and pad values, and succeeds.
    /// If the controller is present but does not have exactly 3 axes
    /// and 2 buttons, the call fails and changes nothing. Otherwise the
    /// poses advance; a pad sample of exactly (0, 0) means untouched
    /// and leaves both pad values as they were; any other sample
    /// advances them; the trigger is axis 2 and the menu and grip flags
    /// are the two buttons' pressed states.
    pub fn update(&mut self, mom: &VrMoment) -> (r: Result<(), ()>)
        ensures
            final(self).is == old(self).is,
            mom.spec_controller(old(self).is) is None ==> ({
                &&& r is Ok
                &&& !final(self).connected
                &&& !final(self).pad_touched
                &&& !final(self).menu
                &&& !final(self).grip
                &&& final(self).trigger == 0
                &&& final(self).pose == old(self).pose
                &&& final(self).pose_prev == old(self).pose_prev
                &&& final(self).pad == old(self).pad
                &&& final(self).pad_prev == old(self).pad_prev
            }),
            ({
                let co = mom.spec_controller(old(self).is);
                co is Some && (co->Some_0.axes@.len() != 3 || co->Some_0.buttons@.len() != 2)
            }) ==> (r is Err && *final(self) == *old(self)),
            ({
                let co = mom.spec_controller(old(self).is);
                co is Some && co->Some_0.axes@.len() == 3 && co->Some_0.buttons@.len() == 2
            }) ==> ({
                let c = mom.spec_controller(old(self).is)->Some_0;
                let pad_zero = f64_bits_zero(c.axes@[0]) && f64_bits_zero(c.axes@[1]);
                &&& r is Ok
                &&& final(self).connected
                &&& final(self).pose == c.pose
                &&& final(self).pose_prev == old(self).pose
                &&& final(self).trigger == c.axes@[2]
                &&& final(self).menu == c.buttons@[0].pressed
                &&& final(self).grip == c.buttons@[1].pressed
                &&& (pad_zero ==> !final(self).pad_touched && final(self).pad == old(self).pad
                    && final(self).pad_prev == old(self).pad_prev)
                &&& (!pad_zero ==> final(self).pad_touched && final(self).pad == (
                c.axes@[0],
                c.axes@[1],
                ) && final(self).pad_prev == old(self).pad)
            }),
    {
        match mom.controller(self.is) {
            Some(cont) => {
                if cont.axes.len() != 3 || cont.buttons.len() != 2 {
                    return Err(());
                }
                self.connected = true;
                self.pose_prev = self.pose;
                self.pose = cont.pose;
                let x = cont.axes[0];
                let y = cont.axes[1];
                if (x & F64_MAGNITUDE_MASK) != 0 || (y & F64_MAGNITUDE_MASK) != 0 {
                    self.pad_prev = self.pad;
                    self.pad = (x, y);
                    self.pad_touched = true;
                } else {
                    self.pad_touched = false;
                }
                self.trigger = cont.axes[2];
                self.menu = cont.buttons[0].pressed;
                self.grip = cont.buttons[1].pressed;
                Ok(())
            },
            None => {
                self.pad_touched = false;
                self.menu = false;
                self.grip = false;
                self.trigger = 0;
                self.connected = false;
                Ok(())
            },
        }
    }
}

impl Trackable for ViveController {
    open spec fn tracked_pose(&self) -> Pose {
        self.pose
    }

    fn pose(&self) -> (r: Pose) {
        self.pose
    }
}

} // verus!
