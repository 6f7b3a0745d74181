use vstd::prelude::*;

verus! {

/// Whether an axis lock concerns translation or rotation.
#[derive(Clone, Copy, Debug, PartialEq, Eq, Structural)]
pub enum AxisLockKind {
    Translation,
    Rotation,
}

/// One of the three world axes.
#[derive(Clone, Copy, Debug, PartialEq, Eq, Structural)]
pub enum Axis {
    X,
    Y,
    Z,
}

/// The bit of one axis in a locked-axes mask: translation X, Y, Z are the high
/// three bits (32, 16, 8) and rotation X, Y, Z the low three (4, 2, 1).
pub open spec fn lock_bit(kind: AxisLockKind, axis: Axis) -> u8 {
    match (kind, axis) {
        (AxisLockKind::Translation, Axis::X) => 32,
        (AxisLockKind::Translation, Axis::Y) => 16,
        (AxisLockKind::Translation, Axis::Z) => 8,
        (AxisLockKind::Rotation, Axis::X) => 4,
        (AxisLockKind::Rotation, Axis::Y) => 2,
        (AxisLockKind::Rotation, Axis::Z) => 1,
    }
}

/// Whether `bits` locks the given axis.
pub open spec fn is_locked_spec(bits: u8, kind: AxisLockKind, axis: Axis) -> bool {
    (bits & lock_bit(kind, axis)) != 0u8
}

fn lock_mask(kind: AxisLockKind, axis: Axis) -> (bit: u8)
    ensures
        bit == lock_bit(kind, axis),
{
    match (kind, axis) {
        (AxisLockKind::Translation, Axis::X) => 32,
        (AxisLockKind::Translation, Axis::Y) => 16,
        (AxisLockKind::Translation, Axis::Z) => 8,
        (AxisLockKind::Rotation, Axis::X) => 4,
        (AxisLockKind::Rotation, Axis::Y) => 2,
        (AxisLockKind::Rotation, Axis::Z) => 1,
    }
}

/// Whether the locked-axes mask `bits` locks the given axis.
pub fn axis_is_locked(bits: u8, kind: AxisLockKind, axis: Axis) -> (locked: bool)
    ensures
        locked == is_locked_spec(bits, kind, axis),
{
    (bits & lock_mask(kind, axis)) != 0
}

/// Flips one axis lock: a locked axis is unlocked and an open one locked.
pub fn toggle_axis_lock(bits: u8, kind: AxisLockKind, axis: Axis) -> (toggled: u8)
    ensures
        toggled == (if is_locked_spec(bits, kind, axis) {
            bits & !lock_bit(kind, axis)
        } else {
            bits | lock_bit(kind, axis)
        }),
{
    let bit = lock_mask(kind, axis);
    if (bits & bit) != 0 {
        bits & !bit
    } else {
        bits | bit
    }
}

proof fn lemma_single_bit_toggle(b: u8, m: u8, other: u8)
    by (bit_vector)
    requires
        m == 1u8 || m == 2u8 || m == 4u8 || m == 8u8 || m == 16u8 || m == 32u8,
        other == 1u8 || other == 2u8 || other == 4u8 || other == 8u8 || other == 16u8 || other == 32u8,
        m != other,
    ensures
        (b & m) != 0u8 ==> ((b & !m) & m) == 0u8 && ((b & !m) | m) == b,
        (b & m) == 0u8 ==> ((b | m) & m) != 0u8 && ((b | m) & !m) == b,
        ((b & !m) & other) == (b & other),
        ((b | m) & other) == (b & other),
{
}

proof fn lemma_lock_bits(kind: AxisLockKind, axis: Axis)
    ensures
        lock_bit(kind, axis) == 1u8 || lock_bit(kind, axis) == 2u8 || lock_bit(kind, axis) == 4u8
            || lock_bit(kind, axis) == 8u8 || lock_bit(kind, axis) == 16u8 || lock_bit(kind, axis) == 32u8,
{
}

/// The toggle of an axis lock is its own inverse, flips exactly that axis, and
/// leaves the other five locks as they were.
pub proof fn lemma_toggle_axis_lock(bits: u8, kind: AxisLockKind, axis: Axis, other_kind: AxisLockKind, other_axis: Axis)
    requires
        (kind, axis) != (other_kind, other_axis),
    ensures
        ({
            let once = if is_locked_spec(bits, kind, axis) {
                bits & !lock_bit(kind, axis)
            } else {
                bits | lock_bit(kind, axis)
            };
            let twice = if is_locked_spec(once, kind, axis) {
                once & !lock_bit(kind, axis)
            } else {
                once | lock_bit(kind, axis)
            };
            &&& is_locked_spec(once, kind, axis) == !is_locked_spec(bits, kind, axis)
            &&& is_locked_spec(once, other_kind, other_axis) == is_locked_spec(bits, other_kind, other_axis)
            &&& twice == bits
        }),
{
    lemma_lock_bits(kind, axis);
    lemma_lock_bits(other_kind, other_axis);
    let m = lock_bit(kind, axis);
    let o = lock_bit(other_kind, other_axis);
    assert(m != o);
    lemma_single_bit_toggle(bits, m, o);
    lemma_single_bit_toggle(bits & !m, m, o);
    lemma_single_bit_toggle(bits | m, m, o);
}

fn lock_word(locked: bool) -> (s: &'static str)
    ensures
        s@ == (if locked { "locked"@ } else { "open"@ }),
{
    if locked {
        "locked"
    } else {
        "open"
    }
}

/// The word for one lock state.
pub open spec fn lock_word_spec(bits: u8, kind: AxisLockKind, axis: Axis) -> Seq<char> {
    if is_locked_spec(bits, kind, axis) {
        "locked"@
    } else {
        "open"@
    }
}

/// The summary of all six locks: `T(x,y,z) R(x,y,z)` with `locked` or `open` for each.
pub fn format_axis_locks(bits: u8) -> (s: String)
    ensures
        s@ == "T("@ + lock_word_spec(bits, AxisLockKind::Translation, Axis::X) + ","@ + lock_word_spec(
            bits,
            AxisLockKind::Translation,
            Axis::Y,
        ) + ","@ + lock_word_spec(bits, AxisLockKind::Translation, Axis::Z) + ") R("@ + lock_word_spec(
            bits,
            AxisLockKind::Rotation,
            Axis::X,
        ) + ","@ + lock_word_spec(bits, AxisLockKind::Rotation, Axis::Y) + ","@ + lock_word_spec(
            bits,
            AxisLockKind::Rotation,
            Axis::Z,
        ) + ")"@,
{
    let mut s = String::from_str("T(");
    s.append(lock_word(axis_is_locked(bits, AxisLockKind::Translation, Axis::X)));
    s.append(",");
    s.append(lock_word(axis_is_locked(bits, AxisLockKind::Translation, Axis::Y)));
    s.append(",");
    s.append(lock_word(axis_is_locked(bits, AxisLockKind::Translation, Axis::Z)));
    s.append(") R(");
    s.append(lock_word(axis_is_locked(bits, AxisLockKind::Rotation, Axis::X)));
    s.append(",");
    s.append(lock_word(axis_is_locked(bits, AxisLockKind::Rotation, Axis::Y)));
    s.append(",");
    s.append(lock_word(axis_is_locked(bits, AxisLockKind::Rotation, Axis::Z)));
    s.append(")");
    s
}

/// The three rigid-body kinds the inspector cycles through.
#[derive(Clone, Copy, Debug, PartialEq, Eq, Structural)]
pub enum BodyKind {
    Dynamic,
    Kinematic,
    Static,
}

impl BodyKind {
    pub open spec fn next_spec(self) -> BodyKind {
        match self {
            BodyKind::Dynamic => BodyKind::Kinematic,
            BodyKind::Kinematic => BodyKind::Static,
            BodyKind::Static => BodyKind::Dynamic,
        }
    }

    /// The kind the "cycle" control switches to.
    pub fn next(self) -> (next: BodyKind)
        ensures
            next == self.next_spec(),
    {
        match self {
            BodyKind::Dynamic => BodyKind::Kinematic,
            BodyKind::Kinematic => BodyKind::Static,
            BodyKind::Static => BodyKind::Dynamic,
        }
    }

    pub open spec fn label_spec(self) -> Seq<char> {
        match self {
            BodyKind::Dynamic => "Dynamic"@,
            BodyKind::Kinematic => "Kinematic"@,
            BodyKind::Static => "Static"@,
        }
    }

    /// The kind's name as shown by the inspector.
    pub fn label(self) -> (s: &'static str)
        ensures
            s@ == self.label_spec(),
    {
        match self {
            BodyKind::Dynamic => "Dynamic",
            BodyKind::Kinematic => "Kinematic",
            BodyKind::Static => "Static",
        }
    }
}

/// Cycling the body kind visits all three kinds and returns after three steps.
pub proof fn lemma_body_cycle_has_period_three(kind: BodyKind)
    ensures
        kind.next_spec().next_spec().next_spec() == kind,
        kind.next_spec() != kind,
        kind.next_spec().next_spec() != kind,
{
}

/// One step of the dominance control: one up or down, kept within -127..=127.
pub fn step_dominance(current: i8, up: bool) -> (next: i8)
    requires
        up ==> current < 127,
        !up ==> current > -128,
    ensures
        next == (if up {
            if current + 1 > 127 { 127 } else { current + 1 }
        } else {
            if current - 1 < -127 { -127 } else { current - 1 }
        }),
        -127 <= next <= 127,
{
    let value = if up { current + 1 } else { current - 1 };
    if value < -127 {
        -127
    } else if value > 127 {
        127
    } else {
        value
    }
}

/// The Avian joint type represented by an inspected joint.
#[derive(Clone, Copy, Debug, PartialEq, Eq, Structural)]
pub enum JointType {
    Fixed,
    Distance,
    Revolute,
    Prismatic,
    Spherical,
}

impl JointType {
    pub open spec fn label_spec(self) -> Seq<char> {
        match self {
            JointType::Fixed => "Fixed"@,
            JointType::Distance => "Distance"@,
            JointType::Revolute => "Revolute"@,
            JointType::Prismatic => "Prismatic"@,
            JointType::Spherical => "Spherical"@,
        }
    }

    /// The type's name as shown by the inspector.
    pub fn label(self) -> (s: &'static str)
        ensures
            s@ == self.label_spec(),
    {
        match self {
            JointType::Fixed => "Fixed",
            JointType::Distance => "Distance",
            JointType::Revolute => "Revolute",
            JointType::Prismatic => "Prismatic",
            JointType::Spherical => "Spherical",
        }
    }
}

/// Which joint components an entity carries.
#[derive(Clone, Copy, Debug, PartialEq, Eq, Structural)]
pub struct JointComponents {
    pub fixed: bool,
    pub distance: bool,
    pub revolute: bool,
    pub prismatic: bool,
    pub spherical: bool,
}

/// The type an inspected joint is shown as: the first present in the order fixed,
/// distance, revolute, prismatic, spherical.
pub open spec fn joint_type_spec(c: JointComponents) -> Option<JointType> {
    if c.fixed {
        Some(JointType::Fixed)
    } else if c.distance {
        Some(JointType::Distance)
    } else if c.revolute {
        Some(JointType::Revolute)
    } else if c.prismatic {
        Some(JointType::Prismatic)
    } else if c.spherical {
        Some(JointType::Spherical)
    } else {
        None
    }
}

/// The joint type an entity is inspected as, or `None` when it carries no joint.
pub fn joint_type_of(components: JointComponents) -> (joint_type: Option<JointType>)
    ensures
        joint_type == joint_type_spec(components),
{
    if components.fixed {
        Some(JointType::Fixed)
    } else if components.distance {
        Some(JointType::Distance)
    } else if components.revolute {
        Some(JointType::Revolute)
    } else if components.prismatic {
        Some(JointType::Prismatic)
    } else if components.spherical {
        Some(JointType::Spherical)
    } else {
        None
    }
}

/// The six compliance rows of the joint inspector.
#[derive(Clone, Copy, Debug, PartialEq, Eq, Structural)]
pub enum JointComplianceProperty {
    Point,
    Alignment,
    Angle,
    Limit,
    Swing,
    Twist,
}

/// The compliances the inspector reports for each joint type.
pub open spec fn compliance_reported_spec(joint_type: JointType, property: JointComplianceProperty) -> bool {
    match joint_type {
        JointType::Fixed => property == JointComplianceProperty::Point || property == JointComplianceProperty::Angle,
        JointType::Distance => property == JointComplianceProperty::Point,
        JointType::Revolute => property == JointComplianceProperty::Point || property
            == JointComplianceProperty::Alignment || property == JointComplianceProperty::Limit,
        JointType::Prismatic => property == JointComplianceProperty::Alignment || property
            == JointComplianceProperty::Angle || property == JointComplianceProperty::Limit,
        JointType::Spherical => property == JointComplianceProperty::Point || property
            == JointComplianceProperty::Swing || property == JointComplianceProperty::Twist,
    }
}

/// Whether the inspector reports a value for this compliance of this joint type.
pub fn compliance_is_reported(joint_type: JointType, property: JointComplianceProperty) -> (reported: bool)
    ensures
        reported == compliance_reported_spec(joint_type, property),
{
    match joint_type {
        JointType::Fixed => match property {
            JointComplianceProperty::Point | JointComplianceProperty::Angle => true,
            _ => false,
        },
        JointType::Distance => match property {
            JointComplianceProperty::Point => true,
            _ => false,
        },
        JointType::Revolute => match property {
            JointComplianceProperty::Point | JointComplianceProperty::Alignment | JointComplianceProperty::Limit => true,
            _ => false,
        },
        JointType::Prismatic => match property {
            JointComplianceProperty::Alignment | JointComplianceProperty::Angle | JointComplianceProperty::Limit => true,
            _ => false,
        },
        JointType::Spherical => match property {
            JointComplianceProperty::Point | JointComplianceProperty::Swing | JointComplianceProperty::Twist => true,
            _ => false,
        },
    }
}

/// The compliance field of a joint that one +/- press on a compliance row edits,
/// or `None` when that joint type has no such compliance.
#[derive(Clone, Copy, Debug, PartialEq, Eq, Structural)]
pub enum ComplianceField {
    /// `point_compliance` (the distance joint's single `compliance`).
    Point,
    /// `align_compliance`.
    Align,
    /// `angle_compliance`.
    Angle,
    /// `limit_compliance`.
    Limit,
    /// `swing_compliance`.
    Swing,
    /// `twist_compliance`.
    Twist,
}

/// The field a compliance press edits on a joint of the given type.
pub fn edited_compliance(joint_type: JointType, property: JointComplianceProperty) -> (field: Option<ComplianceField>)
    ensures
        field.is_some() == compliance_reported_spec(joint_type, property),
        field matches Some(f) ==> f == match property {
            JointComplianceProperty::Point => ComplianceField::Point,
            JointComplianceProperty::Alignment => ComplianceField::Align,
            JointComplianceProperty::Angle => ComplianceField::Angle,
            JointComplianceProperty::Limit => ComplianceField::Limit,
            JointComplianceProperty::Swing => ComplianceField::Swing,
            JointComplianceProperty::Twist => ComplianceField::Twist,
        },
{
    match (joint_type, property) {
        (JointType::Fixed, JointComplianceProperty::Point) => Some(ComplianceField::Point),
        (JointType::Fixed, JointComplianceProperty::Angle) => Some(ComplianceField::Angle),
        (JointType::Distance, JointComplianceProperty::Point) => Some(ComplianceField::Point),
        (JointType::Revolute, JointComplianceProperty::Point) => Some(ComplianceField::Point),
        (JointType::Revolute, JointComplianceProperty::Alignment) => Some(ComplianceField::Align),
        (JointType::Revolute, JointComplianceProperty::Limit) => Some(ComplianceField::Limit),
        (JointType::Prismatic, JointComplianceProperty::Alignment) => Some(ComplianceField::Align),
        (JointType::Prismatic, JointComplianceProperty::Angle) => Some(ComplianceField::Angle),
        (JointType::Prismatic, JointComplianceProperty::Limit) => Some(ComplianceField::Limit),
        (JointType::Spherical, JointComplianceProperty::Point) => Some(ComplianceField::Point),
        (JointType::Spherical, JointComplianceProperty::Swing) => Some(ComplianceField::Swing),
        (JointType::Spherical, JointComplianceProperty::Twist) => Some(ComplianceField::Twist),
        _ => None,
    }
}


/// The selection after this frame's clicks: a left click that no panel button took
/// selects the joint whose anchor line is under the cursor, otherwise the body under
/// the cursor, and clears the selection over empty space. Hovering alone changes nothing.
pub open spec fn selection_after_click_spec(
    current: Option<u64>,
    clicked: bool,
    control_pressed: bool,
    hovered_body: Option<u64>,
    picked_joint: Option<u64>,
) -> Option<u64> {
    if !clicked || control_pressed {
        current
    } else {
        match picked_joint {
            Some(joint) => Some(joint),
            None => hovered_body,
        }
    }
}

/// The body or joint currently selected by the inspector (entity id bits), or `None`
/// when the last click hit empty space.
#[derive(Clone, Copy, Debug, PartialEq, Eq, Structural)]
pub struct SelectionState {
    pub entity: Option<u64>,
}

impl SelectionState {
    /// Nothing selected.
    pub fn new() -> (state: SelectionState)
        ensures
            state.entity.is_none(),
    {
        SelectionState { entity: None }
    }

    /// Applies this frame's click (see [`selection_after_click_spec`]).
    pub fn apply_click(
        &mut self,
        clicked: bool,
        control_pressed: bool,
        hovered_body: Option<u64>,
        picked_joint: Option<u64>,
    )
        ensures
            final(self).entity == selection_after_click_spec(
                old(self).entity,
                clicked,
                control_pressed,
                hovered_body,
                picked_joint,
            ),
            clicked && !control_pressed && picked_joint.is_none() ==> final(self).entity == hovered_body,
            clicked && !control_pressed && picked_joint.is_some() ==> final(self).entity == picked_joint,
            !clicked || control_pressed ==> final(self).entity == old(self).entity,
    {
        if !clicked || control_pressed {
            return;
        }
        self.entity = match picked_joint {
            Some(joint) => Some(joint),
            None => hovered_body,
        };
    }

    /// After refreshing the inspector: an entity that is neither a body nor a joint
    /// any more is deselected.
    pub fn refresh(&mut self, body_found: bool, joint_found: bool)
        ensures
            final(self).entity == (if !body_found && !joint_found {
                None
            } else {
                old(self).entity
            }),
    {
        if !body_found && !joint_found {
            self.entity = None;
        }
    }
}

/// Which parts of the inspector panel are displayed.
#[derive(Clone, Copy, Debug, PartialEq, Eq, Structural)]
pub struct InspectorLayout {
    pub panel: bool,
    pub body_section: bool,
    pub joint_section: bool,
}

/// The panel shows while a body or a joint is inspected, with the section of what is inspected.
pub fn inspector_layout(has_body: bool, has_joint: bool) -> (layout: InspectorLayout)
    ensures
        layout.panel == (has_body || has_joint),
        layout.panel ==> layout.body_section == has_body && layout.joint_section == has_joint,
        !layout.panel ==> !layout.body_section && !layout.joint_section,
{
    if !has_body && !has_joint {
        InspectorLayout { panel: false, body_section: false, joint_section: false }
    } else {
        InspectorLayout { panel: true, body_section: has_body, joint_section: has_joint }
    }
}

/// An empty click clears the inspector, a click on a body selects that body whatever was
/// selected before, and a joint under the cursor wins over a body.
pub proof fn lemma_click_selection(current: Option<u64>, body: Option<u64>, joint: u64)
    ensures
        selection_after_click_spec(current, true, false, None, None) == None::<u64>,
        selection_after_click_spec(current, true, false, body, None) == body,
        selection_after_click_spec(current, true, false, body, Some(joint)) == Some(joint),
        selection_after_click_spec(current, false, false, body, Some(joint)) == current,
        selection_after_click_spec(current, true, true, body, Some(joint)) == current,
{
}

/// The text of a joint's enabled row.
pub fn joint_enabled_text(enabled: bool) -> (s: &'static str)
    ensures
        s@ == (if enabled { "enabled"@ } else { "disabled"@ }),
{
    if enabled {
        "enabled"
    } else {
        "disabled"
    }
}

/// The text of one axis-lock row.
pub fn axis_lock_text(bits: u8, kind: AxisLockKind, axis: Axis) -> (s: &'static str)
    ensures
        s@ == lock_word_spec(bits, kind, axis),
{
    lock_word(axis_is_locked(bits, kind, axis))
}

/// Which body's anchor a joint-anchor row edits.
#[derive(Clone, Copy, Debug, PartialEq, Eq, Structural)]
pub enum JointBody {
    First,
    Second,
}

/// Linear or angular velocity.
#[derive(Clone, Copy, Debug, PartialEq, Eq, Structural)]
pub enum VelocityKind {
    Linear,
    Angular,
}

/// Linear or angular joint damping.
#[derive(Clone, Copy, Debug, PartialEq, Eq, Structural)]
pub enum JointDampingKind {
    Linear,
    Angular,
}

/// The label of a joint-anchor row.
pub fn anchor_row_label(body: JointBody, axis: Axis) -> (s: &'static str)
    ensures
        s@ == match (body, axis) {
            (JointBody::First, Axis::X) => "Anchor 1 X"@,
            (JointBody::First, Axis::Y) => "Anchor 1 Y"@,
            (JointBody::First, Axis::Z) => "Anchor 1 Z"@,
            (JointBody::Second, Axis::X) => "Anchor 2 X"@,
            (JointBody::Second, Axis::Y) => "Anchor 2 Y"@,
            (JointBody::Second, Axis::Z) => "Anchor 2 Z"@,
        },
{
    match (body, axis) {
        (JointBody::First, Axis::X) => "Anchor 1 X",
        (JointBody::First, Axis::Y) => "Anchor 1 Y",
        (JointBody::First, Axis::Z) => "Anchor 1 Z",
        (JointBody::Second, Axis::X) => "Anchor 2 X",
        (JointBody::Second, Axis::Y) => "Anchor 2 Y",
        (JointBody::Second, Axis::Z) => "Anchor 2 Z",
    }
}

/// The label of an axis-lock row.
pub fn axis_lock_row_label(kind: AxisLockKind, axis: Axis) -> (s: &'static str)
    ensures
        s@ == match (kind, axis) {
            (AxisLockKind::Translation, Axis::X) => "Lock translation X"@,
            (AxisLockKind::Translation, Axis::Y) => "Lock translation Y"@,
            (AxisLockKind::Translation, Axis::Z) => "Lock translation Z"@,
            (AxisLockKind::Rotation, Axis::X) => "Lock rotation X"@,
            (AxisLockKind::Rotation, Axis::Y) => "Lock rotation Y"@,
            (AxisLockKind::Rotation, Axis::Z) => "Lock rotation Z"@,
        },
{
    match (kind, axis) {
        (AxisLockKind::Translation, Axis::X) => "Lock translation X",
        (AxisLockKind::Translation, Axis::Y) => "Lock translation Y",
        (AxisLockKind::Translation, Axis::Z) => "Lock translation Z",
        (AxisLockKind::Rotation, Axis::X) => "Lock rotation X",
        (AxisLockKind::Rotation, Axis::Y) => "Lock rotation Y",
        (AxisLockKind::Rotation, Axis::Z) => "Lock rotation Z",
    }
}

/// The label of a velocity row.
pub fn velocity_row_label(kind: VelocityKind, axis: Axis) -> (s: &'static str)
    ensures
        s@ == match (kind, axis) {
            (VelocityKind::Linear, Axis::X) => "Linear velocity X"@,
            (VelocityKind::Linear, Axis::Y) => "Linear velocity Y"@,
            (VelocityKind::Linear, Axis::Z) => "Linear velocity Z"@,
            (VelocityKind::Angular, Axis::X) => "Angular velocity X"@,
            (VelocityKind::Angular, Axis::Y) => "Angular velocity Y"@,
            (VelocityKind::Angular, Axis::Z) => "Angular velocity Z"@,
        },
{
    match (kind, axis) {
        (VelocityKind::Linear, Axis::X) => "Linear velocity X",
        (VelocityKind::Linear, Axis::Y) => "Linear velocity Y",
        (VelocityKind::Linear, Axis::Z) => "Linear velocity Z",
        (VelocityKind::Angular, Axis::X) => "Angular velocity X",
        (VelocityKind::Angular, Axis::Y) => "Angular velocity Y",
        (VelocityKind::Angular, Axis::Z) => "Angular velocity Z",
    }
}

/// The label of a compliance row.
pub fn compliance_row_label(property: JointComplianceProperty) -> (s: &'static str)
    ensures
        s@ == match property {
            JointComplianceProperty::Point => "Point compliance"@,
            JointComplianceProperty::Alignment => "Alignment compliance"@,
            JointComplianceProperty::Angle => "Angle compliance"@,
            JointComplianceProperty::Limit => "Limit compliance"@,
            JointComplianceProperty::Swing => "Swing compliance"@,
            JointComplianceProperty::Twist => "Twist compliance"@,
        },
{
    match property {
        JointComplianceProperty::Point => "Point compliance",
        JointComplianceProperty::Alignment => "Alignment compliance",
        JointComplianceProperty::Angle => "Angle compliance",
        JointComplianceProperty::Limit => "Limit compliance",
        JointComplianceProperty::Swing => "Swing compliance",
        JointComplianceProperty::Twist => "Twist compliance",
    }
}

/// The label of a joint-damping row.
pub fn damping_row_label(kind: JointDampingKind) -> (s: &'static str)
    ensures
        s@ == match kind {
            JointDampingKind::Linear => "Linear joint damping"@,
            JointDampingKind::Angular => "Angular joint damping"@,
        },
{
    match kind {
        JointDampingKind::Linear => "Linear joint damping",
        JointDampingKind::Angular => "Angular joint damping",
    }
}

} // verus!
