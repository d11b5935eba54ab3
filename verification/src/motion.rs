use vstd::prelude::*;

verus! {

/// Where the horizontal input axis stands, relative to the dead zone around zero.
#[derive(Clone, Copy, Debug, PartialEq, Eq, Structural)]
pub enum AxisReading {
    /// The axis is below the negative dead-zone bound.
    Negative,
    /// The axis is inside the dead zone.
    DeadZone,
    /// The axis is at or above the positive dead-zone bound.
    Positive,
}

/// The horizontal direction the player is moving in during a frame.
#[derive(Clone, Copy, Debug, PartialEq, Eq, Structural)]
pub enum MovementDirection {
    Left,
    Neutral,
    Right,
}

impl Default for MovementDirection {
    fn default() -> (res: Self)
        ensures
            res == MovementDirection::Neutral,
    {
        MovementDirection::Neutral
    }
}

/// The direction that a reading of the input axis asks for.
pub open spec fn spec_movement_from_axis(axis: AxisReading) -> MovementDirection {
    match axis {
        AxisReading::Negative => MovementDirection::Left,
        AxisReading::DeadZone => MovementDirection::Neutral,
        AxisReading::Positive => MovementDirection::Right,
    }
}

/// The direction that a reading of the input axis asks for.
pub fn movement_from_axis(axis: AxisReading) -> (res: MovementDirection)
    ensures
        res == spec_movement_from_axis(axis),
{
    match axis {
        AxisReading::Negative => MovementDirection::Left,
        AxisReading::DeadZone => MovementDirection::Neutral,
        AxisReading::Positive => MovementDirection::Right,
    }
}


/// How the vertical velocity changes in a frame.
#[derive(Clone, Copy, Debug, PartialEq, Eq, Structural)]
pub enum VerticalMove {
    /// Take the configured jump velocity.
    Jump,
    /// Keep the current vertical velocity.
    Keep,
    /// Set the vertical velocity to zero.
    Stop,
    /// Add gravity over the frame's time step to the current vertical velocity.
    Fall,
}

/// How the horizontal velocity changes in a frame.
#[derive(Clone, Copy, Debug, PartialEq, Eq, Structural)]
pub enum HorizontalMove {
    /// Move the horizontal velocity toward zero by at most the configured speed.
    Decelerate,
    /// Set the horizontal velocity to the frame's direction value times the configured speed.
    Drive,
}

/// The animation that the player's animation player is asked to play.
#[derive(Clone, Copy, Debug, PartialEq, Eq, Structural)]
pub enum Animation {
    Default,
    Walk,
    Jump,
    RollUpStart,
    Rolling,
    RollUpEnd,
}

/// The name under which an animation is stored in the animation player.
pub open spec fn spec_animation_name(animation: Animation) -> Seq<char> {
    match animation {
        Animation::Default => "Default"@,
        Animation::Walk => "walk"@,
        Animation::Jump => "jump"@,
        Animation::RollUpStart => "rollupstart"@,
        Animation::Rolling => "rolling"@,
        Animation::RollUpEnd => "rollupend"@,
    }
}

impl Animation {
    /// The name under which this animation is stored in the animation player;
    /// it is never empty, so the animation is always started.
    pub fn name(&self) -> (res: &'static str)
        ensures
            res@ == spec_animation_name(*self),
            res@.len() > 0,
    {
        proof {
            lemma_animation_names_nonempty(*self);
        }
        match self {
            Animation::Default => "Default",
            Animation::Walk => "walk",
            Animation::Jump => "jump",
            Animation::RollUpStart => "rollupstart",
            Animation::Rolling => "rolling",
            Animation::RollUpEnd => "rollupend",
        }
    }
}

/// Every animation has a non-empty name, so choosing one always starts it.
pub proof fn lemma_animation_names_nonempty(animation: Animation)
    ensures
        spec_animation_name(animation).len() > 0,
{
    reveal_strlit("Default");
    reveal_strlit("walk");
    reveal_strlit("jump");
    reveal_strlit("rollupstart");
    reveal_strlit("rolling");
    reveal_strlit("rollupend");
}

/// The horizontal flip that the sprite is given for a movement direction:
/// facing right flips it, facing left unflips it, no movement leaves it alone.
pub open spec fn spec_sprite_flip(movement: MovementDirection) -> Option<bool> {
    match movement {
        MovementDirection::Right => Some(true),
        MovementDirection::Neutral => None,
        MovementDirection::Left => Some(false),
    }
}

/// Whether the sprite is flipped after the flip for `movement` is applied.
pub open spec fn spec_flipped_after(movement: MovementDirection, flipped_before: bool) -> bool {
    match spec_sprite_flip(movement) {
        Some(flip) => flip,
        None => flipped_before,
    }
}

/// The horizontal flip that the sprite is given for a movement direction.
pub fn sprite_flip(movement: MovementDirection) -> (res: Option<bool>)
    ensures
        res == spec_sprite_flip(movement),
{
    match movement {
        MovementDirection::Right => Some(true),
        MovementDirection::Neutral => None,
        MovementDirection::Left => Some(false),
    }
}

/// Whether the sprite is flipped after the flip for `movement` is applied.
pub fn flipped_after(movement: MovementDirection, flipped_before: bool) -> (res: bool)
    ensures
        res == spec_flipped_after(movement, flipped_before),
{
    match sprite_flip(movement) {
        Some(flip) => flip,
        None => flipped_before,
    }
}

/// The horizontal update for a movement direction: no movement slows down,
/// any movement drives the body at full speed.
pub open spec fn spec_horizontal_move(movement: MovementDirection) -> HorizontalMove {
    match movement {
        MovementDirection::Neutral => HorizontalMove::Decelerate,
        _ => HorizontalMove::Drive,
    }
}

/// The horizontal update for a movement direction.
pub fn horizontal_move(movement: MovementDirection) -> (res: HorizontalMove)
    ensures
        res == spec_horizontal_move(movement),
{
    match movement {
        MovementDirection::Neutral => HorizontalMove::Decelerate,
        _ => HorizontalMove::Drive,
    }
}

/// The movement rules shared by both players: the axis below the dead zone
/// moves left, above it right, inside it not at all; moving right flips the
/// sprite, moving left unflips it, not moving leaves it as it was; moving
/// either way drives at full speed and not moving decelerates.
pub proof fn lemma_motion_tables(axis: AxisReading, movement: MovementDirection, flipped_before: bool)
    ensures
        axis == AxisReading::Negative ==> spec_movement_from_axis(axis) == MovementDirection::Left,
        axis == AxisReading::DeadZone ==> spec_movement_from_axis(axis) == MovementDirection::Neutral,
        axis == AxisReading::Positive ==> spec_movement_from_axis(axis) == MovementDirection::Right,
        movement == MovementDirection::Right ==> spec_flipped_after(movement, flipped_before),
        movement == MovementDirection::Left ==> !spec_flipped_after(movement, flipped_before),
        movement == MovementDirection::Neutral ==> spec_flipped_after(movement, flipped_before) == flipped_before,
        movement == MovementDirection::Neutral ==> spec_sprite_flip(movement) == None::<bool>,
        movement != MovementDirection::Neutral
            ==> spec_sprite_flip(movement) == Some(movement == MovementDirection::Right),
        movement == MovementDirection::Neutral ==> spec_horizontal_move(movement) == HorizontalMove::Decelerate,
        movement != MovementDirection::Neutral ==> spec_horizontal_move(movement) == HorizontalMove::Drive,
{
}

} // verus!
