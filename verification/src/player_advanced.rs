use vstd::prelude::*;
use crate::motion::{
    AxisReading, MovementDirection, VerticalMove, HorizontalMove, Animation,
    spec_sprite_flip, sprite_flip, spec_flipped_after, flipped_after,
    spec_horizontal_move, horizontal_move,
};
use crate::tile_map_rules::{SLIDE_TILE_CODE, LEDGE_TILE_CODE, EMPTY_TILE_CODE};

verus! {

/// What the advanced player is doing.
#[derive(Clone, Copy, Debug, PartialEq, Eq, Structural)]
pub enum PlayerState {
    Idle,
    Walking,
    Jumping,
    RollingStart,
    Rolling,
    RollingEnd,
    Grabbing,
    Holding,
    Releasing,
}

impl Default for PlayerState {
    fn default() -> (res: Self)
        ensures
            res == PlayerState::Idle,
    {
        PlayerState::Idle
    }
}

/// Where the horizontal direction value of a frame comes from; the player
/// keeps it as its direction for the next frame.
#[derive(Clone, Copy, Debug, PartialEq, Eq, Structural)]
pub enum DirectionSource {
    /// The value of the input axis.
    Axis,
    /// The direction value kept from the previous frame.
    Stored,
    /// The value `1.0`: full speed to the right.
    ForcedRight,
    /// The value `-1.0`: full speed to the left.
    ForcedLeft,
}

/// What the engine reports to the advanced player at the start of a frame.
#[derive(Clone, Copy, Debug)]
pub struct FrameInput {
    /// Whether the body stands on the floor.
    pub on_floor: bool,
    /// Whether the jump action is held.
    pub jump_pressed: bool,
    /// Where the horizontal input axis stands.
    pub axis: AxisReading,
    /// Whether the direction value kept from the previous frame is exactly `1.0`.
    pub stored_direction_is_right: bool,
    /// Whether the sprite is flipped horizontally before this frame.
    pub sprite_flipped: bool,
    /// Whether the animation player is still playing.
    pub animation_playing: bool,
    /// Whether the vertical velocity is not negative (the body is not rising).
    pub descending: bool,
}

/// What the advanced player decides in a frame, for the engine to carry out.
#[derive(Clone, Copy, Debug)]
pub struct Frame {
    /// How the vertical velocity changes.
    pub vertical: VerticalMove,
    /// The direction the player moves in.
    pub movement: MovementDirection,
    /// Where the frame's direction value comes from.
    pub direction: DirectionSource,
    /// The horizontal flip the sprite is given, if any.
    pub flip: Option<bool>,
    /// Whether the player grabs a ledge.
    pub grab: bool,
    /// Whether a slide tile lies under the player.
    pub blocked: bool,
    /// What the player does from this frame on.
    pub status: PlayerState,
    /// The animation to play.
    pub animation: Animation,
    /// How the horizontal velocity changes.
    pub horizontal: HorizontalMove,
}

/// The states of a player that rolls down a slide.
pub open spec fn is_rolling(status: PlayerState) -> bool {
    ||| status == PlayerState::RollingStart
    ||| status == PlayerState::Rolling
    ||| status == PlayerState::RollingEnd
}

/// The states that a player reaches by walking, jumping and rolling.
pub open spec fn is_grounded_state(status: PlayerState) -> bool {
    ||| status == PlayerState::Idle
    ||| status == PlayerState::Walking
    ||| status == PlayerState::Jumping
    ||| is_rolling(status)
}

/// Whether the tile codes around the player can be read in a frame: the ledge
/// test reads the first two codes and, while descending past no ledge on the
/// left, the codes at positions 10 and 11; the slide test reads position 5.
pub open spec fn tiles_readable(input: FrameInput, tiles: Seq<i32>) -> bool {
    &&& tiles.len() >= 6
    &&& (input.descending && !(tiles[1] == LEDGE_TILE_CODE && tiles[0] == EMPTY_TILE_CODE)) ==> {
        &&& tiles.len() >= 11
        &&& tiles[10] == LEDGE_TILE_CODE ==> tiles.len() >= 12
    }
}

/// Whether a slide tile lies under the player.
pub open spec fn spec_blocked(tiles: Seq<i32>) -> bool {
    tiles[5] == SLIDE_TILE_CODE
}

/// The vertical update: a jump starts from the floor; in the air a grabbing
/// player that presses jump stops; otherwise the body falls.
pub open spec fn spec_vertical_move(status: PlayerState, input: FrameInput) -> VerticalMove {
    if input.on_floor {
        if input.jump_pressed {
            VerticalMove::Jump
        } else {
            VerticalMove::Keep
        }
    } else if status == PlayerState::Grabbing && input.jump_pressed {
        VerticalMove::Stop
    } else {
        VerticalMove::Fall
    }
}

/// The direction read from the input: with the axis in the dead zone, a
/// rolling player keeps rolling the way its kept direction says.
pub open spec fn spec_axis_movement(status: PlayerState, input: FrameInput) -> (MovementDirection, DirectionSource) {
    match input.axis {
        AxisReading::Negative => (MovementDirection::Left, DirectionSource::Axis),
        AxisReading::Positive => (MovementDirection::Right, DirectionSource::Axis),
        AxisReading::DeadZone => if is_rolling(status) {
            if input.stored_direction_is_right {
                (MovementDirection::Right, DirectionSource::Stored)
            } else {
                (MovementDirection::Left, DirectionSource::Stored)
            }
        } else {
            (MovementDirection::Neutral, DirectionSource::Axis)
        },
    }
}

/// The next state, with the movement direction and direction value that a
/// jump onto a slide imposes, tried in order: the roll-up start lasts while
/// its animation plays; rolling lasts while the slide does; the roll-up end
/// lasts while its animation plays; a jump onto a slide starts a roll the way
/// the sprite faces; a jump onto a ledge grabs it; a grab without a ledge
/// falls back to a jump; releasing lasts; otherwise the floor decides between
/// idle, rolling and walking, and the air means jumping.
pub open spec fn spec_transition(
    status: PlayerState,
    input: FrameInput,
    blocked: bool,
    grab: bool,
    movement: MovementDirection,
    direction: DirectionSource,
    facing_right: bool,
) -> (PlayerState, MovementDirection, DirectionSource) {
    if status == PlayerState::RollingStart && blocked {
        if !input.animation_playing {
            (PlayerState::Rolling, movement, direction)
        } else {
            (PlayerState::RollingStart, movement, direction)
        }
    } else if status == PlayerState::Rolling && blocked {
        (PlayerState::Rolling, movement, direction)
    } else if status == PlayerState::Rolling && !blocked {
        (PlayerState::RollingEnd, movement, direction)
    } else if status == PlayerState::RollingEnd {
        if !input.animation_playing {
            (PlayerState::Idle, movement, direction)
        } else {
            (PlayerState::RollingEnd, movement, direction)
        }
    } else if status == PlayerState::Jumping && blocked {
        if facing_right {
            (PlayerState::RollingStart, MovementDirection::Right, DirectionSource::ForcedRight)
        } else {
            (PlayerState::RollingStart, MovementDirection::Left, DirectionSource::ForcedLeft)
        }
    } else if status == PlayerState::Jumping && grab {
        (PlayerState::Grabbing, movement, direction)
    } else if status == PlayerState::Grabbing && !grab {
        (PlayerState::Jumping, movement, direction)
    } else if status == PlayerState::Releasing {
        (PlayerState::Releasing, movement, direction)
    } else if input.on_floor {
        match movement {
            MovementDirection::Neutral => (PlayerState::Idle, movement, direction),
            _ => if blocked {
                (PlayerState::RollingStart, movement, direction)
            } else {
                (PlayerState::Walking, movement, direction)
            },
        }
    } else {
        (PlayerState::Jumping, movement, direction)
    }
}

/// The animation shown in each state.
pub open spec fn spec_animation_of(status: PlayerState) -> Animation {
    match status {
        PlayerState::Idle => Animation::Default,
        PlayerState::Walking => Animation::Walk,
        PlayerState::Jumping => Animation::Jump,
        PlayerState::RollingStart => Animation::RollUpStart,
        PlayerState::Rolling => Animation::Rolling,
        PlayerState::RollingEnd => Animation::RollUpEnd,
        PlayerState::Grabbing => Animation::Jump,
        PlayerState::Holding => Animation::Jump,
        PlayerState::Releasing => Animation::Jump,
    }
}

/// Everything the advanced player decides in a frame. Grabbing a ledge is
/// switched off: whatever the tiles hold, no grab is detected.
pub open spec fn spec_frame(status: PlayerState, input: FrameInput, tiles: Seq<i32>) -> Frame {
    let vertical = spec_vertical_move(status, input);
    let (movement, direction) = spec_axis_movement(status, input);
    let flip = spec_sprite_flip(movement);
    let facing_right = spec_flipped_after(movement, input.sprite_flipped);
    let grab = false;
    let blocked = spec_blocked(tiles);
    let (next, movement, direction) = spec_transition(
        status, input, blocked, grab, movement, direction, facing_right);
    Frame {
        vertical: if grab { VerticalMove::Stop } else { vertical },
        movement,
        direction,
        flip,
        grab,
        blocked,
        status: next,
        animation: spec_animation_of(next),
        horizontal: spec_horizontal_move(movement),
    }
}

/// The state after a sequence of frames, each given by what the engine
/// reports and the tile codes around the player.
pub open spec fn spec_run(status: PlayerState, frames: Seq<(FrameInput, Seq<i32>)>) -> PlayerState
    decreases frames.len(),
{
    if frames.len() == 0 {
        status
    } else {
        spec_run(spec_frame(status, frames[0].0, frames[0].1).status, frames.drop_first())
    }
}

/// Whether the tile codes around the player can be read in a frame.
pub fn tiles_are_readable(input: FrameInput, tiles: &Vec<i32>) -> (res: bool)
    ensures
        res == tiles_readable(input, tiles@),
{
    if tiles.len() < 6 {
        false
    } else if input.descending && !(tiles[1] == LEDGE_TILE_CODE && tiles[0] == EMPTY_TILE_CODE) {
        tiles.len() >= 12 || (tiles.len() == 11 && tiles[10] != LEDGE_TILE_CODE)
    } else {
        true
    }
}

/// Looks for a ledge beside a descending player. Grabbing is switched off:
/// the tiles are read, but no grab is ever reported.
pub fn detect_grab(input: FrameInput, tiles: &Vec<i32>) -> (res: bool)
    requires
        tiles_readable(input, tiles@),
    ensures
        !res,
{
    if input.descending {
        if (tiles[1] == LEDGE_TILE_CODE && tiles[0] == EMPTY_TILE_CODE)
            || (tiles[10] == LEDGE_TILE_CODE && tiles[11] == EMPTY_TILE_CODE) {
            false
        } else {
            false
        }
    } else {
        false
    }
}

/// Whether a slide tile lies under the player.
pub fn is_blocked(tiles: &Vec<i32>) -> (res: bool)
    requires
        tiles@.len() >= 6,
    ensures
        res == spec_blocked(tiles@),
{
    tiles[5] == SLIDE_TILE_CODE
}

/// The vertical update of a frame.
pub fn vertical_move(status: PlayerState, input: FrameInput) -> (res: VerticalMove)
    ensures
        res == spec_vertical_move(status, input),
{
    if input.on_floor {
        if input.jump_pressed {
            VerticalMove::Jump
        } else {
            VerticalMove::Keep
        }
    } else if status == PlayerState::Grabbing && input.jump_pressed {
        VerticalMove::Stop
    } else {
        VerticalMove::Fall
    }
}

/// Whether the player is rolling down a slide.
pub fn rolling(status: PlayerState) -> (res: bool)
    ensures
        res == is_rolling(status),
{
    status == PlayerState::RollingStart || status == PlayerState::Rolling
        || status == PlayerState::RollingEnd
}

/// The direction read from the input.
pub fn axis_movement(status: PlayerState, input: FrameInput) -> (res: (MovementDirection, DirectionSource))
    ensures
        res == spec_axis_movement(status, input),
{
    match input.axis {
        AxisReading::Negative => (MovementDirection::Left, DirectionSource::Axis),
        AxisReading::Positive => (MovementDirection::Right, DirectionSource::Axis),
        AxisReading::DeadZone => if rolling(status) {
            if input.stored_direction_is_right {
                (MovementDirection::Right, DirectionSource::Stored)
            } else {
                (MovementDirection::Left, DirectionSource::Stored)
            }
        } else {
            (MovementDirection::Neutral, DirectionSource::Axis)
        },
    }
}

/// The next state, with the movement direction and direction value of the frame.
pub fn transition(
    status: PlayerState,
    input: FrameInput,
    blocked: bool,
    grab: bool,
    movement: MovementDirection,
    direction: DirectionSource,
    facing_right: bool,
) -> (res: (PlayerState, MovementDirection, DirectionSource))
    ensures
        res == spec_transition(status, input, blocked, grab, movement, direction, facing_right),
{
    if status == PlayerState::RollingStart && blocked {
        if !input.animation_playing {
            (PlayerState::Rolling, movement, direction)
        } else {
            (PlayerState::RollingStart, movement, direction)
        }
    } else if status == PlayerState::Rolling && blocked {
        (PlayerState::Rolling, movement, direction)
    } else if status == PlayerState::Rolling && !blocked {
        (PlayerState::RollingEnd, movement, direction)
    } else if status == PlayerState::RollingEnd {
        if !input.animation_playing {
            (PlayerState::Idle, movement, direction)
        } else {
            (PlayerState::RollingEnd, movement, direction)
        }
    } else if status == PlayerState::Jumping && blocked {
        if facing_right {
            (PlayerState::RollingStart, MovementDirection::Right, DirectionSource::ForcedRight)
        } else {
            (PlayerState::RollingStart, MovementDirection::Left, DirectionSource::ForcedLeft)
        }
    } else if status == PlayerState::Jumping && grab {
        (PlayerState::Grabbing, movement, direction)
    } else if status == PlayerState::Grabbing && !grab {
        (PlayerState::Jumping, movement, direction)
    } else if status == PlayerState::Releasing {
        (PlayerState::Releasing, movement, direction)
    } else if input.on_floor {
        match movement {
            MovementDirection::Neutral => (PlayerState::Idle, movement, direction),
            _ => if blocked {
                (PlayerState::RollingStart, movement, direction)
            } else {
                (PlayerState::Walking, movement, direction)
            },
        }
    } else {
        (PlayerState::Jumping, movement, direction)
    }
}

/// The animation shown in a state.
pub fn animation_of(status: PlayerState) -> (res: Animation)
    ensures
        res == spec_animation_of(status),
{
    match status {
        PlayerState::Idle => Animation::Default,
        PlayerState::Walking => Animation::Walk,
        PlayerState::Jumping => Animation::Jump,
        PlayerState::RollingStart => Animation::RollUpStart,
        PlayerState::Rolling => Animation::Rolling,
        PlayerState::RollingEnd => Animation::RollUpEnd,
        PlayerState::Grabbing => Animation::Jump,
        PlayerState::Holding => Animation::Jump,
        PlayerState::Releasing => Animation::Jump,
    }
}

/// The advanced player controller: walks, jumps, and rolls down slides.
pub struct PlayerAdvance {
    /// What the player is doing.
    pub status: PlayerState,
}

impl PlayerAdvance {
    /// A player that stands idle.
    pub fn new() -> (res: PlayerAdvance)
        ensures
            res.status == PlayerState::Idle,
    {
        PlayerAdvance { status: PlayerState::Idle }
    }

    /// Puts the player in the idle state when it enters the scene.
    pub fn ready(&mut self)
        ensures
            final(self).status == PlayerState::Idle,
    {
        self.status = PlayerState::Idle;
    }

    /// Decides a frame from what the engine reports and from the codes of
    /// the tiles around the player, and moves to the frame's state.
    pub fn process(&mut self, input: FrameInput, tiles: &Vec<i32>) -> (res: Frame)
        requires
            tiles_readable(input, tiles@),
        ensures
            res == spec_frame(old(self).status, input, tiles@),
            final(self).status == res.status,
    {
        let status = self.status;
        let vertical = vertical_move(status, input);
        let (movement, direction) = axis_movement(status, input);
        let flip = sprite_flip(movement);
        let facing_right = flipped_after(movement, input.sprite_flipped);
        let grab = detect_grab(input, tiles);
        let blocked = is_blocked(tiles);
        let (next, movement, direction) = transition(
            status, input, blocked, grab, movement, direction, facing_right);
        let frame = Frame {
            vertical: if grab { VerticalMove::Stop } else { vertical },
            movement,
            direction,
            flip,
            grab,
            blocked,
            status: next,
            animation: animation_of(next),
            horizontal: horizontal_move(movement),
        };
        self.status = next;
        frame
    }
}

/// No frame ever puts the player into the grabbing or the holding state.
pub proof fn lemma_grab_and_hold_never_entered(status: PlayerState, input: FrameInput, tiles: Seq<i32>)
    ensures
        spec_frame(status, input, tiles).status != PlayerState::Grabbing,
        spec_frame(status, input, tiles).status != PlayerState::Holding,
        !spec_frame(status, input, tiles).grab,
{
}

/// Once the player is releasing, it stays releasing.
pub proof fn lemma_releasing_is_absorbing(input: FrameInput, tiles: Seq<i32>)
    ensures
        spec_frame(PlayerState::Releasing, input, tiles).status == PlayerState::Releasing,
{
}

/// From a state reached by walking, jumping or rolling, a frame leads to such
/// a state again.
pub proof fn lemma_grounded_states_closed(status: PlayerState, input: FrameInput, tiles: Seq<i32>)
    requires
        is_grounded_state(status),
    ensures
        is_grounded_state(spec_frame(status, input, tiles).status),
{
}

/// A player that starts idle only ever walks, jumps, rolls or stands idle,
/// whatever frames follow.
pub proof fn lemma_run_from_idle_stays_grounded(frames: Seq<(FrameInput, Seq<i32>)>)
    ensures
        is_grounded_state(spec_run(PlayerState::Idle, frames)),
{
    lemma_run_stays_grounded(PlayerState::Idle, frames);
}

/// From a state reached by walking, jumping or rolling, any sequence of frames
/// leads to such a state.
pub proof fn lemma_run_stays_grounded(status: PlayerState, frames: Seq<(FrameInput, Seq<i32>)>)
    requires
        is_grounded_state(status),
    ensures
        is_grounded_state(spec_run(status, frames)),
    decreases frames.len(),
{
    if frames.len() > 0 {
        let next = spec_frame(status, frames[0].0, frames[0].1).status;
        lemma_grounded_states_closed(status, frames[0].0, frames[0].1);
        lemma_run_stays_grounded(next, frames.drop_first());
    }
}

/// A rolling player whose input axis rests keeps moving, driven at full speed
/// by the direction it kept.
pub proof fn lemma_roll_keeps_moving(status: PlayerState, input: FrameInput, tiles: Seq<i32>)
    requires
        is_rolling(status),
        input.axis == AxisReading::DeadZone,
    ensures
        spec_frame(status, input, tiles).movement != MovementDirection::Neutral,
        spec_frame(status, input, tiles).horizontal == HorizontalMove::Drive,
        spec_frame(status, input, tiles).direction == DirectionSource::Stored,
{
}

/// A jump that lands on a slide starts a roll at full speed the way the
/// sprite faces after this frame's flip.
pub proof fn lemma_jump_onto_slide_rolls(status: PlayerState, input: FrameInput, tiles: Seq<i32>)
    requires
        status == PlayerState::Jumping,
        spec_blocked(tiles),
    ensures
        spec_frame(status, input, tiles).status == PlayerState::RollingStart,
        spec_frame(status, input, tiles).horizontal == HorizontalMove::Drive,
        spec_flipped_after(spec_axis_movement(status, input).0, input.sprite_flipped) ==> {
            &&& spec_frame(status, input, tiles).movement == MovementDirection::Right
            &&& spec_frame(status, input, tiles).direction == DirectionSource::ForcedRight
        },
        !spec_flipped_after(spec_axis_movement(status, input).0, input.sprite_flipped) ==> {
            &&& spec_frame(status, input, tiles).movement == MovementDirection::Left
            &&& spec_frame(status, input, tiles).direction == DirectionSource::ForcedLeft
        },
{
}

/// A roll runs its course: the roll-up start turns into rolling once its
/// animation is over while the slide lasts, rolling ends when the slide does,
/// and the roll-up end turns idle once its animation is over.
pub proof fn lemma_roll_runs_its_course(input: FrameInput, tiles: Seq<i32>)
    ensures
        spec_blocked(tiles) && !input.animation_playing ==>
            spec_frame(PlayerState::RollingStart, input, tiles).status == PlayerState::Rolling,
        !spec_blocked(tiles) ==>
            spec_frame(PlayerState::Rolling, input, tiles).status == PlayerState::RollingEnd,
        !input.animation_playing ==>
            spec_frame(PlayerState::RollingEnd, input, tiles).status == PlayerState::Idle,
{
}

/// A jump starts only from the floor, and the frame's animation is always the
/// one of the frame's state.
pub proof fn lemma_jump_from_floor_and_animation(status: PlayerState, input: FrameInput, tiles: Seq<i32>)
    ensures
        spec_frame(status, input, tiles).vertical == VerticalMove::Jump ==> input.on_floor,
        spec_frame(status, input, tiles).animation == spec_animation_of(spec_frame(status, input, tiles).status),
{
}

/// Slide detection under the advanced player: a slide lies under the player
/// exactly when the code of the cell below (position 5) is the slide code 3.
pub proof fn lemma_blocked_reads_the_cell_below(tiles: Seq<i32>)
    requires
        tiles.len() >= 6,
    ensures
        spec_blocked(tiles) <==> tiles[5] == 3,
{
}

/// The vertical update, for every state: on the floor, jump pressed jumps and
/// otherwise the velocity is kept; in the air, a grabbing player that presses
/// jump stops, and every other player falls. A jump never starts in the air.
pub proof fn lemma_vertical_move_table(status: PlayerState, input: FrameInput)
    ensures
        input.on_floor && input.jump_pressed ==> spec_vertical_move(status, input) == VerticalMove::Jump,
        input.on_floor && !input.jump_pressed ==> spec_vertical_move(status, input) == VerticalMove::Keep,
        !input.on_floor && status == PlayerState::Grabbing && input.jump_pressed
            ==> spec_vertical_move(status, input) == VerticalMove::Stop,
        !input.on_floor && !(status == PlayerState::Grabbing && input.jump_pressed)
            ==> spec_vertical_move(status, input) == VerticalMove::Fall,
        spec_vertical_move(status, input) == VerticalMove::Jump <==> (input.on_floor && input.jump_pressed),
{
}

/// The direction read from the input axis: a pushed axis gives its own
/// direction and value; with the axis at rest, a player in any of the three
/// rolling states keeps rolling right when its kept direction is right and
/// left otherwise, using the kept value; any other player at rest is neutral.
pub proof fn lemma_axis_movement_table(status: PlayerState, input: FrameInput)
    ensures
        input.axis == AxisReading::Negative
            ==> spec_axis_movement(status, input) == (MovementDirection::Left, DirectionSource::Axis),
        input.axis == AxisReading::Positive
            ==> spec_axis_movement(status, input) == (MovementDirection::Right, DirectionSource::Axis),
        input.axis == AxisReading::DeadZone
            && (status == PlayerState::RollingStart || status == PlayerState::Rolling || status == PlayerState::RollingEnd)
            && input.stored_direction_is_right
            ==> spec_axis_movement(status, input) == (MovementDirection::Right, DirectionSource::Stored),
        input.axis == AxisReading::DeadZone
            && (status == PlayerState::RollingStart || status == PlayerState::Rolling || status == PlayerState::RollingEnd)
            && !input.stored_direction_is_right
            ==> spec_axis_movement(status, input) == (MovementDirection::Left, DirectionSource::Stored),
        input.axis == AxisReading::DeadZone
            && !(status == PlayerState::RollingStart || status == PlayerState::Rolling || status == PlayerState::RollingEnd)
            ==> spec_axis_movement(status, input) == (MovementDirection::Neutral, DirectionSource::Axis),
{
}

/// The rolling rules of the state machine: the roll-up start lasts on a slide
/// while its animation plays and then becomes rolling; rolling lasts on a
/// slide and ends off it; the roll-up end lasts while its animation plays and
/// then becomes idle. None of these changes the movement or direction.
pub proof fn lemma_transition_rolling_rules(
    status: PlayerState,
    input: FrameInput,
    blocked: bool,
    grab: bool,
    movement: MovementDirection,
    direction: DirectionSource,
    facing_right: bool,
)
    ensures
        status == PlayerState::RollingStart && blocked && input.animation_playing
            ==> spec_transition(status, input, blocked, grab, movement, direction, facing_right)
                == (PlayerState::RollingStart, movement, direction),
        status == PlayerState::RollingStart && blocked && !input.animation_playing
            ==> spec_transition(status, input, blocked, grab, movement, direction, facing_right)
                == (PlayerState::Rolling, movement, direction),
        status == PlayerState::Rolling && blocked
            ==> spec_transition(status, input, blocked, grab, movement, direction, facing_right)
                == (PlayerState::Rolling, movement, direction),
        status == PlayerState::Rolling && !blocked
            ==> spec_transition(status, input, blocked, grab, movement, direction, facing_right)
                == (PlayerState::RollingEnd, movement, direction),
        status == PlayerState::RollingEnd && input.animation_playing
            ==> spec_transition(status, input, blocked, grab, movement, direction, facing_right)
                == (PlayerState::RollingEnd, movement, direction),
        status == PlayerState::RollingEnd && !input.animation_playing
            ==> spec_transition(status, input, blocked, grab, movement, direction, facing_right)
                == (PlayerState::Idle, movement, direction),
{
}

/// The jumping, grabbing and releasing rules: a jump onto a slide starts a
/// roll right at full speed when the sprite faces right and left otherwise; a
/// jump onto a ledge (off a slide) grabs it; a grab without a ledge turns back
/// into a jump; releasing lasts. Only the slide rule changes the movement.
pub proof fn lemma_transition_jump_rules(
    status: PlayerState,
    input: FrameInput,
    blocked: bool,
    grab: bool,
    movement: MovementDirection,
    direction: DirectionSource,
    facing_right: bool,
)
    ensures
        status == PlayerState::Jumping && blocked && facing_right
            ==> spec_transition(status, input, blocked, grab, movement, direction, facing_right)
                == (PlayerState::RollingStart, MovementDirection::Right, DirectionSource::ForcedRight),
        status == PlayerState::Jumping && blocked && !facing_right
            ==> spec_transition(status, input, blocked, grab, movement, direction, facing_right)
                == (PlayerState::RollingStart, MovementDirection::Left, DirectionSource::ForcedLeft),
        status == PlayerState::Jumping && !blocked && grab
            ==> spec_transition(status, input, blocked, grab, movement, direction, facing_right)
                == (PlayerState::Grabbing, movement, direction),
        status == PlayerState::Grabbing && !grab
            ==> spec_transition(status, input, blocked, grab, movement, direction, facing_right)
                == (PlayerState::Jumping, movement, direction),
        status == PlayerState::Releasing
            ==> spec_transition(status, input, blocked, grab, movement, direction, facing_right)
                == (PlayerState::Releasing, movement, direction),
{
}

/// Whether none of the rolling, jumping, grabbing or releasing rules applies,
/// so that the floor decides the next state.
pub open spec fn floor_decides(status: PlayerState, blocked: bool, grab: bool) -> bool {
    &&& !(status == PlayerState::RollingStart && blocked)
    &&& status != PlayerState::Rolling
    &&& status != PlayerState::RollingEnd
    &&& !(status == PlayerState::Jumping && (blocked || grab))
    &&& !(status == PlayerState::Grabbing && !grab)
    &&& status != PlayerState::Releasing
}

/// The floor rules: where no rolling, jumping, grabbing or releasing rule
/// applies, a player on the floor is idle when it does not move, starts a roll
/// when it moves (either way) onto a slide, and walks when it moves elsewhere;
/// a player in the air is jumping. The movement and direction are kept.
pub proof fn lemma_transition_floor_rules(
    status: PlayerState,
    input: FrameInput,
    blocked: bool,
    grab: bool,
    movement: MovementDirection,
    direction: DirectionSource,
    facing_right: bool,
)
    requires
        floor_decides(status, blocked, grab),
    ensures
        input.on_floor && movement == MovementDirection::Neutral
            ==> spec_transition(status, input, blocked, grab, movement, direction, facing_right)
                == (PlayerState::Idle, movement, direction),
        input.on_floor && movement != MovementDirection::Neutral && blocked
            ==> spec_transition(status, input, blocked, grab, movement, direction, facing_right)
                == (PlayerState::RollingStart, movement, direction),
        input.on_floor && movement != MovementDirection::Neutral && !blocked
            ==> spec_transition(status, input, blocked, grab, movement, direction, facing_right)
                == (PlayerState::Walking, movement, direction),
        !input.on_floor
            ==> spec_transition(status, input, blocked, grab, movement, direction, facing_right)
                == (PlayerState::Jumping, movement, direction),
{
}

/// The animation of each state: idle shows the default animation, walking
/// the walk, the three rolling states their roll-up start, rolling and
/// roll-up end animations, and every jumping, grabbing, holding or releasing
/// player the jump.
pub proof fn lemma_animation_of_table(status: PlayerState)
    ensures
        status == PlayerState::Idle ==> spec_animation_of(status) == Animation::Default,
        status == PlayerState::Walking ==> spec_animation_of(status) == Animation::Walk,
        status == PlayerState::RollingStart ==> spec_animation_of(status) == Animation::RollUpStart,
        status == PlayerState::Rolling ==> spec_animation_of(status) == Animation::Rolling,
        status == PlayerState::RollingEnd ==> spec_animation_of(status) == Animation::RollUpEnd,
        (status == PlayerState::Jumping || status == PlayerState::Grabbing
            || status == PlayerState::Holding || status == PlayerState::Releasing)
            ==> spec_animation_of(status) == Animation::Jump,
{
}

/// A player that is in the air and to which no rolling, grabbing or
/// releasing rule applies (any state but the three rolling states, grabbing
/// and releasing, and no slide under a jumping player) is jumping after the
/// frame and shows the jump animation; its sprite and speed follow the axis.
pub proof fn lemma_airborne_frame_jumps(status: PlayerState, input: FrameInput, tiles: Seq<i32>)
    requires
        !input.on_floor,
        status != PlayerState::RollingStart,
        status != PlayerState::Rolling,
        status != PlayerState::RollingEnd,
        status != PlayerState::Grabbing,
        status != PlayerState::Releasing,
        status != PlayerState::Jumping || tiles[5] != 3,
    ensures
        spec_frame(status, input, tiles).status == PlayerState::Jumping,
        spec_frame(status, input, tiles).animation == Animation::Jump,
        spec_frame(status, input, tiles).vertical == VerticalMove::Fall,
        input.axis == AxisReading::DeadZone ==> {
            &&& spec_frame(status, input, tiles).movement == MovementDirection::Neutral
            &&& spec_frame(status, input, tiles).horizontal == HorizontalMove::Decelerate
            &&& spec_frame(status, input, tiles).flip == None::<bool>
        },
        input.axis == AxisReading::Positive ==> {
            &&& spec_frame(status, input, tiles).movement == MovementDirection::Right
            &&& spec_frame(status, input, tiles).horizontal == HorizontalMove::Drive
            &&& spec_frame(status, input, tiles).flip == Some(true)
        },
        input.axis == AxisReading::Negative ==> {
            &&& spec_frame(status, input, tiles).movement == MovementDirection::Left
            &&& spec_frame(status, input, tiles).horizontal == HorizontalMove::Drive
            &&& spec_frame(status, input, tiles).flip == Some(false)
        },
{
}

/// A player on the floor to which no rolling or releasing rule applies (idle,
/// walking, jumping without a slide under it, holding) stands idle when the
/// axis rests, starts a roll when it pushes either way onto a slide, and walks
/// when it pushes either way elsewhere, with the matching animation; with jump
/// pressed it jumps.
pub proof fn lemma_grounded_frame_walks_or_rolls(status: PlayerState, input: FrameInput, tiles: Seq<i32>)
    requires
        input.on_floor,
        status == PlayerState::Idle || status == PlayerState::Walking || status == PlayerState::Holding
            || (status == PlayerState::Jumping && tiles[5] != 3),
    ensures
        input.jump_pressed ==> spec_frame(status, input, tiles).vertical == VerticalMove::Jump,
        input.axis == AxisReading::DeadZone ==> {
            &&& spec_frame(status, input, tiles).status == PlayerState::Idle
            &&& spec_frame(status, input, tiles).animation == Animation::Default
        },
        input.axis != AxisReading::DeadZone && tiles[5] == 3 ==> {
            &&& spec_frame(status, input, tiles).status == PlayerState::RollingStart
            &&& spec_frame(status, input, tiles).animation == Animation::RollUpStart
        },
        input.axis != AxisReading::DeadZone && tiles[5] != 3 ==> {
            &&& spec_frame(status, input, tiles).status == PlayerState::Walking
            &&& spec_frame(status, input, tiles).animation == Animation::Walk
        },
{
}

} // verus!
