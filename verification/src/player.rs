use vstd::prelude::*;
use crate::motion::{
    AxisReading, MovementDirection, VerticalMove, HorizontalMove, Animation,
    spec_movement_from_axis, movement_from_axis, spec_sprite_flip, sprite_flip,
    spec_horizontal_move, horizontal_move,
};
use crate::tile_map_rules::SLIDE_TILE_CODE;

verus! {

/// What the basic player is doing.
#[derive(Clone, Copy, Debug, PartialEq, Eq, Structural)]
pub enum PlayerState {
    Idle,
    Walking,
    Jumping,
    RollingStart,
    Rolling,
    RollingEnd,
}

impl Default for PlayerState {
    fn default() -> (res: Self)
        ensures
            res == PlayerState::Idle,
    {
        PlayerState::Idle
    }
}

/// What the engine reports to the basic player at the start of a frame.
#[derive(Clone, Copy, Debug)]
pub struct FrameInput {
    /// Whether the body stands on the floor.
    pub on_floor: bool,
    /// Whether the jump action is held.
    pub jump_pressed: bool,
    /// Where the horizontal input axis stands.
    pub axis: AxisReading,
}

/// What the basic player decides in a frame, for the engine to carry out.
#[derive(Clone, Copy, Debug)]
pub struct Frame {
    /// How the vertical velocity changes.
    pub vertical: VerticalMove,
    /// The direction the player moves in.
    pub movement: MovementDirection,
    /// The horizontal flip the sprite is given, if any.
    pub flip: Option<bool>,
    /// Whether a slide tile lies beside the player.
    pub blocked: bool,
    /// The animation to play.
    pub animation: Animation,
    /// How the horizontal velocity changes.
    pub horizontal: HorizontalMove,
}

/// Whether the tile codes beside the player can be read: the cell to the left
/// is read first, and the cell to the right only when the left one is not a
/// slide tile.
pub open spec fn tiles_readable(tiles: Seq<i32>) -> bool {
    &&& tiles.len() >= 2
    &&& tiles[1] != SLIDE_TILE_CODE ==> tiles.len() >= 4
}

/// Whether a slide tile lies to the left or to the right of the player.
pub open spec fn spec_blocked(tiles: Seq<i32>) -> bool {
    tiles[1] == SLIDE_TILE_CODE || tiles[3] == SLIDE_TILE_CODE
}

/// The vertical update: a jump starts only from the floor; in the air the
/// body falls.
pub open spec fn spec_vertical_move(on_floor: bool, jump_pressed: bool) -> VerticalMove {
    if on_floor {
        if jump_pressed {
            VerticalMove::Jump
        } else {
            VerticalMove::Keep
        }
    } else {
        VerticalMove::Fall
    }
}

/// The animation: on the floor, standing still shows the default animation,
/// moving shows the roll-up start beside a slide tile and the walk elsewhere;
/// in the air the jump animation shows.
pub open spec fn spec_animation(on_floor: bool, movement: MovementDirection, blocked: bool) -> Animation {
    if on_floor {
        match movement {
            MovementDirection::Neutral => Animation::Default,
            _ => if blocked {
                Animation::RollUpStart
            } else {
                Animation::Walk
            },
        }
    } else {
        Animation::Jump
    }
}

/// Everything the basic player decides in a frame.
pub open spec fn spec_frame(input: FrameInput, tiles: Seq<i32>) -> Frame {
    let movement = spec_movement_from_axis(input.axis);
    let blocked = spec_blocked(tiles);
    Frame {
        vertical: spec_vertical_move(input.on_floor, input.jump_pressed),
        movement,
        flip: spec_sprite_flip(movement),
        blocked,
        animation: spec_animation(input.on_floor, movement, blocked),
        horizontal: spec_horizontal_move(movement),
    }
}

/// Whether the tile codes beside the player can be read.
pub fn tiles_are_readable(tiles: &Vec<i32>) -> (res: bool)
    ensures
        res == tiles_readable(tiles@),
{
    tiles.len() >= 4 || (tiles.len() >= 2 && tiles[1] == SLIDE_TILE_CODE)
}

/// Whether a slide tile lies to the left or to the right of the player.
pub fn is_blocked(tiles: &Vec<i32>) -> (res: bool)
    requires
        tiles_readable(tiles@),
    ensures
        res == spec_blocked(tiles@),
{
    tiles[1] == SLIDE_TILE_CODE || tiles[3] == SLIDE_TILE_CODE
}

/// The vertical update of a frame.
pub fn vertical_move(on_floor: bool, jump_pressed: bool) -> (res: VerticalMove)
    ensures
        res == spec_vertical_move(on_floor, jump_pressed),
{
    if on_floor {
        if jump_pressed {
            VerticalMove::Jump
        } else {
            VerticalMove::Keep
        }
    } else {
        VerticalMove::Fall
    }
}

/// The animation of a frame.
pub fn choose_animation(on_floor: bool, movement: MovementDirection, blocked: bool) -> (res: Animation)
    ensures
        res == spec_animation(on_floor, movement, blocked),
{
    if on_floor {
        match movement {
            MovementDirection::Neutral => Animation::Default,
            _ => if blocked {
                Animation::RollUpStart
            } else {
                Animation::Walk
            },
        }
    } else {
        Animation::Jump
    }
}

/// The basic player controller.
pub struct Player {
    /// What the player is doing.
    pub status: PlayerState,
}

impl Player {
    /// A player that stands idle.
    pub fn new() -> (res: Player)
        ensures
            res.status == PlayerState::Idle,
    {
        Player { status: PlayerState::Idle }
    }

    /// Puts the player in the idle state when it enters the scene.
    pub fn ready(&mut self)
        ensures
            final(self).status == PlayerState::Idle,
    {
        self.status = PlayerState::Idle;
    }

    /// Decides a frame from what the engine reports and from the codes of
    /// the tiles around the player.
    pub fn process(&self, input: FrameInput, tiles: &Vec<i32>) -> (res: Frame)
        requires
            tiles_readable(tiles@),
        ensures
            res == spec_frame(input, tiles@),
    {
        let movement = movement_from_axis(input.axis);
        let blocked = is_blocked(tiles);
        Frame {
            vertical: vertical_move(input.on_floor, input.jump_pressed),
            movement,
            flip: sprite_flip(movement),
            blocked,
            animation: choose_animation(input.on_floor, movement, blocked),
            horizontal: horizontal_move(movement),
        }
    }
}

/// The basic player only jumps from the floor, and while it moves it is
/// driven at full speed with its sprite facing the way it moves.
pub proof fn lemma_basic_frame_laws(input: FrameInput, tiles: Seq<i32>)
    ensures
        spec_frame(input, tiles).vertical == VerticalMove::Jump ==> input.on_floor,
        spec_frame(input, tiles).movement != MovementDirection::Neutral ==> {
            &&& spec_frame(input, tiles).horizontal == HorizontalMove::Drive
            &&& spec_frame(input, tiles).flip == Some(spec_frame(input, tiles).movement == MovementDirection::Right)
        },
        spec_frame(input, tiles).movement == MovementDirection::Neutral ==> {
            &&& spec_frame(input, tiles).horizontal == HorizontalMove::Decelerate
            &&& spec_frame(input, tiles).flip == None::<bool>
        },
{
}

/// Slide detection beside the basic player: a slide lies beside the player
/// exactly when the code of the cell to the left (position 1) or to the right
/// (position 3) is the slide code 3; either side alone suffices, whatever the
/// other codes are.
pub proof fn lemma_blocked_reads_both_sides(tiles: Seq<i32>)
    requires
        tiles.len() >= 4,
    ensures
        spec_blocked(tiles) <==> (tiles[1] == 3 || tiles[3] == 3),
        tiles[1] == 3 ==> spec_blocked(tiles),
        tiles[3] == 3 ==> spec_blocked(tiles),
        tiles[1] != 3 && tiles[3] != 3 ==> !spec_blocked(tiles),
{
}

/// The basic vertical update: on the floor, jump pressed jumps and otherwise
/// the velocity is kept; in the air the body always falls. A jump starts
/// exactly when the player is on the floor with jump pressed.
pub proof fn lemma_basic_vertical_move_table(on_floor: bool, jump_pressed: bool)
    ensures
        on_floor && jump_pressed ==> spec_vertical_move(on_floor, jump_pressed) == VerticalMove::Jump,
        on_floor && !jump_pressed ==> spec_vertical_move(on_floor, jump_pressed) == VerticalMove::Keep,
        !on_floor ==> spec_vertical_move(on_floor, jump_pressed) == VerticalMove::Fall,
        spec_vertical_move(on_floor, jump_pressed) == VerticalMove::Jump <==> (on_floor && jump_pressed),
{
}

/// The basic animation: in the air the jump shows; on the floor, standing
/// still shows the default animation, and moving, left or right alike, shows
/// the roll-up start beside a slide and the walk elsewhere.
pub proof fn lemma_basic_animation_table(on_floor: bool, movement: MovementDirection, blocked: bool)
    ensures
        !on_floor ==> spec_animation(on_floor, movement, blocked) == Animation::Jump,
        on_floor && movement == MovementDirection::Neutral
            ==> spec_animation(on_floor, movement, blocked) == Animation::Default,
        on_floor && movement != MovementDirection::Neutral && blocked
            ==> spec_animation(on_floor, movement, blocked) == Animation::RollUpStart,
        on_floor && movement != MovementDirection::Neutral && !blocked
            ==> spec_animation(on_floor, movement, blocked) == Animation::Walk,
        spec_animation(on_floor, MovementDirection::Left, blocked)
            == spec_animation(on_floor, MovementDirection::Right, blocked),
{
}

/// A basic frame on the floor with the axis pushed either way shows the
/// roll-up start exactly when a slide tile (code 3) lies to the left or the
/// right, and the walk otherwise; in the air it shows the jump.
pub proof fn lemma_basic_frame_animation(input: FrameInput, tiles: Seq<i32>)
    requires
        tiles.len() >= 4,
    ensures
        input.on_floor && input.axis != AxisReading::DeadZone && (tiles[1] == 3 || tiles[3] == 3)
            ==> spec_frame(input, tiles).animation == Animation::RollUpStart,
        input.on_floor && input.axis != AxisReading::DeadZone && !(tiles[1] == 3 || tiles[3] == 3)
            ==> spec_frame(input, tiles).animation == Animation::Walk,
        input.on_floor && input.axis == AxisReading::DeadZone
            ==> spec_frame(input, tiles).animation == Animation::Default,
        !input.on_floor ==> spec_frame(input, tiles).animation == Animation::Jump,
        spec_frame(input, tiles).blocked <==> (tiles[1] == 3 || tiles[3] == 3),
{
}

} // verus!
