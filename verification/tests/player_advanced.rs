use platformer_rules::motion::{
    Animation, AxisReading, HorizontalMove, MovementDirection, VerticalMove,
};
use platformer_rules::player_advanced::{
    animation_of, axis_movement, detect_grab, is_blocked, rolling, tiles_are_readable, transition,
    vertical_move,
    DirectionSource, FrameInput, PlayerAdvance, PlayerState,
};

fn base() -> FrameInput {
    FrameInput {
        on_floor: true,
        jump_pressed: false,
        axis: AxisReading::DeadZone,
        stored_direction_is_right: false,
        sprite_flipped: false,
        animation_playing: false,
        descending: true,
    }
}

fn tiles(under: i32) -> Vec<i32> {
    vec![0, 0, 0, 0, 0, under, 0, 0, 0, 0, 0, 0]
}

const ALL: [PlayerState; 9] = [
    PlayerState::Idle,
    PlayerState::Walking,
    PlayerState::Jumping,
    PlayerState::RollingStart,
    PlayerState::Rolling,
    PlayerState::RollingEnd,
    PlayerState::Grabbing,
    PlayerState::Holding,
    PlayerState::Releasing,
];

#[test]
fn advanced_default_and_ready() {
    assert_eq!(PlayerState::default(), PlayerState::Idle);
    let mut player = PlayerAdvance { status: PlayerState::Releasing };
    player.ready();
    assert_eq!(player.status, PlayerState::Idle);
    assert_eq!(PlayerAdvance::new().status, PlayerState::Idle);
}

#[test]
fn grab_is_never_reported() {
    let mut input = base();
    assert!(!detect_grab(input, &vec![-33, 1, 0, 0, 0, 0, 0, 0, 0, 0, 1, -33]));
    assert!(!detect_grab(input, &vec![-33, 1, 0, 0, 0, 0]));
    input.descending = false;
    assert!(!detect_grab(input, &vec![0, 0, 0, 0, 0, 0]));
}

#[test]
fn advanced_blocked_reads_below() {
    assert!(is_blocked(&tiles(3)));
    assert!(!is_blocked(&tiles(1)));
    assert!(rolling(PlayerState::Rolling));
    assert!(!rolling(PlayerState::Walking));
}

#[test]
fn advanced_vertical() {
    let mut input = base();
    input.jump_pressed = true;
    assert_eq!(vertical_move(PlayerState::Grabbing, input), VerticalMove::Jump);
    input.on_floor = false;
    assert_eq!(vertical_move(PlayerState::Grabbing, input), VerticalMove::Stop);
    assert_eq!(vertical_move(PlayerState::Jumping, input), VerticalMove::Fall);
    input.jump_pressed = false;
    assert_eq!(vertical_move(PlayerState::Grabbing, input), VerticalMove::Fall);
}

#[test]
fn axis_movement_keeps_rolling() {
    let mut input = base();
    assert_eq!(
        axis_movement(PlayerState::Walking, input),
        (MovementDirection::Neutral, DirectionSource::Axis)
    );
    assert_eq!(
        axis_movement(PlayerState::Rolling, input),
        (MovementDirection::Left, DirectionSource::Stored)
    );
    input.stored_direction_is_right = true;
    assert_eq!(
        axis_movement(PlayerState::RollingEnd, input),
        (MovementDirection::Right, DirectionSource::Stored)
    );
    input.axis = AxisReading::Negative;
    assert_eq!(
        axis_movement(PlayerState::RollingEnd, input),
        (MovementDirection::Left, DirectionSource::Axis)
    );
}

#[test]
fn transition_table() {
    let m = MovementDirection::Neutral;
    let d = DirectionSource::Axis;
    let mut input = base();
    input.animation_playing = true;
    assert_eq!(transition(PlayerState::RollingStart, input, true, false, m, d, false).0, PlayerState::RollingStart);
    assert_eq!(transition(PlayerState::RollingEnd, input, false, false, m, d, false).0, PlayerState::RollingEnd);
    input.animation_playing = false;
    assert_eq!(transition(PlayerState::RollingStart, input, true, false, m, d, false).0, PlayerState::Rolling);
    assert_eq!(transition(PlayerState::RollingEnd, input, false, false, m, d, false).0, PlayerState::Idle);
    assert_eq!(transition(PlayerState::Rolling, input, true, false, m, d, false).0, PlayerState::Rolling);
    assert_eq!(transition(PlayerState::Rolling, input, false, false, m, d, false).0, PlayerState::RollingEnd);
    assert_eq!(
        transition(PlayerState::Jumping, input, true, false, m, d, true),
        (PlayerState::RollingStart, MovementDirection::Right, DirectionSource::ForcedRight)
    );
    assert_eq!(
        transition(PlayerState::Jumping, input, true, false, m, d, false),
        (PlayerState::RollingStart, MovementDirection::Left, DirectionSource::ForcedLeft)
    );
    assert_eq!(transition(PlayerState::Jumping, input, false, true, m, d, false).0, PlayerState::Grabbing);
    assert_eq!(transition(PlayerState::Grabbing, input, false, false, m, d, false).0, PlayerState::Jumping);
    assert_eq!(transition(PlayerState::Releasing, input, false, false, m, d, false).0, PlayerState::Releasing);
    assert_eq!(transition(PlayerState::Holding, input, false, false, m, d, false).0, PlayerState::Idle);
    assert_eq!(
        transition(PlayerState::Walking, input, true, false, MovementDirection::Left, d, false).0,
        PlayerState::RollingStart
    );
    assert_eq!(
        transition(PlayerState::Idle, input, false, false, MovementDirection::Left, d, false).0,
        PlayerState::Walking
    );
    input.on_floor = false;
    assert_eq!(transition(PlayerState::Idle, input, false, false, m, d, false).0, PlayerState::Jumping);
}

#[test]
fn animations_follow_states() {
    assert_eq!(animation_of(PlayerState::Idle), Animation::Default);
    assert_eq!(animation_of(PlayerState::Walking), Animation::Walk);
    assert_eq!(animation_of(PlayerState::RollingStart), Animation::RollUpStart);
    assert_eq!(animation_of(PlayerState::Rolling), Animation::Rolling);
    assert_eq!(animation_of(PlayerState::RollingEnd), Animation::RollUpEnd);
    for s in [PlayerState::Jumping, PlayerState::Grabbing, PlayerState::Holding, PlayerState::Releasing] {
        assert_eq!(animation_of(s), Animation::Jump);
    }
    for s in ALL {
        assert!(!animation_of(s).name().is_empty());
    }
}

#[test]
fn jump_onto_slide_rolls_the_way_the_sprite_faces() {
    let mut player = PlayerAdvance { status: PlayerState::Jumping };
    let mut input = base();
    input.on_floor = false;
    input.sprite_flipped = true;
    let frame = player.process(input, &tiles(3));
    assert_eq!(frame.status, PlayerState::RollingStart);
    assert_eq!(player.status, PlayerState::RollingStart);
    assert_eq!(frame.movement, MovementDirection::Right);
    assert_eq!(frame.direction, DirectionSource::ForcedRight);
    assert_eq!(frame.horizontal, HorizontalMove::Drive);
    assert_eq!(frame.animation, Animation::RollUpStart);
    assert_eq!(frame.vertical, VerticalMove::Fall);
    assert_eq!(frame.flip, None);

    // pushing left this frame flips the sprite first, so the roll goes left
    let mut player = PlayerAdvance { status: PlayerState::Jumping };
    input.axis = AxisReading::Negative;
    let frame = player.process(input, &tiles(3));
    assert_eq!(frame.flip, Some(false));
    assert_eq!(frame.movement, MovementDirection::Left);
    assert_eq!(frame.direction, DirectionSource::ForcedLeft);
}

#[test]
fn a_roll_runs_its_course() {
    let mut player = PlayerAdvance::new();
    let mut input = base();
    input.axis = AxisReading::Positive;
    let f = player.process(input, &tiles(3));
    assert_eq!(f.status, PlayerState::RollingStart);
    input.axis = AxisReading::DeadZone;
    input.stored_direction_is_right = true;
    input.animation_playing = true;
    let f = player.process(input, &tiles(3));
    assert_eq!(f.status, PlayerState::RollingStart);
    assert_eq!(f.movement, MovementDirection::Right);
    assert_eq!(f.direction, DirectionSource::Stored);
    input.animation_playing = false;
    let f = player.process(input, &tiles(3));
    assert_eq!(f.status, PlayerState::Rolling);
    assert_eq!(f.animation, Animation::Rolling);
    let f = player.process(input, &tiles(0));
    assert_eq!(f.status, PlayerState::RollingEnd);
    input.animation_playing = true;
    let f = player.process(input, &tiles(0));
    assert_eq!(f.status, PlayerState::RollingEnd);
    assert_eq!(f.horizontal, HorizontalMove::Drive);
    input.animation_playing = false;
    let f = player.process(input, &tiles(0));
    assert_eq!(f.status, PlayerState::Idle);
    assert_eq!(f.animation, Animation::Default);
}

#[test]
fn releasing_stays_and_grab_states_are_never_entered() {
    let mut input = base();
    for on_floor in [true, false] {
        for axis in [AxisReading::Negative, AxisReading::DeadZone, AxisReading::Positive] {
            for under in [0, 3] {
                input.on_floor = on_floor;
                input.axis = axis;
                let mut player = PlayerAdvance { status: PlayerState::Releasing };
                assert_eq!(player.process(input, &tiles(under)).status, PlayerState::Releasing);
                for s in ALL {
                    let mut player = PlayerAdvance { status: s };
                    let f = player.process(input, &tiles(under));
                    assert!(f.status != PlayerState::Grabbing && f.status != PlayerState::Holding);
                    assert!(!f.grab);
                    if s != PlayerState::Grabbing && s != PlayerState::Holding && s != PlayerState::Releasing {
                        assert!(f.status != PlayerState::Releasing);
                    }
                }
            }
        }
    }
}

#[test]
fn grabbing_player_that_jumps_stops_and_falls_back_to_jumping() {
    let mut player = PlayerAdvance { status: PlayerState::Grabbing };
    let mut input = base();
    input.on_floor = false;
    input.jump_pressed = true;
    let f = player.process(input, &tiles(0));
    assert_eq!(f.vertical, VerticalMove::Stop);
    assert_eq!(f.status, PlayerState::Jumping);
}

#[test]
fn advanced_tiles_readable() {
    let mut input = base();
    assert!(tiles_are_readable(input, &tiles(0)));
    assert!(!tiles_are_readable(input, &vec![0, 0, 0, 0, 0, 0]));
    assert!(tiles_are_readable(input, &vec![-33, 1, 0, 0, 0, 0]));
    assert!(tiles_are_readable(input, &vec![0, 0, 0, 0, 0, 0, 0, 0, 0, 0, 0]));
    assert!(!tiles_are_readable(input, &vec![0, 0, 0, 0, 0, 0, 0, 0, 0, 0, 1]));
    input.descending = false;
    assert!(tiles_are_readable(input, &vec![0, 0, 0, 0, 0, 0]));
    assert!(!tiles_are_readable(input, &vec![0, 0, 0, 0, 0]));
}
