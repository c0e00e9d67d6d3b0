use volleyball::systems::player::move_player;
use volleyball::{Config, Input, Player, PlayerSystem, Side, Vec2, Volleyball};

fn axes(left: Option<i64>, right: Option<i64>) -> Input {
    Input { left_player: left, right_player: right }
}

#[test]
fn axis_value_is_keyed_by_side() {
    let input = axes(Some(250_000), None);
    assert_eq!(input.axis_value(Side::Left), Some(250_000));
    assert_eq!(input.axis_value(Side::Right), None);
}

#[test]
fn paddles_move_by_speed_times_axis_times_duration() {
    let mut game = Volleyball::new();
    PlayerSystem.run(&mut game, &axes(Some(1_000_000), Some(-500_000)), 100_000);
    // 120 * 1 * 0.1 = 12 to the right; 120 * -0.5 * 0.1 = 6 to the left
    assert_eq!(game.left_position, Vec2 { x: 32_000_000, y: 17_000_000 });
    assert_eq!(game.right_position, Vec2 { x: 474_000_000, y: 17_000_000 });
}

#[test]
fn movement_touches_nothing_but_the_paddles() {
    let before = Volleyball::new();
    let mut game = before;
    PlayerSystem.run(&mut game, &axes(Some(1_000_000), Some(-1_000_000)), 16_667);
    assert_eq!(game.left_position.x, 20_000_000 + 2_000_040);
    assert_eq!(game.right_position.x, 480_000_000 - 2_000_040);
    let mut expected = before;
    expected.left_position = game.left_position;
    expected.right_position = game.right_position;
    assert_eq!(game, expected);
}

#[test]
fn left_paddle_is_clamped_to_its_half() {
    let mut game = Volleyball::new();
    PlayerSystem.run(&mut game, &axes(Some(-1_000_000), None), 1_000_000);
    assert_eq!(game.left_position.x, 20_000_000);
    PlayerSystem.run(&mut game, &axes(Some(1_000_000), None), 10_000_000);
    assert_eq!(game.left_position.x, 230_000_000);
}

#[test]
fn right_paddle_is_clamped_to_its_half() {
    let mut game = Volleyball::new();
    PlayerSystem.run(&mut game, &axes(None, Some(1_000_000)), 1_000_000);
    assert_eq!(game.right_position.x, 480_000_000);
    PlayerSystem.run(&mut game, &axes(None, Some(-1_000_000)), 10_000_000);
    assert_eq!(game.right_position.x, 270_000_000);
}

#[test]
fn zero_axis_and_missing_axis_leave_the_paddle() {
    let mut game = Volleyball::new();
    game.left_position.x = 5_000_000;
    game.right_position.x = 100_000_000;
    let before = game;
    PlayerSystem.run(&mut game, &axes(Some(0), None), 1_000_000);
    assert_eq!(game, before);
    PlayerSystem.run(&mut game, &axes(None, Some(0)), 1_000_000);
    assert_eq!(game, before);
}

#[test]
fn any_nonzero_axis_brings_a_stray_paddle_into_its_half() {
    let mut game = Volleyball::new();
    game.left_position.x = 5_000_000;
    game.right_position.x = 100_000_000;
    // the displacement rounds to nothing, the clamp still holds
    PlayerSystem.run(&mut game, &axes(Some(1), Some(-1)), 1);
    assert_eq!(game.left_position.x, 20_000_000);
    assert_eq!(game.right_position.x, 270_000_000);
}

#[test]
fn paddle_stays_in_range_for_extreme_input() {
    let extremes = [i64::MIN, -1_000_000, -1, 1, 1_000_000, i64::MAX];
    for amount in extremes {
        for dt in extremes {
            let mut game = Volleyball::new();
            PlayerSystem.run(&mut game, &axes(Some(amount), Some(amount)), dt);
            assert!(20_000_000 <= game.left_position.x && game.left_position.x <= 230_000_000);
            assert!(270_000_000 <= game.right_position.x && game.right_position.x <= 480_000_000);
        }
    }
}

#[test]
fn move_player_on_its_own() {
    let config = Config::default();
    let player = Player { side: Side::Right, width: 44_000_000, height: 64_000_000 };
    let mut position = Vec2 { x: 300_000_000, y: 32_000_000 };
    move_player(&config, &player, &mut position, Some(-250_000), 500_000);
    // 120 * -0.25 * 0.5 = -15
    assert_eq!(position, Vec2 { x: 285_000_000, y: 32_000_000 });
    move_player(&config, &player, &mut position, Some(-1_000_000), 500_000);
    // 285 - 60 = 225, raised to 250 + 22
    assert_eq!(position, Vec2 { x: 272_000_000, y: 32_000_000 });
    move_player(&config, &player, &mut position, Some(1_000_000), 5_000_000);
    assert_eq!(position, Vec2 { x: 478_000_000, y: 32_000_000 });
    move_player(&config, &player, &mut position, None, 5_000_000);
    assert_eq!(position, Vec2 { x: 478_000_000, y: 32_000_000 });
}

#[test]
fn paddle_wider_than_its_half_ends_at_the_upper_bound() {
    let config = Config::default();
    let player = Player { side: Side::Left, width: 300_000_000, height: 34_000_000 };
    let mut position = Vec2 { x: 0, y: 17_000_000 };
    move_player(&config, &player, &mut position, Some(1_000_000), 1_000_000);
    // raised to 150, then lowered to 250 - 150
    assert_eq!(position.x, 100_000_000);
}
