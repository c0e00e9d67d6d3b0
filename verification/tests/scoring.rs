use volleyball::{ScoreBoard, ScoreUpdate, Side, Vec2, Volleyball, WinnerSystem};

fn game_with_ball(x: i64, y: i64, vx: i64, vy: i64) -> Volleyball {
    let mut game = Volleyball::new();
    game.ball_position = Vec2 { x, y };
    game.ball.velocity = Vec2 { x: vx, y: vy };
    game
}

#[test]
fn ball_on_the_floor_at_the_middle_scores_for_player_one() {
    // ball at (250, 3): not strictly left of 250
    for vx in [-60_000_000, 0, 60_000_000] {
        let mut game = game_with_ball(250_000_000, 3_000_000, vx, -40_000_000);
        let update = WinnerSystem.run(&mut game);
        assert_eq!(
            update,
            Some(ScoreUpdate { scorer: Side::Left, points: 1, text: String::from("1") })
        );
        assert_eq!(game.score, ScoreBoard { player_1: 1, player_2: 0 });
        assert_eq!(game.ball_position, Vec2 { x: 250_000_000, y: 250_000_000 });
        assert_eq!(game.ball.velocity, Vec2 { x: -vx, y: 0 });
    }
}

#[test]
fn ball_on_the_floor_left_of_the_middle_scores_for_player_two() {
    let mut game = game_with_ball(249_999_999, 3_000_000, -60_000_000, -40_000_000);
    let update = WinnerSystem.run(&mut game);
    assert_eq!(
        update,
        Some(ScoreUpdate { scorer: Side::Right, points: 1, text: String::from("1") })
    );
    assert_eq!(game.score, ScoreBoard { player_1: 0, player_2: 1 });
    assert_eq!(game.ball_position, Vec2 { x: 250_000_000, y: 250_000_000 });
    assert_eq!(game.ball.velocity, Vec2 { x: 60_000_000, y: 0 });
}

#[test]
fn floor_edge_is_inclusive() {
    let mut on = game_with_ball(100_000_000, 4_000_000, 1, -1);
    assert!(WinnerSystem.run(&mut on).is_some());
    let mut off = game_with_ball(100_000_000, 4_000_001, 1, -1);
    let before = off;
    assert_eq!(WinnerSystem.run(&mut off), None);
    assert_eq!(off, before);
    let mut below = game_with_ball(100_000_000, -50_000_000, 1, -1);
    assert!(WinnerSystem.run(&mut below).is_some());
}

#[test]
fn rising_ball_on_the_floor_scores_too() {
    let mut game = game_with_ball(400_000_000, 2_000_000, 5, 70_000_000);
    let update = WinnerSystem.run(&mut game).unwrap();
    assert_eq!(update.scorer, Side::Left);
    assert_eq!(game.ball.velocity, Vec2 { x: -5, y: 0 });
}

#[test]
fn scoring_touches_nothing_but_ball_and_score() {
    let mut before = game_with_ball(10_000_000, 0, 60_000_000, -80_000_000);
    before.ball_rotation = 1_234_567;
    before.left_position.x = 111_000_000;
    let mut game = before;
    WinnerSystem.run(&mut game);
    let mut expected = before;
    expected.score.player_2 = 1;
    expected.ball_position = Vec2 { x: 250_000_000, y: 250_000_000 };
    expected.ball.velocity = Vec2 { x: -60_000_000, y: 0 };
    assert_eq!(game, expected);
    assert_eq!(game.ball_rotation, 1_234_567);
}

#[test]
fn score_text_has_two_digits_from_ten_on() {
    let mut game = game_with_ball(300_000_000, 1_000_000, 1, -1);
    game.score = ScoreBoard { player_1: 9, player_2: 41 };
    let update = WinnerSystem.run(&mut game).unwrap();
    assert_eq!(update, ScoreUpdate { scorer: Side::Left, points: 10, text: String::from("10") });
    game.ball_position = Vec2 { x: 200_000_000, y: 1_000_000 };
    let update = WinnerSystem.run(&mut game).unwrap();
    assert_eq!(update, ScoreUpdate { scorer: Side::Right, points: 42, text: String::from("42") });
    assert_eq!(game.score, ScoreBoard { player_1: 10, player_2: 42 });
}

#[test]
fn counter_at_ninety_nine_stays() {
    let mut game = game_with_ball(300_000_000, 1_000_000, 60_000_000, -1);
    game.score = ScoreBoard { player_1: 99, player_2: 98 };
    let update = WinnerSystem.run(&mut game).unwrap();
    assert_eq!(update, ScoreUpdate { scorer: Side::Left, points: 99, text: String::from("99") });
    assert_eq!(game.score, ScoreBoard { player_1: 99, player_2: 98 });
    // the ball restarts all the same
    assert_eq!(game.ball_position, Vec2 { x: 250_000_000, y: 250_000_000 });
    assert_eq!(game.ball.velocity, Vec2 { x: -60_000_000, y: 0 });
    game.ball_position = Vec2 { x: 200_000_000, y: 1_000_000 };
    let update = WinnerSystem.run(&mut game).unwrap();
    assert_eq!(update, ScoreUpdate { scorer: Side::Right, points: 99, text: String::from("99") });
    game.ball_position = Vec2 { x: 200_000_000, y: 1_000_000 };
    let update = WinnerSystem.run(&mut game).unwrap();
    assert_eq!(update.points, 99);
    assert_eq!(game.score, ScoreBoard { player_1: 99, player_2: 99 });
}

#[test]
fn restart_is_at_the_centre_of_another_arena() {
    let mut game = game_with_ball(1, 0, 7, -7);
    game.config.arena_width = 801;
    game.config.arena_height = 600;
    WinnerSystem.run(&mut game);
    assert_eq!(game.ball_position, Vec2 { x: 400, y: 300 });
    assert_eq!(game.score, ScoreBoard { player_1: 0, player_2: 1 });
    game.ball_position = Vec2 { x: 400, y: 0 };
    WinnerSystem.run(&mut game);
    assert_eq!(game.score, ScoreBoard { player_1: 1, player_2: 1 });
}
