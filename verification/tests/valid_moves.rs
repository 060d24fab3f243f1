use snake_moves::models::{Board, Coordinate, Game, GameStatus, Snake};
use snake_moves::selector::{get_valid_moves, make_move};

use rand::rngs::StdRng;
use rand::SeedableRng;

fn print_board(game_status: &GameStatus) {
    for i in (0..game_status.board.height).rev() {
        let mut line = String::new();
        for j in 0..game_status.board.width {
            if game_status.you.head == (Coordinate { x: j, y: i }) {
                line.push_str("H ");
            } else if game_status.you.body.contains(&Coordinate { x: j, y: i }) {
                line.push_str("B ");
            } else {
                line.push_str(". ");
            }
        }
        println!("{}", line);
    }
}

fn snake(id: &str, body: &[(i32, i32)]) -> Snake {
    Snake {
        id: id.to_string(),
        health: 100,
        body: body.iter().map(|&(x, y)| Coordinate { x, y }).collect(),
        head: Coordinate { x: body[0].0, y: body[0].1 },
        length: body.len() as i32,
    }
}

fn turn(width: i32, height: i32, you: Snake, others: Vec<Snake>) -> GameStatus {
    let mut snakes = vec![you.clone()];
    snakes.extend(others);
    GameStatus {
        game: Game { id: "game".to_string() },
        turn: 1,
        board: Board { height, width, food: vec![], snakes },
        you,
    }
}

#[test]
fn test_make_move_doesnt_kill_itself() {
    let game_status = GameStatus {
        game: Game { id: "game_1".to_string() },
        turn: 1,
        board: Board {
            height: 3,
            width: 3,
            food: vec![],
            snakes: vec![Snake {
                id: "snake_1".to_string(),
                health: 100,
                body: vec![Coordinate { x: 1, y: 1 }, Coordinate { x: 1, y: 2 }],
                head: Coordinate { x: 1, y: 1 },
                length: 2,
            }],
        },
        you: Snake {
            id: "snake_1".to_string(),
            health: 100,
            body: vec![Coordinate { x: 1, y: 1 }, Coordinate { x: 1, y: 2 }],
            head: Coordinate { x: 1, y: 1 },
            length: 2,
        },
    };

    println!("Board before move:");
    print_board(&game_status);

    let valid_moves = get_valid_moves(&game_status);
    let mut rng = StdRng::seed_from_u64(1);
    let move_response = make_move(&game_status.clone(), &mut rng).unwrap();

    println!("Board after move:");
    println!("Move: {}", move_response.direction);
    assert!(valid_moves.contains(&move_response.direction.as_str()));
}

#[test]
fn test_get_valid_moves_with_long_snake() {
    let game_statuses = vec![
        GameStatus {
            game: Game { id: "game_1".to_string() },
            turn: 1,
            board: Board { height: 3, width: 3, food: vec![], snakes: vec![] },
            you: Snake {
                id: "snake_1".to_string(),
                health: 100,
                body: vec![
                    Coordinate { x: 1, y: 1 },
                    Coordinate { x: 1, y: 2 },
                    Coordinate { x: 1, y: 0 },
                ],
                head: Coordinate { x: 1, y: 0 },
                length: 3,
            },
        },
        GameStatus {
            game: Game { id: "game_2".to_string() },
            turn: 2,
            board: Board { height: 3, width: 3, food: vec![], snakes: vec![] },
            you: Snake {
                id: "snake_2".to_string(),
                health: 100,
                body: vec![Coordinate { x: 1, y: 1 }, Coordinate { x: 0, y: 1 }],
                head: Coordinate { x: 1, y: 1 },
                length: 2,
            },
        },
        GameStatus {
            game: Game { id: "game_3".to_string() },
            turn: 3,
            board: Board { height: 4, width: 4, food: vec![], snakes: vec![] },
            you: Snake {
                id: "snake_3".to_string(),
                health: 100,
                body: vec![
                    Coordinate { x: 1, y: 1 },
                    Coordinate { x: 1, y: 2 },
                    Coordinate { x: 1, y: 3 },
                    Coordinate { x: 2, y: 3 },
                ],
                head: Coordinate { x: 2, y: 3 },
                length: 4,
            },
        },
        GameStatus {
            game: Game { id: "df933497-bb5b-4d01-8187-fd50485a8331".to_string() },
            turn: 2,
            you: Snake {
                id: "gs_XFkjPyBp3w8TSch6FXtXxhxD".to_string(),
                length: 4,
                health: 100,
                head: Coordinate { x: 6, y: 10 },
                body: vec![
                    Coordinate { x: 6, y: 10 },
                    Coordinate { x: 5, y: 10 },
                    Coordinate { x: 5, y: 9 },
                    Coordinate { x: 5, y: 9 },
                ],
            },
            board: Board {
                snakes: vec![
                    Snake {
                        id: "gs_XFkjPyBp3w8TSch6FXtXxhxD".to_string(),
                        length: 4,
                        health: 100,
                        head: Coordinate { x: 6, y: 10 },
                        body: vec![
                            Coordinate { x: 6, y: 10 },
                            Coordinate { x: 5, y: 10 },
                            Coordinate { x: 5, y: 9 },
                            Coordinate { x: 5, y: 9 },
                        ],
                    },
                    Snake {
                        id: "gs_HcBTqW3kwv8x3TFYGCck8gvb".to_string(),
                        length: 4,
                        health: 100,
                        head: Coordinate { x: 4, y: 0 },
                        body: vec![
                            Coordinate { x: 4, y: 0 },
                            Coordinate { x: 4, y: 1 },
                            Coordinate { x: 5, y: 1 },
                            Coordinate { x: 5, y: 1 },
                        ],
                    },
                ],
                width: 11,
                height: 11,
                food: vec![
                    Coordinate { x: 5, y: 5 },
                    Coordinate { x: 10, y: 3 },
                    Coordinate { x: 1, y: 2 },
                ],
            },
        },
    ];

    for game_status in game_statuses {
        println!("Board:");
        print_board(&game_status);

        let valid_moves = get_valid_moves(&game_status);

        println!("Valid moves:");
        for move_ in &valid_moves {
            println!("{}", move_);
        }
        println!("\n");
    }
}

#[test]
fn long_snake_boards_have_the_expected_moves() {
    let first = GameStatus {
        game: Game { id: "game_1".to_string() },
        turn: 1,
        board: Board { height: 3, width: 3, food: vec![], snakes: vec![] },
        you: Snake {
            id: "snake_1".to_string(),
            health: 100,
            body: vec![
                Coordinate { x: 1, y: 1 },
                Coordinate { x: 1, y: 2 },
                Coordinate { x: 1, y: 0 },
            ],
            head: Coordinate { x: 1, y: 0 },
            length: 3,
        },
    };
    assert_eq!(get_valid_moves(&first), vec!["left", "right"]);

    let second = turn(3, 3, snake("snake_2", &[(1, 1), (0, 1)]), vec![]);
    assert_eq!(get_valid_moves(&second), vec!["up", "down", "right"]);

    let fourth = turn(
        11,
        11,
        snake("gs_XFkjPyBp3w8TSch6FXtXxhxD", &[(6, 10), (5, 10), (5, 9), (5, 9)]),
        vec![snake("gs_HcBTqW3kwv8x3TFYGCck8gvb", &[(4, 0), (4, 1), (5, 1), (5, 1)])],
    );
    assert_eq!(get_valid_moves(&fourth), vec!["down", "right"]);
}

#[test]
fn own_neck_blocks_the_way_up() {
    let without_board_entry = GameStatus {
        game: Game { id: "game_1".to_string() },
        turn: 1,
        board: Board { height: 3, width: 3, food: vec![], snakes: vec![] },
        you: snake("snake_1", &[(1, 1), (1, 2)]),
    };
    assert_eq!(get_valid_moves(&without_board_entry), vec!["down", "left", "right"]);

    let with_board_entry = turn(3, 3, snake("snake_1", &[(1, 1), (1, 2)]), vec![]);
    assert_eq!(get_valid_moves(&with_board_entry), vec!["down", "left", "right"]);

    for seed in 0..50 {
        let mut rng = StdRng::seed_from_u64(seed);
        let response = make_move(&with_board_entry, &mut rng).unwrap();
        assert!(["down", "left", "right"].contains(&response.direction.as_str()));
    }
}

#[test]
fn snake_along_the_top_edge_can_go_down_or_right() {
    let state = turn(4, 4, snake("snake_3", &[(2, 3), (1, 3), (1, 2), (1, 1)]), vec![]);
    assert_eq!(get_valid_moves(&state), vec!["down", "right"]);
}

#[test]
fn cell_within_reach_of_an_opponent_is_excluded() {
    let you = snake("me", &[(0, 0), (1, 0)]);
    let alone = turn(11, 11, you.clone(), vec![]);
    assert_eq!(get_valid_moves(&alone), vec!["up"]);

    let opponent = snake("other", &[(0, 2), (0, 3), (0, 4)]);
    let contested = turn(11, 11, you.clone(), vec![opponent]);
    assert_eq!(get_valid_moves(&contested), Vec::<&'static str>::new());

    let diagonal = snake("other", &[(1, 1), (2, 1)]);
    let contested = turn(11, 11, you, vec![diagonal]);
    assert_eq!(get_valid_moves(&contested), Vec::<&'static str>::new());
}

#[test]
fn cells_off_the_board_are_excluded() {
    let corner = turn(5, 5, snake("me", &[(0, 0)]), vec![]);
    assert_eq!(get_valid_moves(&corner), vec!["up", "right"]);

    let far_corner = turn(5, 5, snake("me", &[(4, 4)]), vec![]);
    assert_eq!(get_valid_moves(&far_corner), vec!["down", "left"]);

    let single_cell = turn(1, 1, snake("me", &[(0, 0)]), vec![]);
    assert_eq!(get_valid_moves(&single_cell), Vec::<&'static str>::new());

    let outside = turn(5, 5, snake("me", &[(7, 2)]), vec![]);
    assert_eq!(get_valid_moves(&outside), Vec::<&'static str>::new());

    let beside = turn(5, 5, snake("me", &[(5, 2)]), vec![]);
    assert_eq!(get_valid_moves(&beside), vec!["left"]);
}

#[test]
fn cells_of_the_own_body_are_excluded() {
    let coiled = turn(5, 5, snake("me", &[(2, 2), (2, 3), (3, 3), (3, 2), (3, 1), (2, 1)]), vec![]);
    assert_eq!(get_valid_moves(&coiled), vec!["left"]);

    let mut stacked = snake("me", &[(2, 2), (2, 2), (2, 2)]);
    stacked.head = Coordinate { x: 2, y: 1 };
    let state = turn(5, 5, stacked, vec![]);
    assert_eq!(get_valid_moves(&state), vec!["down", "left", "right"]);
}

#[test]
fn cells_of_an_opponents_body_are_excluded() {
    let you = snake("me", &[(2, 2), (2, 1)]);
    let wall = snake("other", &[(9, 9), (3, 2), (3, 3), (2, 3)]);
    let state = turn(11, 11, you, vec![wall]);
    assert_eq!(get_valid_moves(&state), vec!["left"]);
}

#[test]
fn a_board_entry_with_the_own_identifier_is_no_opponent() {
    let you = snake("me", &[(2, 2), (2, 1)]);
    let mut state = turn(11, 11, you, vec![]);
    state.board.snakes = vec![snake("me", &[(2, 4), (3, 2)])];
    assert_eq!(get_valid_moves(&state), vec!["up", "left", "right"]);

    state.board.snakes = vec![snake("you", &[(2, 4), (3, 2)])];
    assert_eq!(get_valid_moves(&state), vec!["left"]);
}

#[test]
fn heads_at_the_end_of_the_coordinate_range() {
    let you = snake("me", &[(i32::MAX, i32::MAX)]);
    let state = GameStatus {
        game: Game { id: "game".to_string() },
        turn: 0,
        board: Board { height: i32::MAX, width: i32::MAX, food: vec![], snakes: vec![] },
        you,
    };
    assert_eq!(get_valid_moves(&state), Vec::<&'static str>::new());

    let you = snake("me", &[(i32::MAX - 1, i32::MAX - 1)]);
    let opponent = snake("other", &[(i32::MAX, i32::MAX - 2)]);
    let state = turn(i32::MAX, i32::MAX, you, vec![opponent]);
    assert_eq!(get_valid_moves(&state), vec!["left"]);

    let you = snake("me", &[(i32::MIN, i32::MIN)]);
    let opponent = snake("other", &[(i32::MIN, i32::MAX)]);
    let state = turn(3, 3, you, vec![opponent]);
    assert_eq!(get_valid_moves(&state), Vec::<&'static str>::new());
}

#[test]
fn board_without_room_has_no_valid_move() {
    let state = turn(0, 5, snake("me", &[(0, 0)]), vec![]);
    assert_eq!(get_valid_moves(&state), Vec::<&'static str>::new());
    let state = turn(5, -1, snake("me", &[(0, 0)]), vec![]);
    assert_eq!(get_valid_moves(&state), Vec::<&'static str>::new());
}

#[test]
fn all_four_moves_in_the_open() {
    let state = turn(11, 11, snake("me", &[(5, 5)]), vec![]);
    assert_eq!(get_valid_moves(&state), vec!["up", "down", "left", "right"]);
    let mut body_elsewhere = snake("me", &[(0, 0)]);
    body_elsewhere.head = Coordinate { x: 5, y: 5 };
    let state = turn(11, 11, body_elsewhere, vec![]);
    assert_eq!(get_valid_moves(&state), vec!["up", "down", "left", "right"]);
}
