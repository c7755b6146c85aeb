use mp_core::ids::uuid_from_string;
use mp_core::methods::{
    get_version, join_game, move_player, JoinGameInput, MovePlayerOutput, GET_VERSION, JOIN_GAME,
    MOVE_PLAYER,
};

#[test]
fn method_names() {
    assert_eq!(GET_VERSION, "system.getVersion");
    assert_eq!(JOIN_GAME, "game.join");
    assert_eq!(MOVE_PLAYER, "game.movePlayer");
}

#[test]
fn get_version_answers_with_the_version() {
    assert_eq!(get_version("1.2.3").unwrap().version, "1.2.3");
    assert_eq!(get_version("").unwrap().version, "");
}

#[test]
fn join_game_hands_out_fresh_random_ids() {
    let input = JoinGameInput { player_name: "ada".to_string() };
    let first = join_game(&input).unwrap().player_id;
    let second = join_game(&input).unwrap().player_id;
    assert_ne!(first, second);
    let id = uuid_from_string(&first).unwrap();
    assert_eq!(id.get_version(), Some(uuid::Version::Random));
    assert_eq!(id.to_string(), first);
    assert_eq!(first.len(), 36);
}

#[test]
fn move_player_accepts_every_move() {
    assert_eq!(move_player(), Ok(MovePlayerOutput { success: true }));
}
