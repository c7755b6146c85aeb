//! The methods that the game server offers over RPC: their names, their
//! inputs and outputs, and what each of them answers.

use crate::ids::{generate_uuid, is_random_uuid, uuid_value};
use vstd::prelude::*;
use vstd::string::to_string_from_display_ensures;
use vstd::string::StringExecFns;

verus! {

/// Name of the method that tells the server's version.
pub const GET_VERSION: &'static str = "system.getVersion";

/// Name of the method by which a player joins the game.
pub const JOIN_GAME: &'static str = "game.join";

/// Name of the method by which a player moves.
pub const MOVE_PLAYER: &'static str = "game.movePlayer";

/// Answer of `system.getVersion`.
#[derive(Debug, Clone)]
pub struct GetVersionOutput {
    pub version: String,
}

/// Input of `game.join`.
#[derive(Debug, Clone)]
pub struct JoinGameInput {
    pub player_name: String,
}

/// Answer of `game.join`.
#[derive(Debug, Clone)]
pub struct JoinGameOutput {
    pub player_id: String,
}

/// Answer of `game.movePlayer`.
#[derive(Debug, Clone, Copy, PartialEq, Eq, Structural)]
pub struct MovePlayerOutput {
    pub success: bool,
}

/// Whether `text` is how some random (version 4) identifier is written.
pub open spec fn is_random_id_text(text: String) -> bool {
    exists|id: uuid::Uuid|
        is_random_uuid(#[trigger] uuid_value(id)) && to_string_from_display_ensures::<uuid::Uuid>(
            &id,
            text,
        )
}

/// Answers `system.getVersion` with the given version.
pub fn get_version(version: &str) -> (output: Result<GetVersionOutput, String>)
    ensures
        output is Ok,
        output->Ok_0.version@ == version@,
{
    Ok(GetVersionOutput { version: String::from_str(version) })
}

/// Answers `game.join`: the player gets a fresh random id, written as text.
pub fn join_game(input: &JoinGameInput) -> (output: Result<JoinGameOutput, String>)
    ensures
        output is Ok,
        is_random_id_text(output->Ok_0.player_id),
{
    let id = generate_uuid();
    let player_id = id.to_string();
    assert(is_random_uuid(uuid_value(id)));
    Ok(JoinGameOutput { player_id })
}

/// Answers `game.movePlayer`: every move is accepted.
pub fn move_player() -> (output: Result<MovePlayerOutput, String>)
    ensures
        output == Ok::<MovePlayerOutput, String>(MovePlayerOutput { success: true }),
{
    Ok(MovePlayerOutput { success: true })
}

} // verus!
