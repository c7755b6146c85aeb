use mp_core::game::{Actor, ActorType, GameState};
use mp_core::ids::{generate_uuid, uuid_from_string, uuid_number};
use mp_core::time::TimeSpan;
use uuid::Uuid;

type Position = (f64, f64);

fn actor(id: Uuid, name: &str, area: &str) -> Actor<Position> {
    Actor {
        id,
        name: name.to_string(),
        actor_type: ActorType::Npc { model_id: "goblin".to_string() },
        position: (1.5, -2.0),
        area_id: area.to_string(),
        health: 10,
        max_health: 12,
        level: 1,
    }
}

#[test]
fn a_new_game_is_empty() {
    let state: GameState<Position> = GameState::new();
    assert!(state.actors.is_empty());
    assert!(state.areas.is_empty());
    assert!(state.get_actors_in_area("town").is_empty());
    assert!(GameState::<Position>::default().actors.is_empty());
}

#[test]
fn actors_are_kept_under_the_number_of_their_id() {
    let id = uuid_from_string("550e8400-e29b-41d4-a716-446655440000").unwrap();
    assert_eq!(uuid_number(&id), 0x550e8400_e29b_41d4_a716_446655440000);

    let mut state = GameState::new();
    state.add_actor(actor(id, "first", "town"));
    assert_eq!(state.actors.len(), 1);
    assert_eq!(state.actors[&0x550e8400_e29b_41d4_a716_446655440000].name, "first");

    state.add_actor(actor(id, "second", "forest"));
    assert_eq!(state.actors.len(), 1);
    assert_eq!(state.actors[&uuid_number(&id)].name, "second");
    assert_eq!(state.actors[&uuid_number(&id)].position, (1.5, -2.0));
}

#[test]
fn removing_hands_the_actor_back() {
    let kept = generate_uuid();
    let gone = generate_uuid();
    let mut state = GameState::new();
    state.add_actor(actor(kept, "kept", "town"));
    state.add_actor(actor(gone, "gone", "town"));

    let removed = state.remove_actor(&gone).unwrap();
    assert_eq!(removed.id, gone);
    assert_eq!(removed.name, "gone");
    assert_eq!(state.actors.len(), 1);
    assert!(state.remove_actor(&gone).is_none());
    assert_eq!(state.actors.len(), 1);
    assert!(state.actors.contains_key(&uuid_number(&kept)));
}

#[test]
fn actors_are_found_by_the_exact_id_of_their_area() {
    let mut state = GameState::new();
    state.add_actor(actor(generate_uuid(), "a", "town"));
    state.add_actor(actor(generate_uuid(), "b", "forest"));
    state.add_actor(actor(generate_uuid(), "c", "town"));
    state.add_actor(actor(generate_uuid(), "d", "Town"));
    state.add_actor(actor(generate_uuid(), "e", "town "));

    let mut names: Vec<&str> =
        state.get_actors_in_area("town").iter().map(|a| a.name.as_str()).collect();
    names.sort();
    assert_eq!(names, vec!["a", "c"]);
    assert_eq!(state.get_actors_in_area("forest").len(), 1);
    assert!(state.get_actors_in_area("cave").is_empty());
    assert!(state.get_actors_in_area("").is_empty());
}

#[test]
fn a_span_as_a_timer_period() {
    assert_eq!(TimeSpan::from_milliseconds(50).period_milliseconds(), 50);
    assert_eq!(TimeSpan::zero().period_milliseconds(), 0);
    assert_eq!(TimeSpan::from_milliseconds(i64::MAX).period_milliseconds(), i64::MAX as u64);
    assert_eq!(TimeSpan::from_milliseconds(-1).period_milliseconds(), u64::MAX);
    assert_eq!(TimeSpan::from_milliseconds(-1).period_milliseconds(), -1i64 as u64);
    assert_eq!(TimeSpan::from_milliseconds(i64::MIN).period_milliseconds(), i64::MIN as u64);
}
