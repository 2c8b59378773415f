use hover_arena::server::players::PlayerSlot;
use hover_arena::server::server::{
    classify, ArenaLayer, JoinError, LevelEntity, LevelRole, MissingSpectator, MissingTransform,
    Notice, SyncWorld,
};
use hover_arena::shared::entity::Entity;
use hover_arena::shared::parent::ParentLinks;
use hover_arena::shared::prefab::{ComponentKind, FullPrefab};
use hover_arena::shared::components::IdComponent;
use hover_arena::shared::trusted::TrustedInput;
use hover_arena::shared::units::{TransformComponent, Vec3};

fn at(x: i64) -> TransformComponent {
    TransformComponent { translation: Vec3::new(x, 0, 0), rotation: Vec3::zeros() }
}

fn level_entity(tag: &str, transform: Option<TransformComponent>) -> LevelEntity {
    LevelEntity { tag: tag.to_string(), transform }
}

fn arena_with_spawns(spawns: usize) -> ArenaLayer {
    let mut arena = ArenaLayer::new();
    assert_eq!(arena.on_attach(&level_entity("foxy", None)), Ok(false));
    for i in 0..spawns {
        let tag = format!("spawn {}", i + 1);
        assert_eq!(arena.on_attach(&level_entity(&tag, Some(at(i as i64 + 1)))), Ok(false));
    }
    arena
}

/// The players of the room are walked in no fixed order.
fn sorted(mut notices: Vec<Notice>) -> Vec<Notice> {
    notices.sort_by_key(|notice| notice.recipient);
    notices
}

fn notice(recipient: u128, newcomer: u128) -> Notice {
    Notice { recipient, id: IdComponent { id: newcomer, is_self: recipient == newcomer } }
}

fn input(frame: u32, x: i64, y: i64, z: i64) -> TrustedInput {
    TrustedInput { frame, translation: Vec3::new(x, y, z) }
}

#[test]
fn tags_decide_the_role() {
    assert_eq!(classify("spectator-spawn-1"), LevelRole::SpectatorPoint);
    assert_eq!(classify("spawn 1"), LevelRole::SpawnPoint);
    assert_eq!(classify("spawn 2"), LevelRole::SpawnPoint);
    assert_eq!(classify("spawn 3"), LevelRole::SpawnPoint);
    assert_eq!(classify("spawn 4"), LevelRole::SpawnPoint);
    assert_eq!(classify("spawn 5"), LevelRole::Scene);
    assert_eq!(classify("spectator"), LevelRole::SpectatorPrefab);
    assert_eq!(classify("foxy"), LevelRole::FoxyPrefab);
    assert_eq!(classify("Foxy"), LevelRole::Scene);
    assert_eq!(classify(""), LevelRole::Scene);
    assert_eq!(classify("tree"), LevelRole::Scene);
}

#[test]
fn attaching_sorts_the_level() {
    let mut arena = ArenaLayer::new();
    assert_eq!(arena.on_attach(&level_entity("tree", Some(at(1)))), Ok(true));
    assert_eq!(arena.on_attach(&level_entity("spawn 2", Some(at(2)))), Ok(false));
    assert_eq!(arena.on_attach(&level_entity("spectator-spawn-1", Some(at(3)))), Ok(false));
    assert_eq!(arena.on_attach(&level_entity("spectator", None)), Ok(false));
    assert_eq!(arena.on_attach(&level_entity("foxy", None)), Ok(false));
    assert_eq!(arena.spawn_points, vec![at(2)]);
    assert_eq!(arena.assigned_spawns, vec![None]);
    assert_eq!(arena.spectator_points, vec![at(3)]);
    assert!(arena.has_foxy);
    assert!(arena.has_spectator);
}

#[test]
fn a_point_without_transform_is_refused() {
    let mut arena = ArenaLayer::new();
    assert_eq!(arena.on_attach(&level_entity("spawn 1", None)), Err(MissingTransform {}));
    assert_eq!(
        arena.on_attach(&level_entity("spectator-spawn-1", None)),
        Err(MissingTransform {})
    );
    assert!(arena.spawn_points.is_empty());
    assert!(arena.assigned_spawns.is_empty());
    assert!(arena.spectator_points.is_empty());
}

#[test]
fn spectators_stand_at_their_points_with_fresh_ids() {
    let mut arena = ArenaLayer::new();
    assert_eq!(arena.spectators(), Err(MissingSpectator {}));
    arena.on_attach(&level_entity("spectator", None)).unwrap();
    arena.on_attach(&level_entity("spectator-spawn-1", Some(at(7)))).unwrap();
    arena.on_attach(&level_entity("spectator-spawn-1", Some(at(8)))).unwrap();
    let spectators = arena.spectators().unwrap();
    assert_eq!(spectators.len(), 2);
    assert_eq!(spectators[0].transform, at(7));
    assert_eq!(spectators[1].transform, at(8));
    assert_ne!(spectators[0].id, 0);
    assert_ne!(spectators[1].id, 0);
    assert_ne!(spectators[0].id, spectators[1].id);
}

#[test]
fn joining_takes_the_first_free_spawn_point() {
    let mut arena = arena_with_spawns(2);
    let first = arena.on_player_joined(11, || Entity { bits: 100 }).unwrap();
    assert_eq!(first.entity, Entity { bits: 100 });
    assert_eq!(first.spawn_index, 0);
    assert_eq!(first.spawn, at(1));
    assert_eq!(first.notices, vec![notice(11, 11)]);
    let second = arena.on_player_joined(22, || Entity { bits: 200 }).unwrap();
    assert_eq!(second.spawn_index, 1);
    assert_eq!(second.spawn, at(2));
    assert_eq!(sorted(second.notices), vec![notice(11, 22), notice(22, 22)]);
    assert_eq!(arena.assigned_spawns, vec![Some(11), Some(22)]);
    // the room is full: a third player starts at the first point and holds none
    let third = arena.on_player_joined(33, || Entity { bits: 300 }).unwrap();
    assert_eq!(third.spawn_index, 0);
    assert_eq!(third.spawn, at(1));
    assert_eq!(arena.assigned_spawns, vec![Some(11), Some(22)]);
    assert_eq!(
        arena.players.get(33),
        Some(PlayerSlot { player_id: 33, entity: Entity { bits: 300 }, input_lock: 0 })
    );
    assert_eq!(arena.entities.get(33), Some(Entity { bits: 300 }));
}

#[test]
fn joining_needs_a_player_prefab_and_a_spawn_point() {
    let mut arena = ArenaLayer::new();
    assert_eq!(
        arena.on_player_joined(1, || Entity { bits: 1 }).err(),
        Some(JoinError::MissingFoxy)
    );
    arena.on_attach(&level_entity("foxy", None)).unwrap();
    assert_eq!(
        arena.on_player_joined(1, || Entity { bits: 1 }).err(),
        Some(JoinError::NoSpawnPoint)
    );
    assert_eq!(arena.players.get(1), None);
    assert_eq!(arena.entities.get(1), None);
}

#[test]
fn joining_again_keeps_the_entity_and_resets_the_lock() {
    let mut arena = arena_with_spawns(1);
    arena.on_player_joined(5, || Entity { bits: 50 }).unwrap();
    arena.receive_inputs(5, &vec![input(9, 1, 1, 1)]).unwrap();
    assert_eq!(arena.players.get(5).unwrap().input_lock, 9);
    let again = arena.on_player_joined(5, || Entity { bits: 51 }).unwrap();
    assert_eq!(again.entity, Entity { bits: 50 });
    assert_eq!(again.notices, vec![notice(5, 5)]);
    assert_eq!(arena.players.get(5).unwrap().input_lock, 0);
}

#[test]
fn leaving_frees_the_spawn_point_and_the_lock() {
    let mut arena = arena_with_spawns(2);
    arena.on_player_joined(11, || Entity { bits: 100 }).unwrap();
    arena.on_player_joined(22, || Entity { bits: 200 }).unwrap();
    assert_eq!(arena.on_player_left(11), Some(Entity { bits: 100 }));
    assert_eq!(arena.assigned_spawns, vec![None, Some(22)]);
    assert_eq!(arena.players.get(11), None);
    assert_eq!(arena.entities.get(11), None);
    assert_eq!(arena.players.get(22).unwrap().entity, Entity { bits: 200 });
    assert_eq!(arena.entities.get(22), Some(Entity { bits: 200 }));
    // a missing entry is tolerated
    assert_eq!(arena.on_player_left(11), None);
    assert_eq!(arena.on_player_left(99), None);
    assert_eq!(arena.assigned_spawns, vec![None, Some(22)]);
    // the freed point is the next to be taken
    let next = arena.on_player_joined(33, || Entity { bits: 300 }).unwrap();
    assert_eq!(next.spawn_index, 0);
}

#[test]
fn a_player_who_comes_back_gets_a_new_entity() {
    let mut arena = arena_with_spawns(1);
    arena.on_player_joined(11, || Entity { bits: 100 }).unwrap();
    assert_eq!(arena.on_player_left(11), Some(Entity { bits: 100 }));
    let back = arena.on_player_joined(11, || Entity { bits: 101 }).unwrap();
    assert_eq!(back.entity, Entity { bits: 101 });
    assert_eq!(arena.entities.get(11), Some(Entity { bits: 101 }));
    assert_eq!(arena.players.get(11).unwrap().entity, Entity { bits: 101 });
}

#[test]
fn leaving_unbinds_only_the_leaver() {
    let mut arena = arena_with_spawns(2);
    arena.on_player_joined(11, || Entity { bits: 100 }).unwrap();
    arena.entities.insert(500, Entity { bits: 5 });
    // a stranger leaves: nobody is despawned, every binding stays
    assert_eq!(arena.on_player_left(99), None);
    assert_eq!(arena.entities.get(11), Some(Entity { bits: 100 }));
    assert_eq!(arena.entities.get(500), Some(Entity { bits: 5 }));
    assert_eq!(arena.on_player_left(11), Some(Entity { bits: 100 }));
    assert_eq!(arena.entities.get(500), Some(Entity { bits: 5 }));
}

#[test]
fn the_hoverboard_of_a_player_who_left_keeps_its_matrix() {
    let mut arena = arena_with_spawns(1);
    arena.on_player_joined(11, || Entity { bits: 100 }).unwrap();
    let links = ParentLinks::new();
    // the hoverboard's parent component names the player
    assert_eq!(arena.update_parent_transform(&links, 11), Some(Vec::new()));
    arena.on_player_left(11);
    assert_eq!(arena.update_parent_transform(&links, 11), None);
}

#[test]
fn trusted_input_monotone() {
    let mut arena = arena_with_spawns(2);
    arena.on_player_joined(1, || Entity { bits: 10 }).unwrap();
    arena.on_player_joined(2, || Entity { bits: 20 }).unwrap();
    let batch = vec![input(5, 1, 0, 0), input(3, 9, 9, 9), input(5, 2, 0, 0), input(7, 3, 0, 0)];
    let outcome = arena.receive_inputs(1, &batch).unwrap();
    assert_eq!(outcome.entity, Entity { bits: 10 });
    assert_eq!(outcome.translation, Some(Vec3::new(3, 0, 0)));
    assert_eq!(outcome.recipients, vec![2]);
    assert_eq!(arena.players.get(1).unwrap().input_lock, 7);
    assert_eq!(arena.players.get(2).unwrap().input_lock, 0);
}

#[test]
fn a_batch_is_passed_on_to_everybody_else_once() {
    let mut arena = arena_with_spawns(4);
    for player in [1u128, 2, 3, 4] {
        arena.on_player_joined(player, || Entity { bits: player as u64 }).unwrap();
    }
    let mut recipients = arena.receive_inputs(3, &vec![input(1, 0, 0, 0)]).unwrap().recipients;
    recipients.sort();
    assert_eq!(recipients, vec![1, 2, 4]);
    let news = sorted(arena.on_player_joined(5, || Entity { bits: 5 }).unwrap().notices);
    assert_eq!(
        news,
        vec![notice(1, 5), notice(2, 5), notice(3, 5), notice(4, 5), notice(5, 5)]
    );
}

#[test]
fn a_stale_batch_moves_nothing() {
    let mut arena = arena_with_spawns(1);
    arena.on_player_joined(1, || Entity { bits: 10 }).unwrap();
    arena.receive_inputs(1, &vec![input(7, 3, 0, 0)]).unwrap();
    let outcome = arena.receive_inputs(1, &vec![input(6, 8, 8, 8), input(2, 9, 9, 9)]).unwrap();
    assert_eq!(outcome.translation, None);
    assert_eq!(arena.players.get(1).unwrap().input_lock, 7);
}

#[test]
fn inputs_of_a_stranger_are_dropped() {
    let mut arena = arena_with_spawns(1);
    arena.on_player_joined(1, || Entity { bits: 10 }).unwrap();
    assert!(arena.receive_inputs(2, &vec![input(7, 3, 0, 0)]).is_none());
    assert_eq!(arena.players.get(1).unwrap().input_lock, 0);
    arena.on_player_left(1);
    assert!(arena.receive_inputs(1, &vec![input(7, 3, 0, 0)]).is_none());
}

#[test]
fn the_frame_counter_counts_ticks() {
    let mut arena = ArenaLayer::new();
    arena.on_update();
    arena.on_update();
    assert_eq!(arena.frame, 2);
    assert_eq!(arena.timing, 1_000);
    assert_eq!(arena.sync_world(), SyncWorld { trigger_loading: true, frame: 2 });
    assert_eq!(arena.update_player(), SyncWorld { trigger_loading: false, frame: 2 });
    arena.frame = u128::MAX;
    arena.on_update();
    assert_eq!(arena.frame, u128::MAX);
}

#[test]
fn a_prefab_finds_its_entity_by_identifier() {
    let mut arena = ArenaLayer::new();
    let prefab = FullPrefab {
        id: IdComponent { id: 77, is_self: false },
        tag: "tree".to_string(),
        transform: Some(at(1)),
        animation: None,
        sky: None,
        model: true,
        terrain: false,
        input: false,
        camera: None,
        text: false,
        light: None,
        parent: None,
        physics: None,
        audio_listener: false,
        particle: true,
    };
    let (entity, id, kinds) = arena.receive_prefab(&prefab, || Entity { bits: 5 });
    assert_eq!(entity, Entity { bits: 5 });
    assert_eq!(id, 77);
    assert_eq!(
        kinds,
        vec![ComponentKind::Id, ComponentKind::Tag, ComponentKind::Transform, ComponentKind::Model]
    );
    let (again, _, _) = arena.receive_prefab(&prefab, || Entity { bits: 6 });
    assert_eq!(again, Entity { bits: 5 });
}

#[test]
fn the_server_drops_an_update_with_a_missing_parent() {
    let mut arena = arena_with_spawns(1);
    arena.on_player_joined(1, || Entity { bits: 10 }).unwrap();
    let links = ParentLinks::new();
    assert_eq!(arena.update_parent_transform(&links, 1), Some(Vec::new()));
    assert_eq!(arena.update_parent_transform(&links, 2), None);
}
