use hover_arena::server::network_controller::{
    JoinPlan, MissingPrefab, ModelNames, NetworkController, Placement, Spawn, SyncStep,
};
use hover_arena::shared::components::IdComponent;

fn tags(names: &[&str]) -> Vec<String> {
    names.iter().map(|name| name.to_string()).collect()
}

#[test]
fn names_are_parsed_and_printed() {
    assert_eq!(ModelNames::from_str("Spectator"), ModelNames::Spectator);
    assert_eq!(ModelNames::from_str("Player"), ModelNames::Player);
    assert_eq!(ModelNames::from_str("Smoke Bomb"), ModelNames::SmokeBomb);
    assert_eq!(ModelNames::from_str("Hoverboard"), ModelNames::Hoverboard);
    assert_eq!(ModelNames::Spectator.to_str(), "Spectator");
    assert_eq!(ModelNames::Player.to_str(), "Player");
    assert_eq!(ModelNames::SmokeBomb.to_str(), "Smoke Bomb");
    assert_eq!(ModelNames::Hoverboard.to_str(), "Hoverboard");
}

#[test]
fn unknown_names_are_not_parsed() {
    assert_eq!(ModelNames::parse("player"), None);
    assert_eq!(ModelNames::parse("SmokeBomb"), None);
    assert_eq!(ModelNames::parse(""), None);
    assert_eq!(ModelNames::parse("Player "), None);
    assert_eq!(ModelNames::parse("Player"), Some(ModelNames::Player));
}

#[test]
fn names_round_trip() {
    for model in [
        ModelNames::Spectator,
        ModelNames::Player,
        ModelNames::SmokeBomb,
        ModelNames::Hoverboard,
    ] {
        assert_eq!(ModelNames::parse(model.to_str()), Some(model));
    }
}

#[test]
fn session_start_sorts_the_prefabs() {
    let mut controller = NetworkController::initialize();
    let placements = controller
        .on_session_start(&tags(&["Player", "terrain", "Hoverboard", "light", "Spectator"]));
    assert_eq!(
        placements,
        vec![
            Placement::Catalog(ModelNames::Player),
            Placement::Scene,
            Placement::Catalog(ModelNames::Hoverboard),
            Placement::Scene,
            Placement::Scene,
        ]
    );
    assert!(controller.has_player);
    assert!(controller.has_hoverboard);
    assert!(!controller.has_smoke_bomb);
    assert!(!controller.has_spectator);
    assert!(controller.has_config);
}

#[test]
fn join_seeds_world() {
    let player: u128 = 1;
    let mut controller = NetworkController::initialize();
    let placements =
        controller.on_session_start(&tags(&["Player", "Hoverboard", "terrain", "light"]));
    assert_eq!(placements[2], Placement::Scene);
    assert_eq!(placements[3], Placement::Scene);

    let join = controller.on_player_joined(player).unwrap();
    assert_eq!(join.player, Spawn { prefab: ModelNames::Player, id: player, parent: None });
    assert_eq!(join.hoverboard.prefab, ModelNames::Hoverboard);
    assert_eq!(join.hoverboard.parent, Some(player));
    assert_ne!(join.hoverboard.id, 0);
    assert_ne!(join.hoverboard.id, player);

    // the scene now holds the terrain, the light, the player and its hoverboard
    let scene = vec![700, 800, join.player.id, join.hoverboard.id];
    let plan = controller.sync_world(&scene, player);
    assert_eq!(
        plan.steps,
        vec![
            SyncStep::Config,
            SyncStep::Assets { trigger_loading: true },
            SyncStep::Entities,
            SyncStep::Prefabs,
        ]
    );
    assert_eq!(
        plan.entities,
        vec![
            IdComponent { id: 700, is_self: false },
            IdComponent { id: 800, is_self: false },
            IdComponent { id: player, is_self: true },
            IdComponent { id: join.hoverboard.id, is_self: false },
        ]
    );
    // the prefab message names the catalog
    assert_eq!(plan.prefabs, vec![ModelNames::Player, ModelNames::Hoverboard]);
    assert!(plan.prefabs.iter().any(|name| name.to_str() == "Player"));
}

#[test]
fn the_prefab_message_names_what_is_held() {
    let mut controller = NetworkController::initialize();
    assert!(controller.sync_world(&Vec::new(), 1).prefabs.is_empty());
    controller.on_session_start(&tags(&["Hoverboard", "Smoke Bomb", "tree", "Spectator"]));
    assert_eq!(
        controller.sync_world(&Vec::new(), 1).prefabs,
        vec![ModelNames::SmokeBomb, ModelNames::Hoverboard]
    );
    controller.on_session_start(&tags(&["Player"]));
    assert_eq!(
        controller.sync_world(&Vec::new(), 1).prefabs,
        vec![ModelNames::Player, ModelNames::SmokeBomb, ModelNames::Hoverboard]
    );
}

#[test]
fn at_most_one_entity_is_marked_as_self() {
    let controller = NetworkController::initialize();
    let scene: Vec<u128> = vec![4, 8, 15, 16, 23, 42];
    for player in [4u128, 23, 99] {
        let plan = controller.sync_world(&scene, player);
        let marked: Vec<&IdComponent> =
            plan.entities.iter().filter(|entity| entity.is_self).collect();
        assert!(marked.len() <= 1);
        for entity in marked {
            assert_eq!(entity.id, player);
        }
    }
}

#[test]
fn without_a_config_the_sync_starts_with_the_assets() {
    let controller = NetworkController::initialize();
    let plan = controller.sync_world(&Vec::new(), 1);
    assert_eq!(
        plan.steps,
        vec![SyncStep::Assets { trigger_loading: true }, SyncStep::Entities, SyncStep::Prefabs]
    );
    assert!(plan.entities.is_empty());
}

#[test]
fn joining_needs_both_prefabs() {
    let mut controller = NetworkController::initialize();
    assert_eq!(
        controller.on_player_joined(1),
        Err(MissingPrefab { name: ModelNames::Player })
    );
    controller.on_session_start(&tags(&["Hoverboard"]));
    assert_eq!(
        controller.on_player_joined(1),
        Err(MissingPrefab { name: ModelNames::Player })
    );
    let mut other = NetworkController::initialize();
    other.on_session_start(&tags(&["Player"]));
    assert_eq!(other.on_player_joined(1), Err(MissingPrefab { name: ModelNames::Hoverboard }));
    assert_eq!(other.plan_join(1, 2), Err(MissingPrefab { name: ModelNames::Hoverboard }));
}

#[test]
fn a_join_is_planned_from_the_identifiers() {
    let mut controller = NetworkController::initialize();
    controller.on_session_start(&tags(&["Player", "Hoverboard", "Smoke Bomb"]));
    assert!(controller.has_smoke_bomb);
    assert_eq!(
        controller.plan_join(7, 9),
        Ok(JoinPlan {
            player: Spawn { prefab: ModelNames::Player, id: 7, parent: None },
            hoverboard: Spawn { prefab: ModelNames::Hoverboard, id: 9, parent: Some(7) },
        })
    );
}

#[test]
fn hoverboards_get_random_identifiers() {
    let mut controller = NetworkController::initialize();
    controller.on_session_start(&tags(&["Player", "Hoverboard"]));
    let first = controller.on_player_joined(1).unwrap().hoverboard.id;
    let second = controller.on_player_joined(1).unwrap().hoverboard.id;
    assert_ne!(first, second);
    for id in [first, second] {
        // version 4, variant 1
        assert_eq!((id >> 76) & 0xf, 4);
        assert_eq!((id >> 62) & 0x3, 2);
    }
}
