use magma::app::{App, AppWorld};
use magma::entities::{Entity, World, WorldIds};
use magma::window::WindowBuilder;

#[derive(Debug, Clone, PartialEq)]
struct Counter {
    updates: u32,
    draws: u32,
}

impl Entity for Counter {
    fn update(&mut self) {
        self.updates += 1;
    }

    fn draw(&mut self) {
        self.draws += 1;
    }
}

fn counter() -> Counter {
    Counter { updates: 0, draws: 0 }
}

#[test]
fn new_worlds_are_empty_with_unique_ids() {
    let mut ids = WorldIds::new();
    assert!(ids.can_issue());
    let first: World<Counter> = World::new(&mut ids);
    let second: World<Counter> = World::new(&mut ids);
    assert!(first.entities.is_empty() && second.entities.is_empty());
    assert_eq!((first.id, second.id), (0, 1));
    assert!(!first.same_world(&second));
}

#[test]
fn add_entity_appends() {
    let mut world = World::new(&mut WorldIds::new());
    world.add_entity(counter());
    world.add_entity(Counter { updates: 7, draws: 0 });
    assert_eq!(world.entities.len(), 2);
    assert_eq!(world.entities[1].updates, 7);
}

#[test]
fn update_and_draw_reach_every_entity_in_order() {
    let mut world = World::new(&mut WorldIds::new());
    world.add_entity(counter());
    world.add_entity(Counter { updates: 5, draws: 1 });
    world.update();
    world.draw();
    world.draw();
    assert_eq!(world.entities, vec![Counter { updates: 1, draws: 2 }, Counter { updates: 6, draws: 3 }]);
}

#[test]
fn worlds_are_the_same_by_id() {
    let a: World<Counter> = World::new(&mut WorldIds::new());
    let mut b: World<Counter> = World::new(&mut WorldIds::new());
    b.add_entity(counter());
    assert!(a.same_world(&b));
    let c: World<Counter> = World { id: 3, entities: Vec::new() };
    assert!(!a.same_world(&c));
}

#[test]
fn window_builder_defaults_and_setters() {
    let b = WindowBuilder::new();
    assert_eq!((b.width, b.height, b.title), (1280, 720, "Magma App"));
    let b = b.width(640).height(480).title("Demo");
    assert_eq!((b.width, b.height, b.title), (640, 480, "Demo"));
}

#[test]
fn add_world_returns_its_index() {
    let mut app: App<Counter, u8, u32> = App::new();
    assert_eq!(app.world_count(), 0);
    assert_eq!(app.add_world(AppWorld::new(World::new(&mut WorldIds::new()), 1)), 0);
    assert_eq!(app.add_world(AppWorld::new(World::new(&mut WorldIds::new()), 2)), 1);
    assert_eq!(app.world(1).map(|w| w.camera), Some(2));
    assert!(app.world(2).is_none());
    assert_eq!(app.active_app_world().map(|w| w.camera), Some(1));
}

#[test]
fn pipelines_and_cameras_go_to_the_named_world() {
    let mut app: App<Counter, u8, u32> = App::new();
    app.add_world(AppWorld::new(World::new(&mut WorldIds::new()), 1));
    app.add_world(AppWorld::new(World::new(&mut WorldIds::new()), 2));
    app.add_render_pipeline(1, 10);
    app.add_render_pipeline(1, 11);
    app.set_world_camera(0, 9);
    assert_eq!(app.world(1).unwrap().pipelines, vec![10, 11]);
    assert!(app.world(0).unwrap().pipelines.is_empty());
    assert_eq!(app.world(0).unwrap().camera, 9);
    assert_eq!(app.world(1).unwrap().camera, 2);
}

#[test]
fn only_the_active_world_is_updated() {
    let mut app: App<Counter, u8, u32> = App::new();
    assert!(!app.update_active_world());
    let mut first = World::new(&mut WorldIds::new());
    first.add_entity(counter());
    let mut second = World::new(&mut WorldIds::new());
    second.add_entity(counter());
    app.add_world(AppWorld::new(first, 0));
    app.add_world(AppWorld::new(second, 0));
    app.set_active_world(1);
    assert_eq!(app.active_world_index(), 1);
    assert!(app.update_active_world());
    assert_eq!(app.world(0).unwrap().world.entities[0], counter());
    assert_eq!(app.world(1).unwrap().world.entities[0], Counter { updates: 1, draws: 1 });
    app.set_active_world(5);
    assert!(app.active_app_world().is_none());
    assert!(!app.update_active_world());
}
