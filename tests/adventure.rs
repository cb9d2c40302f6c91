use dungeon::command::{parse_command, read_command, split_words, Command, ItemVerb};
use dungeon::game::{there_is_or_are, Game, Reply};
use dungeon::item::{enumerate_items, find_item, same_text, Item};
use dungeon::player::{drop_item, move_player, pickup_item, Player};
use dungeon::world::{load_level, Direction};

fn item(name: &str, description: &str) -> Item {
    Item { name: name.to_string(), description: description.to_string() }
}

fn names(items: &Vec<Item>) -> Vec<String> {
    items.iter().map(|i| i.name.clone()).collect()
}

#[test]
fn walk_pick_list_drop_and_return() {
    let mut g = Game::new();
    assert_eq!(g.player.location, 0);
    assert_eq!(g.turn("n"), Reply::Moved(1));
    assert_eq!(g.player.location, 1);
    assert_eq!(g.turn("pickup key"), Reply::PickedUp("key".to_string()));
    assert_eq!(names(&g.player.inventory), vec!["key".to_string()]);
    assert!(g.locations[1].items.is_empty());
    assert_eq!(g.turn("i"), Reply::Items(vec![(1, "key".to_string())]));
    assert_eq!(g.turn("drop key"), Reply::Dropped("key".to_string()));
    assert!(g.player.inventory.is_empty());
    assert_eq!(names(&g.locations[1].items), vec!["key".to_string()]);
    assert_eq!(g.turn("s"), Reply::Moved(0));
    assert_eq!(g.player.location, 0);
}

#[test]
fn pickup_without_a_name_is_a_usage_error() {
    for start in 0..5usize {
        let mut g = Game::new();
        g.player.location = start;
        assert_eq!(g.turn("pickup"), Reply::Usage(ItemVerb::Pickup));
        assert!(g.player.inventory.is_empty());
        assert_eq!(g.locations[1].items.len(), 1);
    }
    let mut g = Game::new();
    assert_eq!(g.turn("drop"), Reply::Usage(ItemVerb::Drop));
    assert_eq!(g.turn("examine"), Reply::Usage(ItemVerb::Examine));
    assert_eq!(g.turn("x"), Reply::Usage(ItemVerb::Examine));
}

#[test]
fn unknown_word_is_invalid_and_changes_nothing() {
    let mut g = Game::new();
    g.turn("n");
    g.turn("pickup key");
    assert_eq!(g.turn("xyz"), Reply::Invalid);
    assert_eq!(g.player.location, 1);
    assert_eq!(names(&g.player.inventory), vec!["key".to_string()]);
    assert!(g.locations[1].items.is_empty());
}

#[test]
fn blank_line_is_invalid() {
    let mut g = Game::new();
    assert_eq!(g.turn(""), Reply::Invalid);
    assert_eq!(g.turn("   \t "), Reply::Invalid);
    assert_eq!(g.player.location, 0);
}

#[test]
fn quit_says_farewell_anywhere() {
    let mut g = Game::new();
    assert_eq!(g.turn("q"), Reply::Farewell);
    g.turn("n");
    g.turn("pickup key");
    assert_eq!(g.turn("q"), Reply::Farewell);
    assert_eq!(g.turn("quit"), Reply::Farewell);
    assert_eq!(g.player.location, 1);
}

#[test]
fn blocked_exit_keeps_the_player_in_place() {
    let mut g = Game::new();
    g.turn("n");
    for dir in ["n", "e", "w"] {
        assert_eq!(g.turn(dir), Reply::Blocked);
        assert_eq!(g.player.location, 1);
    }
}

#[test]
fn every_open_exit_of_the_start_room_leads_to_its_target() {
    for (dir, target) in [("n", 1usize), ("e", 2), ("s", 3), ("w", 4)] {
        let mut g = Game::new();
        assert_eq!(g.turn(dir), Reply::Moved(target));
        assert_eq!(g.player.location, target);
    }
}

#[test]
fn commands_ignore_case_and_extra_space() {
    let mut g = Game::new();
    assert_eq!(g.turn("  N  "), Reply::Moved(1));
    assert_eq!(g.turn("PickUp KEY"), Reply::PickedUp("key".to_string()));
    assert_eq!(read_command("DROP Key"), Command::Drop("key".to_string()));
}

#[test]
fn round_trip_restores_room_and_inventory() {
    let mut g = Game::new();
    g.turn("n");
    let room_before = names(&g.locations[1].items);
    let inv_before = names(&g.player.inventory);
    g.turn("pickup key");
    g.turn("drop key");
    assert_eq!(names(&g.locations[1].items), room_before);
    assert_eq!(names(&g.player.inventory), inv_before);
}

#[test]
fn missing_items_are_reported() {
    let mut g = Game::new();
    assert_eq!(g.turn("pickup key"), Reply::NotFound);
    assert_eq!(g.turn("drop key"), Reply::NotFound);
    assert_eq!(g.turn("examine key"), Reply::Unseen);
    assert!(g.player.inventory.is_empty());
}

#[test]
fn examine_looks_in_the_inventory_then_the_room() {
    let mut g = Game::new();
    g.turn("n");
    assert_eq!(g.turn("x key"), Reply::Description("A shiny key".to_string()));
    g.player.inventory.push(item("key", "A rusty key"));
    assert_eq!(g.turn("examine key"), Reply::Description("A rusty key".to_string()));
}

#[test]
fn inventory_and_character_replies() {
    let mut g = Game::new();
    assert_eq!(g.turn("i"), Reply::NoItems);
    assert_eq!(g.turn("c"), Reply::Character);
    assert_eq!(g.player.name, "Malaidas");
    assert_eq!(g.player.strength, 10);
    assert_eq!(g.player.constitution, 10);
}

#[test]
fn listing_numbers_from_one_in_order() {
    let items = vec![item("lamp", "A lamp"), item("rope", "A rope"), item("coin", "A coin")];
    let l = enumerate_items(&items);
    assert_eq!(l, vec![(1, "lamp".to_string()), (2, "rope".to_string()), (3, "coin".to_string())]);
    assert_eq!(enumerate_items(&items), l);
    assert!(enumerate_items(&Vec::new()).is_empty());
}

#[test]
fn first_match_wins() {
    let items = vec![item("a", "1"), item("b", "2"), item("b", "3")];
    assert_eq!(find_item(&items, "b"), Some(1));
    assert_eq!(find_item(&items, "c"), None);
    assert!(same_text("key", "key"));
    assert!(!same_text("key", "keys"));
}

#[test]
fn words_are_split_on_any_whitespace() {
    assert_eq!(split_words("  a  bb\tc \n"), vec!["a".to_string(), "bb".to_string(), "c".to_string()]);
    assert!(split_words("").is_empty());
    assert_eq!(split_words("one"), vec!["one".to_string()]);
    assert_eq!(parse_command("pickup key extra"), Command::Pickup("key".to_string()));
    assert_eq!(parse_command("w"), Command::Go(Direction::West));
    assert_eq!(parse_command("look"), Command::Invalid);
}

#[test]
fn level_layout() {
    let level = load_level();
    assert_eq!(level.len(), 5);
    assert_eq!(level[0].description, "You are in the Start Room");
    assert_eq!(level[0].exit_of(Direction::South), Some(3));
    assert_eq!(level[1].exit_of(Direction::South), Some(0));
    assert_eq!(level[1].exit_of(Direction::North), None);
    assert_eq!(level[4].exit_of(Direction::East), Some(0));
    assert_eq!(names(&level[1].items), vec!["key".to_string()]);
    assert_eq!(level[1].items[0].description, "A shiny key");
}

#[test]
fn player_primitives() {
    let mut level = load_level();
    let mut p = Player::new("Tess");
    assert_eq!(move_player(&mut p, &level[0], Direction::East), Some(2));
    assert_eq!(p.location, 2);
    assert_eq!(move_player(&mut p, &level[2], Direction::North), None);
    assert_eq!(p.location, 2);
    pickup_item(&mut p, &mut level[1], 0);
    assert_eq!(names(&p.inventory), vec!["key".to_string()]);
    drop_item(&mut p, &mut level[2], 0);
    assert_eq!(names(&level[2].items), vec!["key".to_string()]);
}

#[test]
fn room_heading_verb() {
    assert_eq!(there_is_or_are(1), "is");
    assert_eq!(there_is_or_are(2), "are");
    let mut g = Game::new();
    g.turn("n");
    assert_eq!(g.room_listing(), vec![(1, "key".to_string())]);
    assert_eq!(g.current_location().description, "You are in a dark room.");
}
