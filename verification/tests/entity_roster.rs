use korangar::entity_roster::EntityRoster;

fn roster(entries: &[(u32, &'static str)]) -> EntityRoster<&'static str> {
    let mut roster = EntityRoster::new();
    for (id, entity) in entries {
        roster.push(*id, *entity);
    }
    roster
}

fn contents(roster: &EntityRoster<&'static str>) -> Vec<&'static str> {
    (0..roster.len()).map(|index| *roster.get(index)).collect()
}

#[test]
fn new_roster_has_no_player() {
    let roster: EntityRoster<&'static str> = EntityRoster::new();
    assert!(roster.is_empty());
    assert_eq!(roster.len(), 0);
    assert_eq!(roster.player(), None);
}

#[test]
fn entities_keep_the_order_they_came_in() {
    let roster = roster(&[(100, "player"), (7, "poring"), (9, "lunatic")]);
    assert_eq!(contents(&roster), vec!["player", "poring", "lunatic"]);
    assert_eq!(roster.player(), Some(&"player"));
}

#[test]
fn removing_an_entity_drops_all_with_its_id_and_keeps_the_rest() {
    let mut roster = roster(&[(100, "player"), (7, "poring"), (9, "lunatic"), (7, "poring again")]);
    roster.remove_entity(7);
    assert_eq!(contents(&roster), vec!["player", "lunatic"]);
    assert_eq!(roster.position(7), None);
    assert_eq!(roster.player(), Some(&"player"));
}

#[test]
fn removing_an_absent_entity_changes_nothing() {
    let mut roster = roster(&[(100, "player"), (7, "poring")]);
    roster.remove_entity(42);
    assert_eq!(contents(&roster), vec!["player", "poring"]);
}

#[test]
fn position_finds_the_first_entity_with_the_id() {
    let roster = roster(&[(100, "player"), (7, "poring"), (7, "second poring")]);
    assert_eq!(roster.position(7), Some(1));
    assert_eq!(roster.position(100), Some(0));
    assert_eq!(roster.position(8), None);
}

#[test]
fn pushed_entity_is_found_behind_the_others() {
    let mut roster = roster(&[(100, "player"), (7, "poring")]);
    roster.push(12, "fabre");
    assert_eq!(roster.position(12), Some(2));
}

#[test]
fn replacing_keeps_id_and_place() {
    let mut roster = roster(&[(100, "player"), (7, "poring"), (9, "lunatic")]);
    roster.replace(1, "moved poring");
    assert_eq!(contents(&roster), vec!["player", "moved poring", "lunatic"]);
    assert_eq!(roster.position(7), Some(1));
}

#[test]
fn changing_map_keeps_only_the_player() {
    let mut roster = roster(&[(100, "player"), (7, "poring"), (9, "lunatic")]);
    let player = roster.take_player();
    assert_eq!(player, Some((100, "player")));
    assert!(roster.is_empty());
    let (id, entity) = player.unwrap();
    roster.push(id, entity);
    assert_eq!(contents(&roster), vec!["player"]);
    assert_eq!(roster.position(100), Some(0));
}

#[test]
fn changing_map_without_player_gives_none() {
    let mut roster: EntityRoster<&'static str> = EntityRoster::new();
    assert_eq!(roster.take_player(), None);
    assert!(roster.is_empty());
}
