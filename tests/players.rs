use demonlist::player::PlayerRegistry;

#[test]
fn resolving_twice_gives_same_player() {
    let mut reg = PlayerRegistry::new();
    let a = reg.by_name_or_create("stardust1971");
    let b = reg.by_name_or_create("stardust1971");
    assert_eq!(a, b);
    assert_eq!(a.id, 1);
    assert!(!a.banned);
    assert_eq!(reg.players().len(), 1);
    let c = reg.by_name_or_create("Zoink");
    assert_eq!(c.id, 2);
    assert_eq!(c.name, "Zoink");
    assert_eq!(reg.players().len(), 2);
}
