use gurps_reactions::character::{Character, ReactionMod};

#[test]
fn new_modifier_starts_enabled() {
    let m = ReactionMod::new("Foo", 5);
    assert_eq!(m.name, "Foo");
    assert_eq!(m.modi, 5);
    assert!(m.enabled);
}

#[test]
fn new_character_is_empty() {
    let c = Character::new("Alice");
    assert_eq!(c.name, "Alice");
    assert!(c.reaction_modifiers.is_empty());
}

#[test]
fn reaction_sum_bob() {
    let mut bob = Character::new("Bob");
    bob.reaction_modifiers.push(ReactionMod::new("Ugly", -6));
    bob.reaction_modifiers.push(ReactionMod::new("Kind", 1));
    assert_eq!(-5, bob.reaction_sum(true));
    assert_eq!(-5, bob.reaction_sum(false));
}

#[test]
fn reaction_sum_wicked_witch() {
    let mut witch = Character::new("wicked witch");
    witch.reaction_modifiers.push(ReactionMod::new("Wicked", -2));
    let social_stigma = ReactionMod {
        name: "Stigma".to_string(),
        modi: -1,
        enabled: false,
    };
    witch.reaction_modifiers.push(social_stigma);
    assert_eq!(-2, witch.reaction_sum(false));
    assert_eq!(-3, witch.reaction_sum(true));
}

#[test]
fn reaction_sum_empty_list_is_zero() {
    let c = Character::new("nobody");
    assert_eq!(0, c.reaction_sum(true));
    assert_eq!(0, c.reaction_sum(false));
}

#[test]
fn reaction_sum_all_enabled_both_agree() {
    let mut c = Character::new("hero");
    c.reaction_modifiers.push(ReactionMod::new("Charisma", 2));
    c.reaction_modifiers.push(ReactionMod::new("Reputation", 3));
    c.reaction_modifiers.push(ReactionMod::new("Scar", -1));
    assert_eq!(4, c.reaction_sum(false));
    assert_eq!(c.reaction_sum(true), c.reaction_sum(false));
}

#[test]
fn reaction_sum_all_disabled_counts_nothing() {
    let mut c = Character::new("ghost");
    for (name, value) in [("A", 4), ("B", -7), ("C", 0)] {
        let mut m = ReactionMod::new(name, value);
        m.enabled = false;
        c.reaction_modifiers.push(m);
    }
    assert_eq!(0, c.reaction_sum(false));
    assert_eq!(-3, c.reaction_sum(true));
}

#[test]
fn reaction_sum_mixed_signs_and_zero() {
    let mut c = Character::new("mixed");
    c.reaction_modifiers.push(ReactionMod::new("plus", 10));
    c.reaction_modifiers.push(ReactionMod::new("zero", 0));
    c.reaction_modifiers.push(ReactionMod::new("minus", -4));
    let mut off = ReactionMod::new("off", 100);
    off.enabled = false;
    c.reaction_modifiers.push(off);
    assert_eq!(6, c.reaction_sum(false));
    assert_eq!(106, c.reaction_sum(true));
}

#[test]
fn reaction_sum_order_independent() {
    let names = [("a", -6), ("b", 1), ("c", 9), ("d", -3)];
    let mut forward = Character::new("forward");
    for (name, value) in names {
        forward.reaction_modifiers.push(ReactionMod::new(name, value));
    }
    let mut backward = Character::new("backward");
    for (name, value) in names.iter().rev() {
        backward.reaction_modifiers.push(ReactionMod::new(name, *value));
    }
    assert_eq!(forward.reaction_sum(true), backward.reaction_sum(true));
    assert_eq!(forward.reaction_sum(false), backward.reaction_sum(false));
}

#[test]
fn reaction_sum_extreme_values_do_not_wrap() {
    let mut c = Character::new("extreme");
    c.reaction_modifiers.push(ReactionMod::new("big", i32::MAX));
    c.reaction_modifiers.push(ReactionMod::new("big again", i32::MAX));
    assert_eq!(2 * (i32::MAX as i128), c.reaction_sum(true));
}

#[test]
fn modifier_equality_is_structural() {
    let a = ReactionMod::new("Kind", 1);
    let b = ReactionMod::new("Kind", 1);
    assert_eq!(a, b);
    let mut c = ReactionMod::new("Kind", 1);
    c.enabled = false;
    assert_ne!(a, c);
    let d = ReactionMod::new("Kind", 2);
    assert_ne!(a, d);
    let e = ReactionMod::new("Cruel", 1);
    assert_ne!(a, e);
}

#[test]
fn character_equality_is_structural() {
    let mut a = Character::new("Bob");
    a.reaction_modifiers.push(ReactionMod::new("Ugly", -6));
    let mut b = Character::new("Bob");
    b.reaction_modifiers.push(ReactionMod::new("Ugly", -6));
    assert_eq!(a, b);
    b.reaction_modifiers.push(ReactionMod::new("Kind", 1));
    assert_ne!(a, b);
    let c = Character::new("Rob");
    assert_ne!(a, c);
}

#[test]
fn modifier_ordering_is_lexicographic() {
    let mut mods = vec![
        ReactionMod::new("b", 0),
        ReactionMod::new("a", 2),
        ReactionMod::new("a", 1),
    ];
    mods.sort();
    assert_eq!(mods[0], ReactionMod::new("a", 1));
    assert_eq!(mods[1], ReactionMod::new("a", 2));
    assert_eq!(mods[2], ReactionMod::new("b", 0));
}

#[test]
fn default_modifier_and_character_are_empty() {
    let m = ReactionMod::default();
    assert_eq!(m.name, "");
    assert_eq!(m.modi, 0);
    assert!(!m.enabled);
    let c = Character::default();
    assert_eq!(c.name, "");
    assert!(c.reaction_modifiers.is_empty());
}
