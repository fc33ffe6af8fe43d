use ride_mode::error::ModeField;
use ride_mode::modes::{index_of, mode_steps, steps_between, MODES, MODE_COUNT};

fn steps(from: &str, to: &str) -> usize {
    mode_steps(index_of(from).unwrap(), index_of(to).unwrap())
}

#[test]
fn ordering_is_glide_combat_ballistic() {
    assert_eq!(MODES, ["glide", "combat", "ballistic"]);
    assert_eq!(MODE_COUNT, 3);
    assert_eq!(index_of("glide"), Some(0));
    assert_eq!(index_of("combat"), Some(1));
    assert_eq!(index_of("ballistic"), Some(2));
}

#[test]
fn unknown_names_have_no_index() {
    assert_eq!(index_of("hyperdrive"), None);
    assert_eq!(index_of(""), None);
    assert_eq!(index_of("Glide"), None);
    assert_eq!(index_of("glide "), None);
    assert_eq!(index_of("glid"), None);
}

#[test]
fn steps_glide_to_combat_is_one() {
    assert_eq!(steps("glide", "combat"), 1);
}

#[test]
fn steps_combat_to_glide_is_two() {
    assert_eq!(steps("combat", "glide"), 2);
}

#[test]
fn steps_ballistic_to_glide_is_one() {
    assert_eq!(steps("ballistic", "glide"), 1);
}

#[test]
fn steps_to_same_mode_is_zero() {
    for name in MODES {
        assert_eq!(steps(name, name), 0);
    }
}

#[test]
fn steps_follow_the_formula_on_every_pair() {
    for from in 0..3usize {
        for to in 0..3usize {
            assert_eq!(mode_steps(from, to), (to + 3 - from) % 3);
            assert_eq!((from + mode_steps(from, to)) % 3, to);
        }
    }
}

#[test]
fn steps_never_go_backward() {
    assert_eq!(steps("glide", "ballistic"), 2);
    assert_eq!(steps("ballistic", "combat"), 2);
    assert_eq!(steps("combat", "ballistic"), 1);
}

#[test]
fn steps_between_on_other_rings() {
    assert_eq!(steps_between(0, 0, 1), 0);
    assert_eq!(steps_between(4, 1, 5), 2);
    assert_eq!(steps_between(1, 4, 5), 3);
    assert_eq!(steps_between(usize::MAX - 1, 0, usize::MAX), 1);
    assert_eq!(steps_between(0, usize::MAX - 1, usize::MAX), usize::MAX - 1);
}

#[test]
fn mode_fields_have_their_names() {
    assert_eq!(ModeField::CurrentMode.name(), "current_mode");
    assert_eq!(ModeField::ChangeToMode.name(), "change_to_mode");
}
