use fab::structs::Color;
use fab::tasks::{Fields, Maniphest, Priority, Status};

fn maniphest_with_priority(value: i32, name: &str) -> Maniphest {
    Maniphest {
        id: 32,
        fields: Fields {
            name: String::from("Name of the task"),
            status: Status { name: String::from("open"), value: String::from("Open") },
            priority: Priority { value, name: String::from(name) },
        },
    }
}

#[test]
fn maniphest_get_colo_unbreak_now() {
    let maniphest = maniphest_with_priority(100, "Unbreak Now");

    assert_eq!(Color::Red, maniphest.get_background());
    assert_eq!(Color::White, maniphest.get_foreground());
}

#[test]
fn maniphest_get_colo_high() {
    let maniphest = maniphest_with_priority(80, "High");

    assert_eq!(Color::DarkRed, maniphest.get_background());
    assert_eq!(Color::White, maniphest.get_foreground());
}

#[test]
fn maniphest_get_color_needs_triage() {
    let maniphest = maniphest_with_priority(90, "Needs Triage");

    assert_eq!(Color::Magenta, maniphest.get_background());
    assert_eq!(Color::White, maniphest.get_foreground());
}

#[test]
fn maniphest_get_color_normal() {
    let maniphest = maniphest_with_priority(50, "Normal");

    assert_eq!(Color::DarkYellow, maniphest.get_background());
    assert_eq!(Color::Black, maniphest.get_foreground());
}

#[test]
fn maniphest_get_color_low() {
    let maniphest = maniphest_with_priority(25, "Low");

    assert_eq!(Color::Yellow, maniphest.get_background());
    assert_eq!(Color::Black, maniphest.get_foreground());
}

#[test]
fn maniphest_get_color_wishlist() {
    let maniphest = maniphest_with_priority(0, "Wishlist");

    assert_eq!(Color::Cyan, maniphest.get_background());
    assert_eq!(Color::Black, maniphest.get_foreground());
}

#[test]
fn maniphest_unknown_priority_falls_back_to_default_pair() {
    let maniphest = maniphest_with_priority(42, "Custom");

    assert_eq!(Color::Blue, maniphest.get_background());
    assert_eq!(Color::White, maniphest.get_foreground());
}
