use fab::structs::{Color, Fields, Revision, Status};

fn revision_with_status(name: &str) -> Revision {
    Revision {
        id: 1,
        fields: Fields {
            title: String::from("Sample diff"),
            status: Status { name: String::from(name), closed: false },
        },
    }
}

#[test]
fn test_get_foreground_background_accepted() {
    let revision = revision_with_status("Accepted");

    assert_eq!(Color::Green, revision.get_background());
    assert_eq!(Color::Black, revision.get_foreground());
}

#[test]
fn test_get_foreground_background_needs_revision() {
    let revision = revision_with_status("Needs Revision");

    assert_eq!(Color::Red, revision.get_background());
    assert_eq!(Color::White, revision.get_foreground());
}

#[test]
fn test_status_colors_needs_review() {
    let revision = revision_with_status("Needs Review");

    assert_eq!(Color::Magenta, revision.get_background());
    assert_eq!(Color::White, revision.get_foreground());
}

#[test]
fn changes_planned_colors() {
    let revision = revision_with_status("Changes Planned");

    assert_eq!(Color::Red, revision.get_background());
    assert_eq!(Color::White, revision.get_foreground());
}

#[test]
fn unknown_status_falls_back_to_default_pair() {
    let revision = revision_with_status("Abandoned");

    assert_eq!(Color::Yellow, revision.get_background());
    assert_eq!(Color::Black, revision.get_foreground());
}
