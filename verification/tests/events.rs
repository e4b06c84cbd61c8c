use svgwatch::events::{handle_event, Action, ChangeKind, ChangeNotification};

fn note(kind: ChangeKind, paths: &[&str]) -> ChangeNotification {
    ChangeNotification { kind, paths: paths.iter().map(|p| p.to_string()).collect() }
}

#[test]
fn creation_converts() {
    let a = handle_event(&note(ChangeKind::Created, &["w/a.svg"]), false);
    assert_eq!(a, Action::Convert("w/a.svg".to_string()));
}

#[test]
fn change_of_content_converts() {
    let a = handle_event(&note(ChangeKind::DataModified, &["w/a.svg"]), false);
    assert_eq!(a, Action::Convert("w/a.svg".to_string()));
}

#[test]
fn rename_onto_a_source_converts() {
    let a = handle_event(&note(ChangeKind::NameChangedTo, &["w/a.svg"]), false);
    assert_eq!(a, Action::Convert("w/a.svg".to_string()));
}

#[test]
fn removal_removes_outputs() {
    let a = handle_event(&note(ChangeKind::Removed, &["w/a.svg"]), false);
    assert_eq!(a, Action::RemoveOutputs("w/a.svg".to_string()));
}

#[test]
fn rename_away_removes_outputs() {
    let a = handle_event(&note(ChangeKind::NameChangedFrom, &["w/a.svg"]), false);
    assert_eq!(a, Action::RemoveOutputs("w/a.svg".to_string()));
}

#[test]
fn paired_rename_moves_outputs() {
    let a = handle_event(&note(ChangeKind::NameChangedBoth, &["w/a.svg", "w/b.svg"]), false);
    assert_eq!(a, Action::RenameOutputs("w/a.svg".to_string(), "w/b.svg".to_string()));
}

#[test]
fn paired_rename_without_destination_is_ignored() {
    let a = handle_event(&note(ChangeKind::NameChangedBoth, &["w/a.svg"]), false);
    assert_eq!(a, Action::Ignore);
}

#[test]
fn other_kinds_are_ignored() {
    let a = handle_event(&note(ChangeKind::Other, &["w/a.svg"]), false);
    assert_eq!(a, Action::Ignore);
}

#[test]
fn notification_without_path_is_ignored() {
    for kind in [
        ChangeKind::Created,
        ChangeKind::DataModified,
        ChangeKind::NameChangedTo,
        ChangeKind::NameChangedFrom,
        ChangeKind::NameChangedBoth,
        ChangeKind::Removed,
        ChangeKind::Other,
    ] {
        assert_eq!(handle_event(&note(kind, &[]), false), Action::Ignore);
    }
}

#[test]
fn non_source_is_ignored_whatever_the_kind() {
    for kind in [
        ChangeKind::Created,
        ChangeKind::DataModified,
        ChangeKind::NameChangedTo,
        ChangeKind::NameChangedFrom,
        ChangeKind::NameChangedBoth,
        ChangeKind::Removed,
        ChangeKind::Other,
    ] {
        assert_eq!(handle_event(&note(kind, &["w/a.pdf", "w/b.svg"]), false), Action::Ignore);
    }
}

#[test]
fn directory_is_ignored_whatever_the_kind() {
    for kind in [
        ChangeKind::Created,
        ChangeKind::DataModified,
        ChangeKind::NameChangedTo,
        ChangeKind::NameChangedFrom,
        ChangeKind::NameChangedBoth,
        ChangeKind::Removed,
        ChangeKind::Other,
    ] {
        assert_eq!(handle_event(&note(kind, &["w/d.svg", "w/e.svg"]), true), Action::Ignore);
    }
}

#[test]
fn only_the_first_path_decides() {
    let a = handle_event(&note(ChangeKind::Created, &["w/a.svg", "w/b.txt"]), false);
    assert_eq!(a, Action::Convert("w/a.svg".to_string()));
}
