use grbl_session::command::{query_batch, Axis, Command, Direction, Query};

#[test]
fn jog_left_is_one_step_back_along_x() {
    assert_eq!(Command::Jog(Direction::Left).encode(), "$J=G21G91X-1F100\n");
}

#[test]
fn jog_right_is_one_step_on_along_x() {
    assert_eq!(Command::Jog(Direction::Right).encode(), "$J=G21G91X1F100\n");
}

#[test]
fn jog_forward_is_one_step_on_along_y() {
    assert_eq!(Command::Jog(Direction::Forward).encode(), "$J=G21G91Y1F100\n");
}

#[test]
fn jog_back_is_one_step_back_along_y() {
    assert_eq!(Command::Jog(Direction::Back).encode(), "$J=G21G91Y-1F100\n");
}

#[test]
fn every_jog_line_ends_with_exactly_one_newline() {
    for direction in [Direction::Forward, Direction::Back, Direction::Left, Direction::Right] {
        let line = Command::Jog(direction).encode();
        assert!(line.ends_with('\n'));
        assert_eq!(line.matches('\n').count(), 1);
        assert!(line.is_ascii());
    }
}

#[test]
fn direction_table() {
    assert_eq!(Direction::Forward.axis(), Axis::Y);
    assert_eq!(Direction::Back.axis(), Axis::Y);
    assert_eq!(Direction::Left.axis(), Axis::X);
    assert_eq!(Direction::Right.axis(), Axis::X);
    assert!(Direction::Forward.positive());
    assert!(!Direction::Back.positive());
    assert!(!Direction::Left.positive());
    assert!(Direction::Right.positive());
}

#[test]
fn query_lines() {
    assert_eq!(Command::Query(Query::ExtendedInfo).encode(), "$I+\n");
    assert_eq!(Command::Query(Query::AllSettings).encode(), "$+\n");
    assert_eq!(Command::Query(Query::SettingsDetails).encode(), "$ES\n");
    assert_eq!(Command::Query(Query::SettingsGroups).encode(), "$EG\n");
}

#[test]
fn query_batch_has_the_fixed_order() {
    assert_eq!(
        query_batch(),
        vec![
            Command::Query(Query::ExtendedInfo),
            Command::Query(Query::AllSettings),
            Command::Query(Query::SettingsDetails),
            Command::Query(Query::SettingsGroups),
        ]
    );
}

#[test]
fn queries_follow_each_other_in_batch_order() {
    assert_eq!(Query::ExtendedInfo.next(), Some(Query::AllSettings));
    assert_eq!(Query::AllSettings.next(), Some(Query::SettingsDetails));
    assert_eq!(Query::SettingsDetails.next(), Some(Query::SettingsGroups));
    assert_eq!(Query::SettingsGroups.next(), None);
}
