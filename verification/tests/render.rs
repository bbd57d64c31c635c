use steam_watch::{default_description, BuildInfo, State};

const DEFAULT_LINE: &str = "Branch: none; Build ID: 0; Timestamp: 0; Description: No description";

#[test]
fn default_description_is_the_placeholder() {
    assert_eq!(default_description(), "No description");
}

#[test]
fn default_descriptor_fields() {
    let d = BuildInfo::default();
    assert_eq!(d.branch(), "none");
    assert_eq!(d.build_id(), 0);
    assert_eq!(d.timestamp(), 0);
    assert_eq!(d.description(), "No description");
}

#[test]
fn a_descriptor_keeps_what_it_was_made_of() {
    let b = BuildInfo::new("beta".to_string(), 19283746, 1431648000, "Spring update".to_string());
    assert_eq!(b.branch(), "beta");
    assert_eq!(b.build_id(), 19283746);
    assert_eq!(b.timestamp(), 1431648000);
    assert_eq!(b.description(), "Spring update");
}

#[test]
fn renders_a_descriptor_on_one_line() {
    let b = BuildInfo::new("beta".to_string(), 19283746, 1431648000, "Spring update".to_string());
    assert_eq!(
        b.render(),
        "Branch: beta; Build ID: 19283746; Timestamp: 1431648000; Description: Spring update"
    );
}

#[test]
fn renders_the_default_descriptor() {
    assert_eq!(BuildInfo::default().render(), DEFAULT_LINE);
}

#[test]
fn renders_negative_numbers_and_empty_texts() {
    let b = BuildInfo::new(String::new(), -5, i64::MIN, String::new());
    assert_eq!(
        b.render(),
        "Branch: ; Build ID: -5; Timestamp: -9223372036854775808; Description: "
    );
}

#[test]
fn empty_history_renders_the_default_in_both_blocks() {
    let expected = format!("Current build:\n\t{}\nPrevious build:\n\t{}", DEFAULT_LINE, DEFAULT_LINE);
    assert_eq!(State::new().render(), expected);
}

#[test]
fn history_with_one_build_renders_the_default_as_previous() {
    let mut state = State::new();
    state.observe(BuildInfo::new("public".to_string(), 100, 1000, "first".to_string()));
    assert_eq!(
        state.render(),
        format!(
            "Current build:\n\tBranch: public; Build ID: 100; Timestamp: 1000; Description: first\nPrevious build:\n\t{}",
            DEFAULT_LINE
        )
    );
}

#[test]
fn history_with_two_builds_renders_both() {
    let mut state = State::new();
    state.observe(BuildInfo::new("public".to_string(), 100, 1000, "first".to_string()));
    state.observe(BuildInfo::new("public".to_string(), 101, 2000, "second".to_string()));
    assert_eq!(
        state.render(),
        "Current build:\n\tBranch: public; Build ID: 101; Timestamp: 2000; Description: second\n\
         Previous build:\n\tBranch: public; Build ID: 100; Timestamp: 1000; Description: first"
    );
}
