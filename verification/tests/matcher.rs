use admin_backend::application::permission_service::resource_matches;

#[test]
fn universal_pattern_covers_everything() {
    assert!(resource_matches("/*", "/anything"));
    assert!(resource_matches("/*", "anything"));
    assert!(resource_matches("/*", ""));
    assert!(resource_matches("/*", "/v1/users/42"));
}

#[test]
fn prefix_pattern_covers_what_begins_with_the_prefix() {
    assert!(resource_matches("/v1/users*", "/v1/users/42"));
    assert!(resource_matches("/v1/users*", "/v1/users"));
    assert!(resource_matches("/v1/users*", "/v1/users2"));
    assert!(!resource_matches("/v1/users*", "/v1/other"));
    assert!(!resource_matches("/v1/users*", "/v1/user"));
    assert!(!resource_matches("/v1/users*", ""));
}

#[test]
fn exact_pattern_covers_itself_only() {
    assert!(resource_matches("/v1/users", "/v1/users"));
    assert!(!resource_matches("/v1/users", "/v1/users2"));
    assert!(!resource_matches("/v1/users", "/v1/users/"));
    assert!(!resource_matches("/v1/users", "/v1/user"));
}

#[test]
fn patterns_are_compared_as_received() {
    assert!(!resource_matches("/v1/Users", "/v1/users"));
    assert!(!resource_matches("/v1/users/", "/v1/users"));
    assert!(!resource_matches("/V1/users*", "/v1/users/42"));
}

#[test]
fn lone_star_covers_everything() {
    assert!(resource_matches("*", ""));
    assert!(resource_matches("*", "/reports"));
    assert!(resource_matches("*", "reports"));
}

#[test]
fn empty_pattern_covers_the_empty_path_only() {
    assert!(resource_matches("", ""));
    assert!(!resource_matches("", "/"));
}

#[test]
fn star_inside_a_pattern_is_a_plain_character() {
    assert!(!resource_matches("/v1/*/users", "/v1/x/users"));
    assert!(resource_matches("/v1/*/users", "/v1/*/users"));
    assert!(resource_matches("/v1/**", "/v1/*"));
    assert!(!resource_matches("/v1/**", "/v1/x"));
}

#[test]
fn patterns_with_characters_of_several_bytes() {
    assert!(resource_matches("/café*", "/café/au/lait"));
    assert!(!resource_matches("/café*", "/cafe/au/lait"));
    assert!(resource_matches("/日本*", "/日本語"));
    assert!(!resource_matches("/日本語", "/日本"));
    assert!(resource_matches("/日本語", "/日本語"));
}
