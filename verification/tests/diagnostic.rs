use seance::{abort_message, failure_message};

#[test]
fn failure_message_is_the_fixed_text() {
    assert_eq!(failure_message(), "error while running Séance");
}

#[test]
fn abort_message_appends_the_detail() {
    assert_eq!(abort_message("boom"), "error while running Séance: boom");
}

#[test]
fn abort_message_with_empty_detail() {
    assert_eq!(abort_message(""), "error while running Séance: ");
}

#[test]
fn abort_message_keeps_a_detail_that_is_not_ascii() {
    assert_eq!(abort_message("fenêtre: \"état\""), "error while running Séance: fenêtre: \"état\"");
}

#[test]
fn abort_message_contains_the_fixed_text() {
    for detail in ["", "x", "asset not found: index.html", "Séance"] {
        let message = abort_message(detail);
        assert!(message.contains("error while running Séance"));
        assert!(message.starts_with(failure_message()));
        assert!(message.ends_with(detail));
        assert_eq!(message.chars().count(), 28 + detail.chars().count());
    }
}
