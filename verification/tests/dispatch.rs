use kyoka::dispatch::{
    conclude, handling, notice_after, Command, EventFailed, Handling, Incoming, RunError,
    FAILURE_NOTICE,
};
use kyoka::runtime::{is_running_in_docker, mentions_docker, release_name};
use kyoka::text::contains_text;

#[test]
fn commands_by_name() {
    assert!(matches!(Command::from_name("ping"), Ok(Command::Ping)));
    assert!(Command::from_name("Ping").is_err());
    assert!(Command::from_name("pong").is_err());
    assert!(Command::from_name("").is_err());
    assert!(Command::from_name("ping ").is_err());
    assert_eq!(Command::Ping.name(), "ping");
    assert_eq!(Command::Ping.description(), "Responds back with pong");
    assert_eq!(Command::Ping.reply(), "Pong!");
}

#[test]
fn events_are_handled_by_kind() {
    assert_eq!(handling(Incoming::Hello), Handling::NoteHello);
    assert_eq!(handling(Incoming::Ready), Handling::NoteReady);
    assert_eq!(
        handling(Incoming::CommandInteraction { name: "ping" }),
        Handling::Run(Command::Ping)
    );
    assert_eq!(handling(Incoming::CommandInteraction { name: "join" }), Handling::Apologize);
    assert_eq!(handling(Incoming::OtherInteraction), Handling::Skip);
    assert_eq!(handling(Incoming::Other), Handling::Skip);
}

#[test]
fn failed_command_is_apologized_for() {
    assert_eq!(notice_after(&Ok(())), None);
    assert_eq!(notice_after(&Err(RunError)), Some(FAILURE_NOTICE));
    assert_eq!(
        FAILURE_NOTICE,
        "There's something wrong with your request. Please report this to the developers immediately!"
    );
}

#[test]
fn event_fails_only_if_its_notice_is_lost() {
    assert!(conclude(false, false).is_ok());
    assert!(conclude(false, true).is_ok());
    assert!(conclude(true, true).is_ok());
    assert!(conclude(true, false).is_err());
    assert_eq!(EventFailed.message(), "Failed to process event");
    assert_eq!(RunError.message(), "Failed to run command");
}

#[test]
fn text_is_searched() {
    assert!(contains_text("abc", ""));
    assert!(contains_text("", ""));
    assert!(!contains_text("", "a"));
    assert!(contains_text("abc", "abc"));
    assert!(contains_text("abc", "a"));
    assert!(contains_text("abc", "c"));
    assert!(contains_text("abc", "bc"));
    assert!(!contains_text("abc", "abcd"));
    assert!(!contains_text("abc", "ac"));
    assert!(contains_text("aab", "ab"));
    assert!(contains_text("1:name=systemd:/docker/abc", "/docker/"));
    assert!(!contains_text("1:name=systemd:/docker", "/docker/"));
    assert!(contains_text("héllo wörld", "wör"));
}

#[test]
fn container_is_detected() {
    assert!(!mentions_docker(None));
    assert!(!mentions_docker(Some("")));
    assert!(!mentions_docker(Some("0::/init.scope")));
    assert!(mentions_docker(Some("12:cpu:/docker/0123456789")));
    assert!(!is_running_in_docker(false, false, None, None));
    assert!(!is_running_in_docker(false, false, Some("0::/"), Some("/ / rw")));
    assert!(is_running_in_docker(true, false, None, None));
    assert!(is_running_in_docker(false, true, None, None));
    assert!(is_running_in_docker(false, false, Some("1:x:/docker/a"), None));
    assert!(is_running_in_docker(false, false, None, Some("/var/lib/docker/overlay2 /")));
}

#[test]
fn release_is_named() {
    assert_eq!(release_name("kyoka-shard", Some("0.1.0")), Some("kyoka-shard@0.1.0".to_string()));
    assert_eq!(release_name("", Some("")), Some("@".to_string()));
    assert_eq!(release_name("kyoka-shard", None), None);
}
