use vpn_toggle::gateway::GatewayReply;
use vpn_toggle::resolver::{active_identity, resolve};
use vpn_toggle::text::{characters, same_text};

fn found(identity: &str) -> Option<String> {
    Some(identity.to_string())
}

// The same question put to the standard library's own line and prefix
// functions.
fn by_standard_library(text: &str) -> Option<String> {
    for line in text.lines() {
        if line.starts_with("yes:") {
            return Some(line.replacen("yes:", "", 1));
        }
    }
    None
}

fn exited(stdout: &[u8]) -> GatewayReply {
    GatewayReply::Exited { success: true, stdout: stdout.to_vec(), stderr: Vec::new() }
}

#[test]
fn first_active_line_wins_and_keeps_later_colons() {
    assert_eq!(active_identity("no:Foo\nyes:Bar:Baz\nno:Qux"), found("Bar:Baz"));
    assert_eq!(active_identity("no:Foo\nyes:Bar:Baz\nno:Qux\n"), found("Bar:Baz"));
}

#[test]
fn no_active_line_gives_nothing() {
    assert_eq!(active_identity("no:Foo\nno:Bar\nno:Qux\n"), None);
    assert_eq!(active_identity("no:Foo"), None);
}

#[test]
fn empty_listing_gives_nothing() {
    assert_eq!(active_identity(""), None);
    assert_eq!(active_identity("\n"), None);
    assert_eq!(active_identity("\n\n\n"), None);
}

#[test]
fn only_the_first_of_two_active_lines_counts() {
    assert_eq!(active_identity("yes:First\nyes:Second\n"), found("First"));
    assert_eq!(active_identity("no:Zero\nyes:First\nno:Mid\nyes:Second"), found("First"));
}

#[test]
fn active_line_may_stand_anywhere() {
    assert_eq!(active_identity("yes:Top\nno:A\nno:B\n"), found("Top"));
    assert_eq!(active_identity("no:A\nno:B\nyes:Bottom\n"), found("Bottom"));
    assert_eq!(active_identity("no:A\nno:B\nyes:Bottom"), found("Bottom"));
    assert_eq!(active_identity("\n\nyes:AfterBlankLines\n"), found("AfterBlankLines"));
}

#[test]
fn marker_is_removed_exactly_once() {
    assert_eq!(active_identity("yes:yes:Twice\n"), found("yes:Twice"));
    assert_eq!(active_identity("yes::Leading\n"), found(":Leading"));
    assert_eq!(active_identity("yes:Trailing:\n"), found("Trailing:"));
}

#[test]
fn active_line_may_name_an_empty_identity() {
    assert_eq!(active_identity("yes:"), found(""));
    assert_eq!(active_identity("yes:\nyes:Later\n"), found(""));
}

#[test]
fn marker_must_open_the_line_in_full() {
    assert_eq!(active_identity("yes"), None);
    assert_eq!(active_identity("ye\ns:Split\n"), None);
    assert_eq!(active_identity(" yes:Indented\n"), None);
    assert_eq!(active_identity("Yes:Capital\n"), None);
    assert_eq!(active_identity("YES:Upper\n"), None);
    assert_eq!(active_identity("no:yes:Inside\n"), None);
    assert_eq!(active_identity("yes;Semicolon\n"), None);
}

#[test]
fn carriage_return_before_line_feed_ends_the_line() {
    assert_eq!(active_identity("no:A\r\nyes:B\r\nno:C\r\n"), found("B"));
    assert_eq!(active_identity("yes:\r\n"), found(""));
}

#[test]
fn lone_carriage_return_belongs_to_the_line() {
    assert_eq!(active_identity("yes:B\r"), found("B\r"));
    assert_eq!(active_identity("yes:A\rB\n"), found("A\rB"));
    assert_eq!(active_identity("yes:A\r\r\n"), found("A\r"));
    assert_eq!(active_identity("no:A\ryes:B\n"), None);
}

#[test]
fn identity_keeps_spaces_and_text_beyond_ascii() {
    assert_eq!(active_identity("no:A\nyes:  Café ☕ 5GHz \n"), found("  Café ☕ 5GHz "));
    assert_eq!(active_identity("no:Ünïcödé\nyes:日本語:ネット\n"), found("日本語:ネット"));
}

#[test]
fn listing_agrees_with_standard_library_lines() {
    let listings = [
        "",
        "\n",
        "\r\n",
        "\r",
        "yes:",
        "yes:\r",
        "yes:\r\n",
        "yes",
        "no:Foo\nyes:Bar:Baz\nno:Qux",
        "no:Foo\nyes:Bar:Baz\nno:Qux\n",
        "no:Foo\r\nyes:Bar:Baz\r\nno:Qux\r\n",
        "no:Foo\n\nyes:Bar\n",
        "no:Foo\n\r\nyes:Bar\r",
        "yes:A\r\r\nyes:B",
        "no:A\ryes:B\n",
        "no:yes:A\nyes:yes:B\n",
        "ye\ns:A\n",
        "no:é\nyes:é☕\r\n",
        "\n\n\nyes:Late",
        "yes:First\nyes:Second\n",
    ];
    for listing in listings {
        assert_eq!(active_identity(listing), by_standard_library(listing), "listing {:?}", listing);
    }
}

#[test]
fn resolve_reads_successful_listing() {
    assert_eq!(resolve(&exited(b"no:Foo\nyes:Bar:Baz\nno:Qux\n")), found("Bar:Baz"));
    assert_eq!(resolve(&exited(b"no:Foo\nno:Qux\n")), None);
    assert_eq!(resolve(&exited(b"")), None);
}

#[test]
fn resolve_gives_nothing_for_failed_listing() {
    let failed = GatewayReply::Exited {
        success: false,
        stdout: b"yes:Home\n".to_vec(),
        stderr: b"Error: NetworkManager is not running.\n".to_vec(),
    };
    assert_eq!(resolve(&failed), None);
    let missing = GatewayReply::NotLaunched { reason: "No such file or directory".to_string() };
    assert_eq!(resolve(&missing), None);
}

#[test]
fn resolve_decodes_well_formed_text() {
    assert_eq!(resolve(&exited("yes:Café ☕\n".as_bytes())), found("Café ☕"));
}

#[test]
fn resolve_replaces_ill_formed_bytes() {
    assert_eq!(resolve(&exited(b"yes:Caf\xff\n")), found("Caf\u{FFFD}"));
    assert_eq!(resolve(&exited(b"\xffyes:Home\n")), None);
    assert_eq!(resolve(&exited(b"no:\xc3\nyes:Home\n")), found("Home"));
}

#[test]
fn same_text_compares_characters() {
    assert!(same_text("", ""));
    assert!(same_text("HomeNet", "HomeNet"));
    assert!(same_text("日本語", "日本語"));
    assert!(!same_text("HomeNet", "HomeNe"));
    assert!(!same_text("HomeNet", "HomeNez"));
    assert!(!same_text("", "x"));
    assert!(!same_text("é", "e\u{301}"));
}

#[test]
fn characters_lists_every_character_in_order() {
    assert_eq!(characters(""), Vec::<char>::new());
    assert_eq!(characters("yes:é☕\n"), vec!['y', 'e', 's', ':', 'é', '☕', '\n']);
}
