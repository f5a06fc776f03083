use vpn_toggle::failure::Fault;
use vpn_toggle::gateway::{command_for, Command, GatewayReply, Request};
use vpn_toggle::policy::ToggleDecision;

fn command(program: &str, arguments: &[&str]) -> Command {
    Command {
        program: program.to_string(),
        arguments: arguments.iter().map(|word| word.to_string()).collect(),
    }
}

#[test]
fn listing_command_asks_for_active_flag_and_ssid() {
    assert_eq!(
        command_for(Request::Listing, "wg0"),
        command("nmcli", &["-t", "-f", "active,ssid", "dev", "wifi"])
    );
}

#[test]
fn listing_command_does_not_name_the_tunnel() {
    assert_eq!(command_for(Request::Listing, "wg0"), command_for(Request::Listing, "other"));
}

#[test]
fn start_command_brings_the_connection_up() {
    assert_eq!(
        command_for(Request::Toggle(ToggleDecision::StartVpn), "wg0"),
        command("nmcli", &["connection", "up", "id", "wg0"])
    );
}

#[test]
fn stop_command_brings_the_connection_down() {
    assert_eq!(
        command_for(Request::Toggle(ToggleDecision::StopVpn), "wg0"),
        command("nmcli", &["connection", "down", "id", "wg0"])
    );
}

#[test]
fn toggle_command_passes_the_identifier_as_one_argument() {
    assert_eq!(
        command_for(Request::Toggle(ToggleDecision::StartVpn), "Office VPN (wg)"),
        command("nmcli", &["connection", "up", "id", "Office VPN (wg)"])
    );
}

#[test]
fn successful_exit_is_no_fault() {
    let reply = GatewayReply::Exited {
        success: true,
        stdout: b"out".to_vec(),
        stderr: b"warning: ignored".to_vec(),
    };
    assert!(reply.succeeded());
    assert_eq!(reply.fault(), None);
}

#[test]
fn failed_exit_reports_the_error_stream() {
    let reply = GatewayReply::Exited {
        success: false,
        stdout: b"out".to_vec(),
        stderr: b"Error: unknown connection 'wg0'.\n".to_vec(),
    };
    assert!(!reply.succeeded());
    assert_eq!(
        reply.fault(),
        Some(Fault::Unsuccessful("Error: unknown connection 'wg0'.\n".to_string()))
    );
}

#[test]
fn failed_exit_reports_ill_formed_error_stream_as_text() {
    let reply =
        GatewayReply::Exited { success: false, stdout: Vec::new(), stderr: b"bad \xf0\x28 byte".to_vec() };
    assert_eq!(reply.fault(), Some(Fault::Unsuccessful("bad \u{FFFD}( byte".to_string())));
}

#[test]
fn launch_failure_reports_its_reason() {
    let reply = GatewayReply::NotLaunched { reason: "No such file or directory".to_string() };
    assert!(!reply.succeeded());
    assert_eq!(reply.fault(), Some(Fault::NotLaunched("No such file or directory".to_string())));
}
