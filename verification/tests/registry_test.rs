use show::platform::CommandSupportOS;
use show::registry::{commands, list_line, listing};

#[test]
fn the_registry_holds_fifteen_commands_in_order() {
    let cmds = commands();
    let names: Vec<&str> = cmds.iter().map(|c| c.name.as_str()).collect();
    assert_eq!(
        names,
        vec![
            "ip",
            "time",
            "cal",
            "route",
            "network",
            "list_java",
            "listen_tcp",
            "listen_udp",
            "install_brew",
            "install_jenv",
            "install_ports",
            "install_sdkman",
            "install_dart",
            "wifi_info",
            "wifi_scan",
        ]
    );
}

#[test]
fn command_names_are_unique_and_none_is_the_sentinel() {
    let cmds = commands();
    for (i, a) in cmds.iter().enumerate() {
        assert_ne!(a.name.as_str(), ":::");
        for b in cmds.iter().skip(i + 1) {
            assert_ne!(a.name.as_str(), b.name.as_str());
        }
    }
}

#[test]
fn descriptors_declare_their_platforms() {
    let cmds = commands();
    assert!(matches!(cmds[0].support_os[..], [CommandSupportOS::Linux, CommandSupportOS::MacOS]));
    assert!(matches!(cmds[4].support_os[..], [CommandSupportOS::MacOS]));
}

#[test]
fn a_listing_line_shows_name_description_and_platforms() {
    let cmds = commands();
    assert_eq!(list_line(&cmds[2]).as_str(), "cal - Show calendar  [Linux, macOS]");
    assert_eq!(list_line(&cmds[14]).as_str(), "wifi_scan - Show wifi scan  [macOS]");
}

#[test]
fn the_listing_has_one_line_per_descriptor() {
    let cmds = commands();
    let lines = listing(&cmds);
    assert_eq!(lines.len(), cmds.len());
    for (line, cmd) in lines.iter().zip(cmds.iter()) {
        assert_eq!(line.as_str(), list_line(cmd).as_str());
    }
}
