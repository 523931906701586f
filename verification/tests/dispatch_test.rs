use show::dispatch::{
    decide, decide_here, plan_action, ActionPlan, Directive, RemoteKind, UnsupportedPlatform,
};
use show::options::Options;
use show::platform::{CommandSupportOS, Platform};
use show::registry::commands;

fn options_for(cmd: &str) -> Options {
    Options { version: false, verbose: false, cmd: cmd.to_string() }
}

fn verbose_options_for(cmd: &str) -> Options {
    Options { version: false, verbose: true, cmd: cmd.to_string() }
}

#[test]
fn version_flag_wins() {
    let o = Options { version: true, verbose: false, cmd: "ip".to_string() };
    let d = decide(&o, Platform::Linux);
    assert!(d.echo.is_none());
    assert!(matches!(d.directive, Directive::ShowVersion));
}

#[test]
fn empty_command_gives_usage_hint() {
    let d = decide(&Options::new(), Platform::Linux);
    match d.directive {
        Directive::UsageHint { line } => assert_eq!(line.as_str(), "Use show --help print usage."),
        _ => panic!("expected the usage hint"),
    }
}

#[test]
fn sentinel_lists_every_descriptor_in_order() {
    let d = decide(&options_for(":::"), Platform::Linux);
    match d.directive {
        Directive::ListAll { lines } => {
            let cmds = commands();
            assert_eq!(lines.len(), cmds.len());
            assert_eq!(lines[0].as_str(), "ip - Show public IP  [Linux, macOS]");
            assert_eq!(lines[1].as_str(), "time - Show time  [Linux, macOS]");
            assert_eq!(lines[4].as_str(), "network - Show network  [macOS]");
            for (line, cmd) in lines.iter().zip(cmds.iter()) {
                assert!(line.starts_with(cmd.name.as_str()));
            }
        },
        _ => panic!("expected the listing"),
    }
}

#[test]
fn unknown_command_is_reported_and_not_fatal() {
    let d = decide(&options_for("not_a_real_command"), Platform::Linux);
    match d.directive {
        Directive::UnknownCommand { ref line } => {
            assert_eq!(line.as_str(), "Unknown command: not_a_real_command");
        },
        _ => panic!("expected an unknown command"),
    }
    assert!(!d.directive.is_fatal());
}

#[test]
fn ip_command_plans_the_ip_fetch() {
    let d = decide(&options_for("ip"), Platform::Linux);
    match d.directive {
        Directive::Fetch { url, kind } => {
            assert_eq!(url.as_str(), "https://hatter.ink/ip/ip.jsonp");
            assert!(matches!(kind, RemoteKind::Ip));
        },
        _ => panic!("expected the ip fetch"),
    }
}

#[test]
fn time_command_plans_the_time_fetch() {
    let d = decide(&options_for("time"), Platform::MacOS);
    match d.directive {
        Directive::Fetch { url, kind } => {
            assert_eq!(url.as_str(), "https://hatter.ink/time/time.jsonp");
            assert!(matches!(kind, RemoteKind::Time));
        },
        _ => panic!("expected the time fetch"),
    }
}

#[test]
fn macos_only_command_is_gated_on_linux() {
    let d = decide(&options_for("network"), Platform::Linux);
    match d.directive {
        Directive::Unsupported { ref message } => {
            assert_eq!(message.as_str(), "Only supports macOS.");
        },
        _ => panic!("expected the platform gate"),
    }
    assert!(d.directive.is_fatal());
}

#[test]
fn listen_tcp_differs_by_platform() {
    match decide(&options_for("listen_tcp"), Platform::Linux).directive {
        Directive::Execute { args, .. } => assert_eq!(args, vec!["netstat", "-ltnp"]),
        _ => panic!("expected an OS command"),
    }
    match decide(&options_for("listen_tcp"), Platform::MacOS).directive {
        Directive::Execute { args, .. } => {
            assert_eq!(args, vec!["lsof", "-iTCP", "-sTCP:LISTEN", "-n", "-P"]);
        },
        _ => panic!("expected an OS command"),
    }
    match decide(&options_for("listen_tcp"), Platform::Other).directive {
        Directive::Unsupported { message } => assert_eq!(message.as_str(), "Not linux or macos."),
        _ => panic!("expected the platform gate"),
    }
}

#[test]
fn install_ports_announces_on_macos() {
    match decide(&options_for("install_ports"), Platform::MacOS).directive {
        Directive::Announce { message } => {
            assert_eq!(message.as_str(), "Please access: https://www.macports.org/install.php");
        },
        _ => panic!("expected the fixed message"),
    }
}

#[test]
fn install_dart_announces_on_macos() {
    match decide(&options_for("install_dart"), Platform::MacOS).directive {
        Directive::Announce { message } => {
            assert_eq!(
                message.as_str(),
                "Please run command:\n$ brew tap dart-lang/dart\n$ brew install dart"
            );
        },
        _ => panic!("expected the fixed message"),
    }
}

#[test]
fn verbose_mode_echoes_command_and_command_line() {
    let d = decide(&verbose_options_for("route"), Platform::Linux);
    assert_eq!(d.echo.as_deref(), Some("Command: route"));
    match d.directive {
        Directive::Execute { args, echo } => {
            assert_eq!(args, vec!["netstat", "-nr"]);
            assert_eq!(echo.as_deref(), Some("Run command: netstat -nr"));
        },
        _ => panic!("expected an OS command"),
    }
}

#[test]
fn non_verbose_mode_echoes_nothing() {
    let d = decide(&options_for("route"), Platform::Linux);
    assert!(d.echo.is_none());
    match d.directive {
        Directive::Execute { echo, .. } => assert!(echo.is_none()),
        _ => panic!("expected an OS command"),
    }
}

#[test]
fn every_registered_name_dispatches_without_lookup_failure() {
    for platform in [Platform::Linux, Platform::MacOS] {
        for cmd in commands() {
            let d = decide(&options_for(cmd.name.as_str()), platform);
            let supported = cmd.support_os.iter().any(|tag| {
                matches!(
                    (platform, tag),
                    (Platform::Linux, CommandSupportOS::Linux)
                        | (Platform::MacOS, CommandSupportOS::MacOS)
                )
            });
            match d.directive {
                Directive::UnknownCommand { .. } => {
                    panic!("lookup failed for {}", cmd.name);
                },
                Directive::Unsupported { message } => {
                    assert!(!supported, "{} gated although supported", cmd.name);
                    assert_eq!(message.as_str(), "Only supports macOS.");
                },
                _ => assert!(supported, "{} ran although unsupported", cmd.name),
            }
        }
    }
}

#[test]
fn the_ip_command_plans_the_same_fetch_on_the_live_platform() {
    let d = decide_here(&options_for("ip"));
    match d.directive {
        Directive::Fetch { url, kind } => {
            assert_eq!(url.as_str(), "https://hatter.ink/ip/ip.jsonp");
            assert!(matches!(kind, RemoteKind::Ip));
        },
        _ => panic!("expected the ip fetch on every platform"),
    }
}

#[test]
fn plan_action_matches_the_runtime_gate() {
    let cmds = commands();
    for cmd in &cmds {
        match plan_action(cmd.action, Platform::Other) {
            Ok(ActionPlan::Fetch { .. }) => assert!(matches!(cmd.name.as_str(), "ip" | "time")),
            Ok(ActionPlan::Run { args }) => {
                assert!(matches!(cmd.name.as_str(), "cal" | "route"));
                assert!(!args.is_empty());
            },
            Ok(ActionPlan::Print { .. }) => panic!("no fixed message runs on an unknown platform"),
            Err(UnsupportedPlatform::OnlyMacos) => {},
            Err(UnsupportedPlatform::NotLinuxOrMacos) => {
                assert!(matches!(cmd.name.as_str(), "listen_tcp" | "listen_udp"));
            },
        }
    }
}
