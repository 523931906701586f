//! The command registry: an ordered, immutable table of descriptors, one per
//! subcommand, each carrying the command's name, a display description, the
//! declared support tags, and the action the command stands for.
use vstd::prelude::*;
use vstd::string::StringExecFns;

use crate::platform::{os_label, os_label_str, CommandSupportOS};
use crate::text::join_with;

verus! {

/// The action a command descriptor is bound to, one variant per command.
#[derive(Clone, Copy, PartialEq, Eq, Structural, Debug)]
pub enum CommandAction {
    Ip,
    Time,
    Cal,
    Route,
    Network,
    ListJava,
    ListenTcp,
    ListenUdp,
    InstallBrew,
    InstallJenv,
    InstallPorts,
    InstallSdkman,
    InstallDart,
    WifiInfo,
    WifiScan,
}

/// The mathematical image of one command descriptor.
#[verifier::ext_equal]
pub struct CommandSpec {
    pub name: Seq<char>,
    pub description: Seq<char>,
    pub support_os: Seq<CommandSupportOS>,
    pub action: CommandAction,
}

/// One dispatchable command: a unique name, a display description, the
/// declared support tags, and the bound action.
pub struct CommandInfo {
    pub name: String,
    pub description: String,
    pub support_os: Vec<CommandSupportOS>,
    pub action: CommandAction,
}

impl View for CommandInfo {
    type V = CommandSpec;

    open spec fn view(&self) -> CommandSpec {
        CommandSpec {
            name: self.name@,
            description: self.description@,
            support_os: self.support_os@,
            action: self.action,
        }
    }
}

/// The support tags shared by most commands.
pub open spec fn linux_and_macos() -> Seq<CommandSupportOS> {
    seq![CommandSupportOS::Linux, CommandSupportOS::MacOS]
}

/// The support tags of the macOS-only commands.
pub open spec fn macos_only() -> Seq<CommandSupportOS> {
    seq![CommandSupportOS::MacOS]
}

/// The registry, in the order the listing prints it.
pub open spec fn registry() -> Seq<CommandSpec> {
    seq![
        CommandSpec {
            name: "ip"@,
            description: "Show public IP"@,
            support_os: linux_and_macos(),
            action: CommandAction::Ip,
        },
        CommandSpec {
            name: "time"@,
            description: "Show time"@,
            support_os: linux_and_macos(),
            action: CommandAction::Time,
        },
        CommandSpec {
            name: "cal"@,
            description: "Show calendar"@,
            support_os: linux_and_macos(),
            action: CommandAction::Cal,
        },
        CommandSpec {
            name: "route"@,
            description: "Show route"@,
            support_os: linux_and_macos(),
            action: CommandAction::Route,
        },
        CommandSpec {
            name: "network"@,
            description: "Show network"@,
            support_os: macos_only(),
            action: CommandAction::Network,
        },
        CommandSpec {
            name: "list_java"@,
            description: "Show java list"@,
            support_os: macos_only(),
            action: CommandAction::ListJava,
        },
        CommandSpec {
            name: "listen_tcp"@,
            description: "Show tcp listen"@,
            support_os: linux_and_macos(),
            action: CommandAction::ListenTcp,
        },
        CommandSpec {
            name: "listen_udp"@,
            description: "Show udp listen"@,
            support_os: linux_and_macos(),
            action: CommandAction::ListenUdp,
        },
        CommandSpec {
            name: "install_brew"@,
            description: "Install brew"@,
            support_os: macos_only(),
            action: CommandAction::InstallBrew,
        },
        CommandSpec {
            name: "install_jenv"@,
            description: "Install jenv"@,
            support_os: macos_only(),
            action: CommandAction::InstallJenv,
        },
        CommandSpec {
            name: "install_ports"@,
            description: "Install ports"@,
            support_os: macos_only(),
            action: CommandAction::InstallPorts,
        },
        CommandSpec {
            name: "install_sdkman"@,
            description: "Install sdkman"@,
            support_os: macos_only(),
            action: CommandAction::InstallSdkman,
        },
        CommandSpec {
            name: "install_dart"@,
            description: "Install dart"@,
            support_os: macos_only(),
            action: CommandAction::InstallDart,
        },
        CommandSpec {
            name: "wifi_info"@,
            description: "Show wifi info"@,
            support_os: macos_only(),
            action: CommandAction::WifiInfo,
        },
        CommandSpec {
            name: "wifi_scan"@,
            description: "Show wifi scan"@,
            support_os: macos_only(),
            action: CommandAction::WifiScan,
        },
    ]
}

/// Builds the registry table, exactly as `registry()` describes it.
pub fn commands() -> (r: Vec<CommandInfo>)
    ensures
        r@.len() == registry().len(),
        forall|i: int| 0 <= i < r@.len() ==> #[trigger] r@[i]@ == registry()[i],
{
    let both: Vec<CommandSupportOS> = vec![CommandSupportOS::Linux, CommandSupportOS::MacOS];
    let mac: Vec<CommandSupportOS> = vec![CommandSupportOS::MacOS];
    let mut r: Vec<CommandInfo> = Vec::new();
    r.push(CommandInfo {
        name: String::from_str("ip"),
        description: String::from_str("Show public IP"),
        support_os: both.clone(),
        action: CommandAction::Ip,
    });
    r.push(CommandInfo {
        name: String::from_str("time"),
        description: String::from_str("Show time"),
        support_os: both.clone(),
        action: CommandAction::Time,
    });
    r.push(CommandInfo {
        name: String::from_str("cal"),
        description: String::from_str("Show calendar"),
        support_os: both.clone(),
        action: CommandAction::Cal,
    });
    r.push(CommandInfo {
        name: String::from_str("route"),
        description: String::from_str("Show route"),
        support_os: both.clone(),
        action: CommandAction::Route,
    });
    r.push(CommandInfo {
        name: String::from_str("network"),
        description: String::from_str("Show network"),
        support_os: mac.clone(),
        action: CommandAction::Network,
    });
    r.push(CommandInfo {
        name: String::from_str("list_java"),
        description: String::from_str("Show java list"),
        support_os: mac.clone(),
        action: CommandAction::ListJava,
    });
    r.push(CommandInfo {
        name: String::from_str("listen_tcp"),
        description: String::from_str("Show tcp listen"),
        support_os: both.clone(),
        action: CommandAction::ListenTcp,
    });
    r.push(CommandInfo {
        name: String::from_str("listen_udp"),
        description: String::from_str("Show udp listen"),
        support_os: both,
        action: CommandAction::ListenUdp,
    });
    r.push(CommandInfo {
        name: String::from_str("install_brew"),
        description: String::from_str("Install brew"),
        support_os: mac.clone(),
        action: CommandAction::InstallBrew,
    });
    r.push(CommandInfo {
        name: String::from_str("install_jenv"),
        description: String::from_str("Install jenv"),
        support_os: mac.clone(),
        action: CommandAction::InstallJenv,
    });
    r.push(CommandInfo {
        name: String::from_str("install_ports"),
        description: String::from_str("Install ports"),
        support_os: mac.clone(),
        action: CommandAction::InstallPorts,
    });
    r.push(CommandInfo {
        name: String::from_str("install_sdkman"),
        description: String::from_str("Install sdkman"),
        support_os: mac.clone(),
        action: CommandAction::InstallSdkman,
    });
    r.push(CommandInfo {
        name: String::from_str("install_dart"),
        description: String::from_str("Install dart"),
        support_os: mac.clone(),
        action: CommandAction::InstallDart,
    });
    r.push(CommandInfo {
        name: String::from_str("wifi_info"),
        description: String::from_str("Show wifi info"),
        support_os: mac.clone(),
        action: CommandAction::WifiInfo,
    });
    r.push(CommandInfo {
        name: String::from_str("wifi_scan"),
        description: String::from_str("Show wifi scan"),
        support_os: mac,
        action: CommandAction::WifiScan,
    });
    proof {
        assert forall|i: int| 0 <= i < r@.len() implies #[trigger] r@[i]@ == registry()[i] by {
            assert(r@[0]@ =~= registry()[0]);
            assert(r@[1]@ =~= registry()[1]);
            assert(r@[2]@ =~= registry()[2]);
            assert(r@[3]@ =~= registry()[3]);
            assert(r@[4]@ =~= registry()[4]);
            assert(r@[5]@ =~= registry()[5]);
            assert(r@[6]@ =~= registry()[6]);
            assert(r@[7]@ =~= registry()[7]);
            assert(r@[8]@ =~= registry()[8]);
            assert(r@[9]@ =~= registry()[9]);
            assert(r@[10]@ =~= registry()[10]);
            assert(r@[11]@ =~= registry()[11]);
            assert(r@[12]@ =~= registry()[12]);
            assert(r@[13]@ =~= registry()[13]);
            assert(r@[14]@ =~= registry()[14]);
        }
    }
    r
}

/// The listing line of one descriptor: name, description, and the
/// comma-joined support tags.
pub open spec fn line_of(c: CommandSpec) -> Seq<char> {
    c.name + " - "@ + c.description + "  ["@ + join_with(
        c.support_os.map(|k: int, t: CommandSupportOS| os_label(t)),
        ", "@,
    ) + "]"@
}

/// Renders the listing line of one descriptor.
pub fn list_line(c: &CommandInfo) -> (r: String)
    ensures
        r@ == line_of(c@),
{
    let mut r = c.name.clone();
    r.append(" - ");
    r.append(c.description.as_str());
    r.append("  [");
    let mut labels: Vec<String> = Vec::new();
    let mut i: usize = 0;
    while i < c.support_os.len()
        invariant
            i <= c.support_os@.len(),
            labels@.len() == i,
            forall|j: int| 0 <= j < i ==> #[trigger] labels@[j]@ == os_label(c.support_os@[j]),
        decreases c.support_os@.len() - i,
    {
        labels.push(String::from_str(os_label_str(c.support_os[i])));
        i = i + 1;
    }
    proof {
        assert(labels.deep_view() =~= c.support_os@.map(|k: int, t: CommandSupportOS| os_label(t)));
    }
    let joined = crate::text::join_strings(&labels, ", ");
    r.append(joined.as_str());
    r.append("]");
    r
}

/// Renders every descriptor's listing line, in registry order.
pub fn listing(cmds: &Vec<CommandInfo>) -> (r: Vec<String>)
    ensures
        r@.len() == cmds@.len(),
        forall|i: int| 0 <= i < r@.len() ==> #[trigger] r@[i]@ == line_of(cmds@[i]@),
{
    let mut r: Vec<String> = Vec::new();
    let mut i: usize = 0;
    while i < cmds.len()
        invariant
            i <= cmds@.len(),
            r@.len() == i,
            forall|j: int| 0 <= j < i ==> #[trigger] r@[j]@ == line_of(cmds@[j]@),
        decreases cmds@.len() - i,
    {
        r.push(list_line(&cmds[i]));
        i = i + 1;
    }
    r
}

/// The token that lists every command instead of dispatching one.
pub open spec fn sentinel() -> Seq<char> {
    ":::"@
}

proof fn lemma_names_differ_0(j: int)
    requires
        0 < j < registry().len(),
    ensures
        registry()[0].name != registry()[j].name,
{
    reveal_strlit("ip");
    reveal_strlit("time");
    reveal_strlit("cal");
    reveal_strlit("route");
    reveal_strlit("network");
    reveal_strlit("list_java");
    reveal_strlit("listen_tcp");
    reveal_strlit("listen_udp");
    reveal_strlit("install_brew");
    reveal_strlit("install_jenv");
    reveal_strlit("install_ports");
    reveal_strlit("install_sdkman");
    reveal_strlit("install_dart");
    reveal_strlit("wifi_info");
    reveal_strlit("wifi_scan");
    assert("ip"@.len() == 2);
    if j == 1 {
        assert("time"@.len() == 4);
        assert(registry()[0].name != registry()[1].name);
    } else if j == 2 {
        assert("cal"@.len() == 3);
        assert(registry()[0].name != registry()[2].name);
    } else if j == 3 {
        assert("route"@.len() == 5);
        assert(registry()[0].name != registry()[3].name);
    } else if j == 4 {
        assert("network"@.len() == 7);
        assert(registry()[0].name != registry()[4].name);
    } else if j == 5 {
        assert("list_java"@.len() == 9);
        assert(registry()[0].name != registry()[5].name);
    } else if j == 6 {
        assert("listen_tcp"@.len() == 10);
        assert(registry()[0].name != registry()[6].name);
    } else if j == 7 {
        assert("listen_udp"@.len() == 10);
        assert(registry()[0].name != registry()[7].name);
    } else if j == 8 {
        assert("install_brew"@.len() == 12);
        assert(registry()[0].name != registry()[8].name);
    } else if j == 9 {
        assert("install_jenv"@.len() == 12);
        assert(registry()[0].name != registry()[9].name);
    } else if j == 10 {
        assert("install_ports"@.len() == 13);
        assert(registry()[0].name != registry()[10].name);
    } else if j == 11 {
        assert("install_sdkman"@.len() == 14);
        assert(registry()[0].name != registry()[11].name);
    } else if j == 12 {
        assert("install_dart"@.len() == 12);
        assert(registry()[0].name != registry()[12].name);
    } else if j == 13 {
        assert("wifi_info"@.len() == 9);
        assert(registry()[0].name != registry()[13].name);
    } else if j == 14 {
        assert("wifi_scan"@.len() == 9);
        assert(registry()[0].name != registry()[14].name);
    }
}

proof fn lemma_names_differ_1(j: int)
    requires
        1 < j < registry().len(),
    ensures
        registry()[1].name != registry()[j].name,
{
    reveal_strlit("time");
    reveal_strlit("cal");
    reveal_strlit("route");
    reveal_strlit("network");
    reveal_strlit("list_java");
    reveal_strlit("listen_tcp");
    reveal_strlit("listen_udp");
    reveal_strlit("install_brew");
    reveal_strlit("install_jenv");
    reveal_strlit("install_ports");
    reveal_strlit("install_sdkman");
    reveal_strlit("install_dart");
    reveal_strlit("wifi_info");
    reveal_strlit("wifi_scan");
    assert("time"@.len() == 4);
    if j == 2 {
        assert("cal"@.len() == 3);
        assert(registry()[1].name != registry()[2].name);
    } else if j == 3 {
        assert("route"@.len() == 5);
        assert(registry()[1].name != registry()[3].name);
    } else if j == 4 {
        assert("network"@.len() == 7);
        assert(registry()[1].name != registry()[4].name);
    } else if j == 5 {
        assert("list_java"@.len() == 9);
        assert(registry()[1].name != registry()[5].name);
    } else if j == 6 {
        assert("listen_tcp"@.len() == 10);
        assert(registry()[1].name != registry()[6].name);
    } else if j == 7 {
        assert("listen_udp"@.len() == 10);
        assert(registry()[1].name != registry()[7].name);
    } else if j == 8 {
        assert("install_brew"@.len() == 12);
        assert(registry()[1].name != registry()[8].name);
    } else if j == 9 {
        assert("install_jenv"@.len() == 12);
        assert(registry()[1].name != registry()[9].name);
    } else if j == 10 {
        assert("install_ports"@.len() == 13);
        assert(registry()[1].name != registry()[10].name);
    } else if j == 11 {
        assert("install_sdkman"@.len() == 14);
        assert(registry()[1].name != registry()[11].name);
    } else if j == 12 {
        assert("install_dart"@.len() == 12);
        assert(registry()[1].name != registry()[12].name);
    } else if j == 13 {
        assert("wifi_info"@.len() == 9);
        assert(registry()[1].name != registry()[13].name);
    } else if j == 14 {
        assert("wifi_scan"@.len() == 9);
        assert(registry()[1].name != registry()[14].name);
    }
}

proof fn lemma_names_differ_2(j: int)
    requires
        2 < j < registry().len(),
    ensures
        registry()[2].name != registry()[j].name,
{
    reveal_strlit("cal");
    reveal_strlit("route");
    reveal_strlit("network");
    reveal_strlit("list_java");
    reveal_strlit("listen_tcp");
    reveal_strlit("listen_udp");
    reveal_strlit("install_brew");
    reveal_strlit("install_jenv");
    reveal_strlit("install_ports");
    reveal_strlit("install_sdkman");
    reveal_strlit("install_dart");
    reveal_strlit("wifi_info");
    reveal_strlit("wifi_scan");
    assert("cal"@.len() == 3);
    if j == 3 {
        assert("route"@.len() == 5);
        assert(registry()[2].name != registry()[3].name);
    } else if j == 4 {
        assert("network"@.len() == 7);
        assert(registry()[2].name != registry()[4].name);
    } else if j == 5 {
        assert("list_java"@.len() == 9);
        assert(registry()[2].name != registry()[5].name);
    } else if j == 6 {
        assert("listen_tcp"@.len() == 10);
        assert(registry()[2].name != registry()[6].name);
    } else if j == 7 {
        assert("listen_udp"@.len() == 10);
        assert(registry()[2].name != registry()[7].name);
    } else if j == 8 {
        assert("install_brew"@.len() == 12);
        assert(registry()[2].name != registry()[8].name);
    } else if j == 9 {
        assert("install_jenv"@.len() == 12);
        assert(registry()[2].name != registry()[9].name);
    } else if j == 10 {
        assert("install_ports"@.len() == 13);
        assert(registry()[2].name != registry()[10].name);
    } else if j == 11 {
        assert("install_sdkman"@.len() == 14);
        assert(registry()[2].name != registry()[11].name);
    } else if j == 12 {
        assert("install_dart"@.len() == 12);
        assert(registry()[2].name != registry()[12].name);
    } else if j == 13 {
        assert("wifi_info"@.len() == 9);
        assert(registry()[2].name != registry()[13].name);
    } else if j == 14 {
        assert("wifi_scan"@.len() == 9);
        assert(registry()[2].name != registry()[14].name);
    }
}

proof fn lemma_names_differ_3(j: int)
    requires
        3 < j < registry().len(),
    ensures
        registry()[3].name != registry()[j].name,
{
    reveal_strlit("route");
    reveal_strlit("network");
    reveal_strlit("list_java");
    reveal_strlit("listen_tcp");
    reveal_strlit("listen_udp");
    reveal_strlit("install_brew");
    reveal_strlit("install_jenv");
    reveal_strlit("install_ports");
    reveal_strlit("install_sdkman");
    reveal_strlit("install_dart");
    reveal_strlit("wifi_info");
    reveal_strlit("wifi_scan");
    assert("route"@.len() == 5);
    if j == 4 {
        assert("network"@.len() == 7);
        assert(registry()[3].name != registry()[4].name);
    } else if j == 5 {
        assert("list_java"@.len() == 9);
        assert(registry()[3].name != registry()[5].name);
    } else if j == 6 {
        assert("listen_tcp"@.len() == 10);
        assert(registry()[3].name != registry()[6].name);
    } else if j == 7 {
        assert("listen_udp"@.len() == 10);
        assert(registry()[3].name != registry()[7].name);
    } else if j == 8 {
        assert("install_brew"@.len() == 12);
        assert(registry()[3].name != registry()[8].name);
    } else if j == 9 {
        assert("install_jenv"@.len() == 12);
        assert(registry()[3].name != registry()[9].name);
    } else if j == 10 {
        assert("install_ports"@.len() == 13);
        assert(registry()[3].name != registry()[10].name);
    } else if j == 11 {
        assert("install_sdkman"@.len() == 14);
        assert(registry()[3].name != registry()[11].name);
    } else if j == 12 {
        assert("install_dart"@.len() == 12);
        assert(registry()[3].name != registry()[12].name);
    } else if j == 13 {
        assert("wifi_info"@.len() == 9);
        assert(registry()[3].name != registry()[13].name);
    } else if j == 14 {
        assert("wifi_scan"@.len() == 9);
        assert(registry()[3].name != registry()[14].name);
    }
}

proof fn lemma_names_differ_4(j: int)
    requires
        4 < j < registry().len(),
    ensures
        registry()[4].name != registry()[j].name,
{
    reveal_strlit("network");
    reveal_strlit("list_java");
    reveal_strlit("listen_tcp");
    reveal_strlit("listen_udp");
    reveal_strlit("install_brew");
    reveal_strlit("install_jenv");
    reveal_strlit("install_ports");
    reveal_strlit("install_sdkman");
    reveal_strlit("install_dart");
    reveal_strlit("wifi_info");
    reveal_strlit("wifi_scan");
    assert("network"@.len() == 7);
    if j == 5 {
        assert("list_java"@.len() == 9);
        assert(registry()[4].name != registry()[5].name);
    } else if j == 6 {
        assert("listen_tcp"@.len() == 10);
        assert(registry()[4].name != registry()[6].name);
    } else if j == 7 {
        assert("listen_udp"@.len() == 10);
        assert(registry()[4].name != registry()[7].name);
    } else if j == 8 {
        assert("install_brew"@.len() == 12);
        assert(registry()[4].name != registry()[8].name);
    } else if j == 9 {
        assert("install_jenv"@.len() == 12);
        assert(registry()[4].name != registry()[9].name);
    } else if j == 10 {
        assert("install_ports"@.len() == 13);
        assert(registry()[4].name != registry()[10].name);
    } else if j == 11 {
        assert("install_sdkman"@.len() == 14);
        assert(registry()[4].name != registry()[11].name);
    } else if j == 12 {
        assert("install_dart"@.len() == 12);
        assert(registry()[4].name != registry()[12].name);
    } else if j == 13 {
        assert("wifi_info"@.len() == 9);
        assert(registry()[4].name != registry()[13].name);
    } else if j == 14 {
        assert("wifi_scan"@.len() == 9);
        assert(registry()[4].name != registry()[14].name);
    }
}

proof fn lemma_names_differ_5(j: int)
    requires
        5 < j < registry().len(),
    ensures
        registry()[5].name != registry()[j].name,
{
    reveal_strlit("list_java");
    reveal_strlit("listen_tcp");
    reveal_strlit("listen_udp");
    reveal_strlit("install_brew");
    reveal_strlit("install_jenv");
    reveal_strlit("install_ports");
    reveal_strlit("install_sdkman");
    reveal_strlit("install_dart");
    reveal_strlit("wifi_info");
    reveal_strlit("wifi_scan");
    assert("list_java"@.len() == 9);
    if j == 6 {
        assert("listen_tcp"@.len() == 10);
        assert(registry()[5].name != registry()[6].name);
    } else if j == 7 {
        assert("listen_udp"@.len() == 10);
        assert(registry()[5].name != registry()[7].name);
    } else if j == 8 {
        assert("install_brew"@.len() == 12);
        assert(registry()[5].name != registry()[8].name);
    } else if j == 9 {
        assert("install_jenv"@.len() == 12);
        assert(registry()[5].name != registry()[9].name);
    } else if j == 10 {
        assert("install_ports"@.len() == 13);
        assert(registry()[5].name != registry()[10].name);
    } else if j == 11 {
        assert("install_sdkman"@.len() == 14);
        assert(registry()[5].name != registry()[11].name);
    } else if j == 12 {
        assert("install_dart"@.len() == 12);
        assert(registry()[5].name != registry()[12].name);
    } else if j == 13 {
        assert("wifi_info"@.len() == 9);
        assert("list_java"@[0] != "wifi_info"@[0]);
        assert(registry()[5].name != registry()[13].name);
    } else if j == 14 {
        assert("wifi_scan"@.len() == 9);
        assert("list_java"@[0] != "wifi_scan"@[0]);
        assert(registry()[5].name != registry()[14].name);
    }
}

proof fn lemma_names_differ_6(j: int)
    requires
        6 < j < registry().len(),
    ensures
        registry()[6].name != registry()[j].name,
{
    reveal_strlit("listen_tcp");
    reveal_strlit("listen_udp");
    reveal_strlit("install_brew");
    reveal_strlit("install_jenv");
    reveal_strlit("install_ports");
    reveal_strlit("install_sdkman");
    reveal_strlit("install_dart");
    reveal_strlit("wifi_info");
    reveal_strlit("wifi_scan");
    assert("listen_tcp"@.len() == 10);
    if j == 7 {
        assert("listen_udp"@.len() == 10);
        assert("listen_tcp"@[7] != "listen_udp"@[7]);
        assert(registry()[6].name != registry()[7].name);
    } else if j == 8 {
        assert("install_brew"@.len() == 12);
        assert(registry()[6].name != registry()[8].name);
    } else if j == 9 {
        assert("install_jenv"@.len() == 12);
        assert(registry()[6].name != registry()[9].name);
    } else if j == 10 {
        assert("install_ports"@.len() == 13);
        assert(registry()[6].name != registry()[10].name);
    } else if j == 11 {
        assert("install_sdkman"@.len() == 14);
        assert(registry()[6].name != registry()[11].name);
    } else if j == 12 {
        assert("install_dart"@.len() == 12);
        assert(registry()[6].name != registry()[12].name);
    } else if j == 13 {
        assert("wifi_info"@.len() == 9);
        assert(registry()[6].name != registry()[13].name);
    } else if j == 14 {
        assert("wifi_scan"@.len() == 9);
        assert(registry()[6].name != registry()[14].name);
    }
}

proof fn lemma_names_differ_7(j: int)
    requires
        7 < j < registry().len(),
    ensures
        registry()[7].name != registry()[j].name,
{
    reveal_strlit("listen_udp");
    reveal_strlit("install_brew");
    reveal_strlit("install_jenv");
    reveal_strlit("install_ports");
    reveal_strlit("install_sdkman");
    reveal_strlit("install_dart");
    reveal_strlit("wifi_info");
    reveal_strlit("wifi_scan");
    assert("listen_udp"@.len() == 10);
    if j == 8 {
        assert("install_brew"@.len() == 12);
        assert(registry()[7].name != registry()[8].name);
    } else if j == 9 {
        assert("install_jenv"@.len() == 12);
        assert(registry()[7].name != registry()[9].name);
    } else if j == 10 {
        assert("install_ports"@.len() == 13);
        assert(registry()[7].name != registry()[10].name);
    } else if j == 11 {
        assert("install_sdkman"@.len() == 14);
        assert(registry()[7].name != registry()[11].name);
    } else if j == 12 {
        assert("install_dart"@.len() == 12);
        assert(registry()[7].name != registry()[12].name);
    } else if j == 13 {
        assert("wifi_info"@.len() == 9);
        assert(registry()[7].name != registry()[13].name);
    } else if j == 14 {
        assert("wifi_scan"@.len() == 9);
        assert(registry()[7].name != registry()[14].name);
    }
}

proof fn lemma_names_differ_8(j: int)
    requires
        8 < j < registry().len(),
    ensures
        registry()[8].name != registry()[j].name,
{
    reveal_strlit("install_brew");
    reveal_strlit("install_jenv");
    reveal_strlit("install_ports");
    reveal_strlit("install_sdkman");
    reveal_strlit("install_dart");
    reveal_strlit("wifi_info");
    reveal_strlit("wifi_scan");
    assert("install_brew"@.len() == 12);
    if j == 9 {
        assert("install_jenv"@.len() == 12);
        assert("install_brew"@[8] != "install_jenv"@[8]);
        assert(registry()[8].name != registry()[9].name);
    } else if j == 10 {
        assert("install_ports"@.len() == 13);
        assert(registry()[8].name != registry()[10].name);
    } else if j == 11 {
        assert("install_sdkman"@.len() == 14);
        assert(registry()[8].name != registry()[11].name);
    } else if j == 12 {
        assert("install_dart"@.len() == 12);
        assert("install_brew"@[8] != "install_dart"@[8]);
        assert(registry()[8].name != registry()[12].name);
    } else if j == 13 {
        assert("wifi_info"@.len() == 9);
        assert(registry()[8].name != registry()[13].name);
    } else if j == 14 {
        assert("wifi_scan"@.len() == 9);
        assert(registry()[8].name != registry()[14].name);
    }
}

proof fn lemma_names_differ_9(j: int)
    requires
        9 < j < registry().len(),
    ensures
        registry()[9].name != registry()[j].name,
{
    reveal_strlit("install_jenv");
    reveal_strlit("install_ports");
    reveal_strlit("install_sdkman");
    reveal_strlit("install_dart");
    reveal_strlit("wifi_info");
    reveal_strlit("wifi_scan");
    assert("install_jenv"@.len() == 12);
    if j == 10 {
        assert("install_ports"@.len() == 13);
        assert(registry()[9].name != registry()[10].name);
    } else if j == 11 {
        assert("install_sdkman"@.len() == 14);
        assert(registry()[9].name != registry()[11].name);
    } else if j == 12 {
        assert("install_dart"@.len() == 12);
        assert("install_jenv"@[8] != "install_dart"@[8]);
        assert(registry()[9].name != registry()[12].name);
    } else if j == 13 {
        assert("wifi_info"@.len() == 9);
        assert(registry()[9].name != registry()[13].name);
    } else if j == 14 {
        assert("wifi_scan"@.len() == 9);
        assert(registry()[9].name != registry()[14].name);
    }
}

proof fn lemma_names_differ_10(j: int)
    requires
        10 < j < registry().len(),
    ensures
        registry()[10].name != registry()[j].name,
{
    reveal_strlit("install_ports");
    reveal_strlit("install_sdkman");
    reveal_strlit("install_dart");
    reveal_strlit("wifi_info");
    reveal_strlit("wifi_scan");
    assert("install_ports"@.len() == 13);
    if j == 11 {
        assert("install_sdkman"@.len() == 14);
        assert(registry()[10].name != registry()[11].name);
    } else if j == 12 {
        assert("install_dart"@.len() == 12);
        assert(registry()[10].name != registry()[12].name);
    } else if j == 13 {
        assert("wifi_info"@.len() == 9);
        assert(registry()[10].name != registry()[13].name);
    } else if j == 14 {
        assert("wifi_scan"@.len() == 9);
        assert(registry()[10].name != registry()[14].name);
    }
}

proof fn lemma_names_differ_11(j: int)
    requires
        11 < j < registry().len(),
    ensures
        registry()[11].name != registry()[j].name,
{
    reveal_strlit("install_sdkman");
    reveal_strlit("install_dart");
    reveal_strlit("wifi_info");
    reveal_strlit("wifi_scan");
    assert("install_sdkman"@.len() == 14);
    if j == 12 {
        assert("install_dart"@.len() == 12);
        assert(registry()[11].name != registry()[12].name);
    } else if j == 13 {
        assert("wifi_info"@.len() == 9);
        assert(registry()[11].name != registry()[13].name);
    } else if j == 14 {
        assert("wifi_scan"@.len() == 9);
        assert(registry()[11].name != registry()[14].name);
    }
}

proof fn lemma_names_differ_12(j: int)
    requires
        12 < j < registry().len(),
    ensures
        registry()[12].name != registry()[j].name,
{
    reveal_strlit("install_dart");
    reveal_strlit("wifi_info");
    reveal_strlit("wifi_scan");
    assert("install_dart"@.len() == 12);
    if j == 13 {
        assert("wifi_info"@.len() == 9);
        assert(registry()[12].name != registry()[13].name);
    } else if j == 14 {
        assert("wifi_scan"@.len() == 9);
        assert(registry()[12].name != registry()[14].name);
    }
}

proof fn lemma_names_differ_13(j: int)
    requires
        13 < j < registry().len(),
    ensures
        registry()[13].name != registry()[j].name,
{
    reveal_strlit("wifi_info");
    reveal_strlit("wifi_scan");
    assert("wifi_info"@.len() == 9);
    if j == 14 {
        assert("wifi_scan"@.len() == 9);
        assert("wifi_info"@[5] != "wifi_scan"@[5]);
        assert(registry()[13].name != registry()[14].name);
    }
}

/// Two distinct registry entries never share a name.
proof fn lemma_names_differ(i: int, j: int)
    requires
        0 <= i < j < registry().len(),
    ensures
        registry()[i].name != registry()[j].name,
{
    if i == 0 {
        lemma_names_differ_0(j);
    } else if i == 1 {
        lemma_names_differ_1(j);
    } else if i == 2 {
        lemma_names_differ_2(j);
    } else if i == 3 {
        lemma_names_differ_3(j);
    } else if i == 4 {
        lemma_names_differ_4(j);
    } else if i == 5 {
        lemma_names_differ_5(j);
    } else if i == 6 {
        lemma_names_differ_6(j);
    } else if i == 7 {
        lemma_names_differ_7(j);
    } else if i == 8 {
        lemma_names_differ_8(j);
    } else if i == 9 {
        lemma_names_differ_9(j);
    } else if i == 10 {
        lemma_names_differ_10(j);
    } else if i == 11 {
        lemma_names_differ_11(j);
    } else if i == 12 {
        lemma_names_differ_12(j);
    } else if i == 13 {
        lemma_names_differ_13(j);
    }
}

/// Registry invariant: command names are unique, and the listing sentinel
/// collides with none of them.
pub proof fn lemma_registry_well_formed()
    ensures
        forall|i: int, j: int|
            0 <= i < registry().len() && 0 <= j < registry().len() && i != j
                ==> registry()[i].name != registry()[j].name,
        forall|i: int| 0 <= i < registry().len() ==> registry()[i].name != sentinel(),
        forall|i: int| 0 <= i < registry().len() ==> registry()[i].name.len() > 0,
{
    assert forall|i: int, j: int|
        0 <= i < registry().len() && 0 <= j < registry().len() && i != j
            implies registry()[i].name != registry()[j].name by {
        if i < j {
            lemma_names_differ(i, j);
        } else {
            lemma_names_differ(j, i);
        }
    }
    assert forall|i: int| 0 <= i < registry().len() implies registry()[i].name != sentinel() by {
        reveal_strlit(":::");
        assert(":::"@.len() == 3);
        reveal_strlit("ip");
        reveal_strlit("time");
        reveal_strlit("cal");
        reveal_strlit("route");
        reveal_strlit("network");
        reveal_strlit("list_java");
        reveal_strlit("listen_tcp");
        reveal_strlit("listen_udp");
        reveal_strlit("install_brew");
        reveal_strlit("install_jenv");
        reveal_strlit("install_ports");
        reveal_strlit("install_sdkman");
        reveal_strlit("install_dart");
        reveal_strlit("wifi_info");
        reveal_strlit("wifi_scan");
        if i == 0 {
            assert("ip"@.len() == 2);
            assert(registry()[0].name != sentinel());
        } else if i == 1 {
            assert("time"@.len() == 4);
            assert(registry()[1].name != sentinel());
        } else if i == 2 {
            assert("cal"@.len() == 3);
            assert("cal"@[0] != ":::"@[0]);
            assert(registry()[2].name != sentinel());
        } else if i == 3 {
            assert("route"@.len() == 5);
            assert(registry()[3].name != sentinel());
        } else if i == 4 {
            assert("network"@.len() == 7);
            assert(registry()[4].name != sentinel());
        } else if i == 5 {
            assert("list_java"@.len() == 9);
            assert(registry()[5].name != sentinel());
        } else if i == 6 {
            assert("listen_tcp"@.len() == 10);
            assert(registry()[6].name != sentinel());
        } else if i == 7 {
            assert("listen_udp"@.len() == 10);
            assert(registry()[7].name != sentinel());
        } else if i == 8 {
            assert("install_brew"@.len() == 12);
            assert(registry()[8].name != sentinel());
        } else if i == 9 {
            assert("install_jenv"@.len() == 12);
            assert(registry()[9].name != sentinel());
        } else if i == 10 {
            assert("install_ports"@.len() == 13);
            assert(registry()[10].name != sentinel());
        } else if i == 11 {
            assert("install_sdkman"@.len() == 14);
            assert(registry()[11].name != sentinel());
        } else if i == 12 {
            assert("install_dart"@.len() == 12);
            assert(registry()[12].name != sentinel());
        } else if i == 13 {
            assert("wifi_info"@.len() == 9);
            assert(registry()[13].name != sentinel());
        } else if i == 14 {
            assert("wifi_scan"@.len() == 9);
            assert(registry()[14].name != sentinel());
        }
    }
    assert forall|i: int| 0 <= i < registry().len() implies registry()[i].name.len() > 0 by {
        reveal_strlit("ip");
        reveal_strlit("time");
        reveal_strlit("cal");
        reveal_strlit("route");
        reveal_strlit("network");
        reveal_strlit("list_java");
        reveal_strlit("listen_tcp");
        reveal_strlit("listen_udp");
        reveal_strlit("install_brew");
        reveal_strlit("install_jenv");
        reveal_strlit("install_ports");
        reveal_strlit("install_sdkman");
        reveal_strlit("install_dart");
        reveal_strlit("wifi_info");
        reveal_strlit("wifi_scan");
        if i == 0 {
            assert("ip"@.len() == 2);
        } else if i == 1 {
            assert("time"@.len() == 4);
        } else if i == 2 {
            assert("cal"@.len() == 3);
        } else if i == 3 {
            assert("route"@.len() == 5);
        } else if i == 4 {
            assert("network"@.len() == 7);
        } else if i == 5 {
            assert("list_java"@.len() == 9);
        } else if i == 6 {
            assert("listen_tcp"@.len() == 10);
        } else if i == 7 {
            assert("listen_udp"@.len() == 10);
        } else if i == 8 {
            assert("install_brew"@.len() == 12);
        } else if i == 9 {
            assert("install_jenv"@.len() == 12);
        } else if i == 10 {
            assert("install_ports"@.len() == 13);
        } else if i == 11 {
            assert("install_sdkman"@.len() == 14);
        } else if i == 12 {
            assert("install_dart"@.len() == 12);
        } else if i == 13 {
            assert("wifi_info"@.len() == 9);
        } else if i == 14 {
            assert("wifi_scan"@.len() == 9);
        }
    }
}

} // verus!
