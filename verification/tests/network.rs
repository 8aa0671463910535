use captioninator::bus::{commands, Request};
use captioninator::control::{ControlMessage, RunState};
use captioninator::network::{default_interface, find_device, global_addresses, join, Device};

const ROUTES: &str = "default via 192.168.1.1 dev wlan0 proto dhcp metric 600\n\
    169.254.0.0/16 dev wlan0 scope link metric 1000\n\
    192.168.1.0/24 dev wlan0 proto kernel scope link src 192.168.1.23 metric 600\n";

const ADDRESSES: &str = "3: wlan0: <BROADCAST,MULTICAST,UP,LOWER_UP> mtu 1500 qdisc noqueue\n\
    \x20   link/ether aa:bb:cc:dd:ee:ff brd ff:ff:ff:ff:ff:ff\n\
    \x20   inet 192.168.1.23/24 brd 192.168.1.255 scope global dynamic noprefixroute wlan0\n\
    \x20      valid_lft 85000sec preferred_lft 85000sec\n\
    \x20   inet6 2001:db8::23/64 scope global dynamic noprefixroute\n\
    \x20   inet6 fe80::1/64 scope link noprefixroute\n";

#[test]
fn default_interface_is_the_word_after_dev() {
    assert_eq!(
        default_interface(ROUTES),
        Device::Found("wlan0".to_string())
    );
}

#[test]
fn default_interface_needs_a_default_route() {
    assert_eq!(
        default_interface("10.0.0.0/8 dev eth0 scope link\n"),
        Device::Missing
    );
    assert_eq!(default_interface(""), Device::Missing);
    assert_eq!(
        default_interface(" default via 10.0.0.1 dev eth0\n"),
        Device::Missing
    );
}

#[test]
fn default_route_without_device_is_passed_over() {
    assert_eq!(
        default_interface("default via 10.0.0.1\ndefault via 10.0.0.2   dev\teth1 metric 5\n"),
        Device::Found("eth1".to_string())
    );
}

#[test]
fn default_route_that_ends_in_dev_is_unnamed() {
    assert_eq!(
        default_interface("default via 10.0.0.1 dev\ndefault via 10.0.0.2 dev eth1\n"),
        Device::Unnamed
    );
}

#[test]
fn find_device_takes_the_first_dev() {
    let route = |words: &[&str]| words.iter().map(|w| w.to_string()).collect::<Vec<_>>();
    assert_eq!(
        find_device(&route(&["default", "dev", "a", "dev", "b"])),
        Device::Found("a".to_string())
    );
    assert_eq!(
        find_device(&route(&["dev", "dev"])),
        Device::Found("dev".to_string())
    );
    assert_eq!(find_device(&route(&["device", "x"])), Device::Missing);
    assert_eq!(find_device(&route(&[])), Device::Missing);
    assert_eq!(find_device(&route(&["x", "dev"])), Device::Unnamed);
}

#[test]
fn global_addresses_are_joined() {
    assert_eq!(
        global_addresses(ADDRESSES),
        "192.168.1.23/24, 2001:db8::23/64"
    );
    assert_eq!(global_addresses(""), "");
    assert_eq!(global_addresses("inet 10.0.0.1/8 scope link\n"), "");
    assert_eq!(global_addresses("global\n"), "");
    assert_eq!(global_addresses("x globally\n"), "globally");
}

#[test]
fn join_puts_comma_and_space_between() {
    assert_eq!(join(&Vec::new()), "");
    assert_eq!(join(&vec!["a".to_string()]), "a");
    assert_eq!(
        join(&vec!["a".to_string(), String::new(), "c".to_string()]),
        "a, , c"
    );
}

#[test]
fn requests_become_commands() {
    assert_eq!(
        commands(Request::Start),
        vec![ControlMessage::SetState(RunState::Running)]
    );
    assert_eq!(
        commands(Request::Stop),
        vec![ControlMessage::SetState(RunState::Stopped)]
    );
    assert_eq!(
        commands(Request::Simulate),
        vec![ControlMessage::SetState(RunState::Test)]
    );
    assert_eq!(commands(Request::Status), vec![ControlMessage::GetState]);
    assert_eq!(
        commands(Request::GetLanguage),
        vec![ControlMessage::GetLanguage]
    );
    assert_eq!(
        commands(Request::SetLanguage("en-US".to_string())),
        vec![
            ControlMessage::SetLanguage("en-US".to_string()),
            ControlMessage::GetLanguage
        ]
    );
    assert_eq!(
        commands(Request::GetWordlist),
        vec![ControlMessage::GetWordlist]
    );
    assert_eq!(
        commands(Request::SetWordlist(None)),
        vec![
            ControlMessage::SetWordlist(None),
            ControlMessage::GetWordlist
        ]
    );
}
