use session_manager::session_core::connection_type::ConnectionType;
use session_manager::session_core::endpoint::{find_char, host, port, slice_chars, user_name};
use session_manager::session_core::session::Session;
use session_manager::session_core::session_group::SessionGroup;

fn session(data: &str, protocol: ConnectionType) -> Session {
    Session::new("s".to_string(), data.to_string(), protocol)
}

#[test]
fn telnet_default_port() {
    let s = session("192.168.0.1", ConnectionType::Telnet);
    assert_eq!(s.get_port(), "23");
    assert_eq!(s.get_ip(), "192.168.0.1");
    assert_eq!(s.get_user_name(), "");
}

#[test]
fn ssh_default_port_with_user() {
    let s = session("user@192.168.0.1", ConnectionType::SSH);
    assert_eq!(s.get_port(), "22");
    assert_eq!(s.get_ip(), "192.168.0.1");
    assert_eq!(s.get_user_name(), "user");
}

#[test]
fn port_stops_at_slash() {
    let s = session("u@h:8022/some/path", ConnectionType::SSH);
    assert_eq!(s.get_port(), "8022");
    assert_eq!(s.get_ip(), "h");
    assert_eq!(s.get_user_name(), "u");
}

#[test]
fn empty_port_is_kept_empty() {
    let s = session("u@h:", ConnectionType::SSH);
    assert_eq!(s.get_port(), "");
    assert_eq!(s.get_ip(), "h");
}

#[test]
fn empty_user_name_before_at() {
    let s = session("@h:1", ConnectionType::Telnet);
    assert_eq!(s.get_user_name(), "");
    assert_eq!(s.get_ip(), "h");
    assert_eq!(s.get_port(), "1");
}

#[test]
fn colon_at_start_is_a_port() {
    let s = session(":2020", ConnectionType::SSH);
    assert_eq!(s.get_ip(), "");
    assert_eq!(s.get_port(), "2020");
}

#[test]
fn empty_endpoint() {
    let s = session("", ConnectionType::Telnet);
    assert_eq!(s.get_user_name(), "");
    assert_eq!(s.get_ip(), "");
    assert_eq!(s.get_port(), "23");
}

#[test]
fn colon_before_at_gives_empty_host() {
    let s = session("a:b@c", ConnectionType::SSH);
    assert_eq!(s.get_user_name(), "a:b");
    assert_eq!(s.get_ip(), "");
    assert_eq!(s.get_port(), "b@c");
}

#[test]
fn slash_before_colon_gives_empty_port() {
    let s = session("h/x:22", ConnectionType::SSH);
    assert_eq!(s.get_ip(), "h/x");
    assert_eq!(s.get_port(), "");
}

#[test]
fn parts_are_counted_in_characters() {
    let s = session("j\u{f6}rg@h\u{f4}te:22", ConnectionType::SSH);
    assert_eq!(s.get_user_name(), "j\u{f6}rg");
    assert_eq!(s.get_ip(), "h\u{f4}te");
    assert_eq!(s.get_port(), "22");
}

#[test]
fn round_trip_of_all_part_shapes() {
    let users = [None, Some(""), Some("root"), Some("a.b")];
    let hosts = ["", "h", "192.168.0.1", "example.org"];
    let ports = [None, Some(""), Some("22"), Some("65535")];
    for user in users.iter() {
        for h in hosts.iter() {
            for p in ports.iter() {
                for protocol in [ConnectionType::SSH, ConnectionType::Telnet].iter() {
                    let mut text = String::new();
                    if let Some(u) = user {
                        text.push_str(u);
                        text.push('@');
                    }
                    text.push_str(h);
                    if let Some(p) = p {
                        text.push(':');
                        text.push_str(p);
                    }
                    assert_eq!(user_name(&text), user.unwrap_or(""));
                    assert_eq!(host(&text), *h);
                    let default = match protocol {
                        ConnectionType::SSH => "22",
                        ConnectionType::Telnet => "23",
                    };
                    assert_eq!(port(&text, *protocol), p.unwrap_or(default));
                }
            }
        }
    }
}

#[test]
fn find_char_finds_the_first() {
    assert_eq!(find_char("a@b@c", '@'), Some(1));
    assert_eq!(find_char("abc", '@'), None);
    assert_eq!(find_char("", '@'), None);
    assert_eq!(find_char("\u{e9}\u{e9}:", ':'), Some(2));
}

#[test]
fn slice_chars_cuts_by_character() {
    assert_eq!(slice_chars("h\u{e9}llo", 1, 3), "\u{e9}l");
    assert_eq!(slice_chars("hello", 2, 2), "");
    assert_eq!(slice_chars("hello", 0, 5), "hello");
}

#[test]
fn protocol_names() {
    assert_eq!(ConnectionType::SSH.to_string(), "ssh");
    assert_eq!(ConnectionType::Telnet.to_string(), "telnet");
    assert_eq!(ConnectionType::SSH.default_port_string(), "22");
    assert_eq!(ConnectionType::Telnet.default_port_string(), "23");
}

#[test]
fn protocol_from_menu_number() {
    assert_eq!(ConnectionType::try_from(0), Ok(ConnectionType::Telnet));
    assert_eq!(ConnectionType::try_from(1), Ok(ConnectionType::SSH));
    assert_eq!(ConnectionType::try_from(2), Err(()));
    assert_eq!(ConnectionType::try_from(-1), Err(()));
}

#[test]
fn protocol_from_answer_ignores_case() {
    assert_eq!(ConnectionType::from_answer("telnet"), ConnectionType::Telnet);
    assert_eq!(ConnectionType::from_answer("TELNET"), ConnectionType::Telnet);
    assert_eq!(ConnectionType::from_answer("TeLnEt"), ConnectionType::Telnet);
    assert_eq!(ConnectionType::from_answer("ssh"), ConnectionType::SSH);
    assert_eq!(ConnectionType::from_answer("SSH"), ConnectionType::SSH);
    assert_eq!(ConnectionType::from_answer("anything"), ConnectionType::SSH);
    assert_eq!(ConnectionType::from_answer(""), ConnectionType::SSH);
    assert_eq!(ConnectionType::from_lowercase("telnet"), ConnectionType::Telnet);
    assert_eq!(ConnectionType::from_lowercase("TELNET"), ConnectionType::SSH);
}

#[test]
fn ssh_launch_args_with_user() {
    let s = session("root@10.0.0.1:2200", ConnectionType::SSH);
    assert_eq!(s.launch_args(), vec!["10.0.0.1", "-p", "2200", "-l", "root"]);
}

#[test]
fn ssh_launch_args_without_user() {
    let s = session("10.0.0.1", ConnectionType::SSH);
    assert_eq!(s.launch_args(), vec!["10.0.0.1", "-p", "22"]);
}

#[test]
fn telnet_launch_args() {
    let s = session("root@10.0.0.1", ConnectionType::Telnet);
    assert_eq!(s.launch_args(), vec!["10.0.0.1", "23"]);
}

#[test]
fn session_builder_collects_fields() {
    let mut builder = Session::builder();
    builder
        .name("n".to_string())
        .data("u@h:1".to_string())
        .connection_type(ConnectionType::Telnet);
    let s = builder.build();
    assert_eq!(s.name, "n");
    assert_eq!(s.data, "u@h:1");
    assert_eq!(s.connection_type, ConnectionType::Telnet);
}

#[test]
fn fresh_session_builder_builds_empty_ssh_session() {
    let s = Session::builder().build();
    assert_eq!(s.name, "");
    assert_eq!(s.data, "");
    assert_eq!(s.connection_type, ConnectionType::SSH);
}

#[test]
fn group_builder_keeps_order() {
    let mut first = Session::builder();
    first.name("one".to_string());
    let mut second = Session::builder();
    second.name("two".to_string());
    let mut builder = SessionGroup::builder();
    builder.name("g".to_string()).add_session(first).add_session(second);
    let group = builder.build();
    assert_eq!(group.name, "g");
    assert_eq!(group.sessions.len(), 2);
    assert_eq!(group.sessions[0].name, "one");
    assert_eq!(group.sessions[1].name, "two");
}

#[test]
fn clones_are_equal_field_by_field() {
    let group = SessionGroup::new(
        "g".to_string(),
        vec![session("a@b:1", ConnectionType::SSH), session("c", ConnectionType::Telnet)],
    );
    let copy = group.clone();
    assert_eq!(copy.name, "g");
    assert_eq!(copy.sessions.len(), 2);
    assert_eq!(copy.sessions[0].data, "a@b:1");
    assert_eq!(copy.sessions[1].data, "c");
    assert_eq!(copy.sessions[1].connection_type, ConnectionType::Telnet);
}
