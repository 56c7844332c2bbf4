use penput::config::{parse_args, parse_u16_or, Settings};

fn args(list: &[&[u8]]) -> Vec<Vec<u8>> {
    list.iter().map(|a| a.to_vec()).collect()
}

#[test]
fn no_arguments_yield_defaults() {
    assert_eq!(
        parse_args(&args(&[])),
        Settings { http_port: 8080, ws_port: 9001, udp_port: 9002, auto_approve: false }
    );
}

#[test]
fn each_flag_sets_its_field() {
    let s = parse_args(&args(&[
        b"--port",
        b"8000",
        b"--ws-port",
        b"9100",
        b"--udp-port",
        b"9200",
        b"--auto-approve",
    ]));
    assert_eq!(
        s,
        Settings { http_port: 8000, ws_port: 9100, udp_port: 9200, auto_approve: true }
    );
}

#[test]
fn unreadable_port_value_keeps_the_default() {
    let s = parse_args(&args(&[b"--port", b"abc", b"--udp-port", b"70000"]));
    assert_eq!(s.http_port, 8080);
    assert_eq!(s.udp_port, 9002);
}

#[test]
fn trailing_flag_without_value_stops_reading() {
    let s = parse_args(&args(&[b"--auto-approve", b"--ws-port"]));
    assert_eq!(
        s,
        Settings { http_port: 8080, ws_port: 9001, udp_port: 9002, auto_approve: true }
    );
}

#[test]
fn unknown_arguments_are_skipped() {
    let s = parse_args(&args(&[b"serve", b"--port", b"8888", b"-v"]));
    assert_eq!(s.http_port, 8888);
    assert_eq!(s.auto_approve, false);
}

#[test]
fn port_values_parse_like_integers() {
    assert_eq!(parse_u16_or(&b"0".to_vec(), 7), 0);
    assert_eq!(parse_u16_or(&b"65535".to_vec(), 7), 65535);
    assert_eq!(parse_u16_or(&b"65536".to_vec(), 7), 7);
    assert_eq!(parse_u16_or(&b"+9090".to_vec(), 7), 9090);
    assert_eq!(parse_u16_or(&b"+".to_vec(), 7), 7);
    assert_eq!(parse_u16_or(&b"".to_vec(), 7), 7);
    assert_eq!(parse_u16_or(&b"12 3".to_vec(), 7), 7);
    assert_eq!(parse_u16_or(&b"-1".to_vec(), 7), 7);
    assert_eq!(parse_u16_or(&b"00009090".to_vec(), 7), 9090);
    assert_eq!(parse_u16_or(&b"99999999999999999999".to_vec(), 7), 7);
}
