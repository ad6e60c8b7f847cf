//! The connection command-line parser, exercised on concrete inputs.

use remote_servers::connection::{parse_command_line, ConnectionOptions, ParseError};

fn ok(input: &str) -> ConnectionOptions {
    parse_command_line(input).unwrap_or_else(|e| panic!("{:?} rejected: {:?}", input, e))
}

fn err(input: &str) -> ParseError {
    match parse_command_line(input) {
        Ok(_) => panic!("{:?} unexpectedly accepted", input),
        Err(e) => e,
    }
}

#[test]
fn full_command_line() {
    let o = ok("ssh user@host -p 2222 -X");
    assert_eq!(o.host, "host");
    assert_eq!(o.username, Some(String::from("user")));
    assert_eq!(o.port, Some(2222));
    assert_eq!(o.args, vec![String::from("-X")]);
}

#[test]
fn bare_host() {
    let o = ok("ssh example.com");
    assert_eq!(o.host, "example.com");
    assert_eq!(o.username, None);
    assert_eq!(o.port, None);
    assert!(o.args.is_empty());
}

#[test]
fn username_splits_at_last_at_sign() {
    let o = ok("ssh a@b@c");
    assert_eq!(o.username, Some(String::from("a@b")));
    assert_eq!(o.host, "c");
}

#[test]
fn flags_pass_through_in_order() {
    let o = ok("ssh -X alice@example.com -o Compression=yes -v");
    assert_eq!(o.host, "example.com");
    assert_eq!(o.username, Some(String::from("alice")));
    assert_eq!(
        o.args,
        vec![
            String::from("-X"),
            String::from("-o"),
            String::from("Compression=yes"),
            String::from("-v"),
        ]
    );
}

#[test]
fn port_before_host() {
    let o = ok("ssh -p 22 host");
    assert_eq!(o.port, Some(22));
    assert_eq!(o.host, "host");
    assert!(o.args.is_empty());
}

#[test]
fn extra_whitespace_is_ignored() {
    let o = ok("   ssh \t alice@example.com   ");
    assert_eq!(o.host, "example.com");
    assert_eq!(o.username, Some(String::from("alice")));
}

#[test]
fn largest_port_accepted() {
    assert_eq!(ok("ssh h -p 65535").port, Some(65535));
    assert_eq!(ok("ssh h -p 0").port, Some(0));
}

#[test]
fn empty_input_is_missing_command() {
    assert_eq!(err(""), ParseError::MissingCommand);
    assert_eq!(err("   "), ParseError::MissingCommand);
}

#[test]
fn other_command_rejected() {
    assert_eq!(err("scp host"), ParseError::NotSshCommand);
}

#[test]
fn missing_host_rejected() {
    assert_eq!(err("ssh"), ParseError::MissingHost);
    assert_eq!(err("ssh -X"), ParseError::MissingHost);
}

#[test]
fn empty_username_rejected() {
    assert_eq!(err("ssh @host"), ParseError::EmptyUsername);
    assert_eq!(err("ssh @"), ParseError::EmptyUsername);
}

#[test]
fn empty_hostname_rejected() {
    assert_eq!(err("ssh user@"), ParseError::EmptyHostname);
}

#[test]
fn port_errors() {
    assert_eq!(err("ssh host -p"), ParseError::MissingPortValue);
    assert_eq!(err("ssh host -p abc"), ParseError::InvalidPort);
    assert_eq!(err("ssh host -p 65536"), ParseError::InvalidPort);
    assert_eq!(err("ssh host -p 999999999999"), ParseError::InvalidPort);
    assert_eq!(err("ssh host -p -1"), ParseError::InvalidPort);
    assert_eq!(err("ssh host -p 22 -p 23"), ParseError::DuplicatePort);
}

#[test]
fn second_bare_token_becomes_argument() {
    let o = ok("ssh host echo");
    assert_eq!(o.host, "host");
    assert_eq!(o.args, vec![String::from("echo")]);
}
