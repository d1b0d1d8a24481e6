//! Reply classification, PASV resolution, SIZE and listing parsing, and
//! command-line framing, on concrete values.

use ftp_client::passive::resolve_passive;
use ftp_client::reply::{classify, parse_server_response, Error, ServerResponse};
use ftp_client::transfer::{command_line, mode_code, parse_listing, parse_size, TransferMode};

fn reply(code: &str, text: &str) -> ServerResponse {
    ServerResponse(code.to_string(), text.to_string())
}

#[test]
fn classification_positive_codes_succeed() {
    for code in ["150", "226", "331", "1", "2", "3"] {
        match classify(reply(code, "text")) {
            Ok(r) => {
                assert_eq!(r.0, code);
                assert_eq!(r.1, "text");
            }
            Err(_) => panic!("a positive code must classify as success"),
        }
    }
}

#[test]
fn classification_negative_codes_fail_with_reply() {
    for code in ["425", "550", "4", "5"] {
        match classify(reply(code, "text")) {
            Err(Error::NegativeReturnCode { response }) => {
                assert_eq!(response.0, code);
                assert_eq!(response.1, "text");
            }
            _ => panic!("a negative code must fail carrying the reply"),
        }
    }
}

#[test]
fn classification_other_codes_are_malformed() {
    for code in ["", "999", "abc", "0", "x50"] {
        match classify(reply(code, "text")) {
            Err(Error::InvalidData) => {}
            _ => panic!("any other leading character must be malformed data"),
        }
    }
}

#[test]
fn parse_line_splits_code_and_text() {
    match parse_server_response("220 Service ready\r\n") {
        Ok(r) => {
            assert_eq!(r.0, "220");
            assert_eq!(r.1, "Service ready\r\n");
        }
        Err(_) => panic!("a 220 line must parse as success"),
    }
}

#[test]
fn parse_negative_line_carries_code_and_text() {
    match parse_server_response("550 No such file\r\n") {
        Err(Error::NegativeReturnCode { response }) => {
            assert_eq!(response.0, "550");
            assert_eq!(response.1, "No such file\r\n");
        }
        _ => panic!("a 550 line must fail carrying the reply"),
    }
}

#[test]
fn parse_empty_line_is_malformed() {
    match parse_server_response("") {
        Err(Error::InvalidData) => {}
        _ => panic!("an empty line must be malformed data"),
    }
    match parse_server_response("\r\n") {
        Err(Error::InvalidData) => {}
        _ => panic!("a bare line ending must be malformed data"),
    }
}

#[test]
fn pasv_resolves_address_and_port() {
    match resolve_passive("Entering Passive Mode (127,0,0,1,200,13).") {
        Ok((addr, port)) => {
            assert_eq!(addr, "127.0.0.1");
            assert_eq!(port, 200 * 256 + 13);
            assert_eq!(port, 51213);
        }
        Err(_) => panic!("a well-formed sextet must resolve"),
    }
}

#[test]
fn pasv_accepts_trailing_line_ending() {
    match resolve_passive("Entering Passive Mode (10,0,0,2,4,1).\r\n") {
        Ok((addr, port)) => {
            assert_eq!(addr, "10.0.0.2");
            assert_eq!(port, 4 * 256 + 1);
        }
        Err(_) => panic!("trailing line endings must be trimmed before the suffix check"),
    }
}

#[test]
fn pasv_without_paren_is_malformed() {
    match resolve_passive("Entering Passive Mode 127,0,0,1,200,13.") {
        Err(Error::InvalidData) => {}
        _ => panic!("text without '(' must be malformed data"),
    }
}

#[test]
fn pasv_without_suffix_is_malformed() {
    match resolve_passive("Entering Passive Mode (127,0,0,1,200,13)") {
        Err(Error::InvalidData) => {}
        _ => panic!("a payload without the \").\" suffix must be malformed data"),
    }
    match resolve_passive("Entering Passive Mode (127,0,0,1,200,13),") {
        Err(Error::InvalidData) => {}
        _ => panic!("a payload with the wrong suffix must be malformed data"),
    }
}

#[test]
fn pasv_wrong_field_count_is_malformed() {
    match resolve_passive("(127,0,0,1,200).") {
        Err(Error::InvalidData) => {}
        _ => panic!("five fields must be malformed data"),
    }
    match resolve_passive("(127,0,0,1,200,13,9).") {
        Err(Error::InvalidData) => {}
        _ => panic!("seven fields must be malformed data"),
    }
}

#[test]
fn pasv_unparsable_octet_degrades_to_zero() {
    match resolve_passive("(127,0,0,1,x,13).") {
        Ok((addr, port)) => {
            assert_eq!(addr, "127.0.0.1");
            assert_eq!(port, 13);
        }
        Err(_) => panic!("an unparsable field degrades the port, not the resolution"),
    }
    match resolve_passive("(127,0,0,1,300,13).") {
        Ok((_, port)) => assert_eq!(port, 13),
        Err(_) => panic!("a field over 255 degrades to zero"),
    }
    match resolve_passive("(127,0,0,1,200,abc).") {
        Ok((_, port)) => assert_eq!(port, 51200),
        Err(_) => panic!("an unparsable low field degrades to zero"),
    }
}

#[test]
fn size_parses_decimal() {
    match parse_size(" 42\r\n") {
        Ok(n) => assert_eq!(n, 42),
        Err(_) => panic!("a padded decimal must parse"),
    }
    match parse_size("19") {
        Ok(n) => assert_eq!(n, 19),
        Err(_) => panic!("a bare decimal must parse"),
    }
    match parse_size("0") {
        Ok(n) => assert_eq!(n, 0),
        Err(_) => panic!("zero must parse"),
    }
}

#[test]
fn size_non_numeric_is_malformed() {
    for text in ["x19", "", "19x", "-4", "1 2"] {
        match parse_size(text) {
            Err(Error::InvalidData) => {}
            _ => panic!("a non-numeric size must be malformed data"),
        }
    }
}

#[test]
fn listing_splits_trims_and_drops_empty() {
    let entries = parse_listing("a.txt\r\nb.txt\r\n\r\n");
    assert_eq!(entries, vec!["a.txt".to_string(), "b.txt".to_string()]);
    let entries = parse_listing("");
    assert_eq!(entries.len(), 0);
    let entries = parse_listing("\nonly\n");
    assert_eq!(entries, vec!["only".to_string()]);
}

#[test]
fn command_line_joins_arguments() {
    let line = command_line("USER", &vec!["name".to_string()]);
    assert_eq!(line, "USER name\n");
    let line = command_line("QUIT", &Vec::new());
    assert_eq!(line, "QUIT \n");
    let line = command_line("X", &vec!["a".to_string(), "b".to_string()]);
    assert_eq!(line, "X a b\n");
}

#[test]
fn mode_codes_are_the_type_letters() {
    assert_eq!(mode_code(TransferMode::ASCII), "A");
    assert_eq!(mode_code(TransferMode::Binary), "I");
    assert_eq!(mode_code(TransferMode::EBCDIC), "E");
    assert_eq!(mode_code(TransferMode::Unicode), "U");
}
