//! The transfer engine driven against a scripted server: login, data
//! connections, listings, uploads, downloads, sizes, and the error
//! paths.

use ftp_client::reply::Error;
use ftp_client::session::{Action, Connection, ConnectionType, Event, Outcome};
use ftp_client::transfer::TransferMode;

/// Drives one started operation to completion: each `Exchange` or
/// `ReadReply` consumes the next scripted reply line, the data socket
/// serves `data_in`/`text_in`, and whatever the engine writes to the
/// data socket is captured and returned.
fn drive(
    conn: &mut Connection,
    first: Action,
    replies: &[&str],
    data_in: &[u8],
    text_in: &str,
) -> (Result<Outcome, Error>, Vec<u8>) {
    let mut action = first;
    let mut next_reply: usize = 0;
    let mut written: Vec<u8> = Vec::new();
    loop {
        action = match action {
            Action::ReadReply | Action::Exchange(_) => {
                if next_reply >= replies.len() {
                    panic!("the script ran out of replies");
                }
                let line = replies[next_reply].to_string();
                next_reply += 1;
                conn.step(Event::Line(line))
            }
            Action::OpenData(_, _) => conn.step(Event::Opened),
            Action::ReadData => conn.step(Event::Data(data_in.to_vec())),
            Action::ReadText => conn.step(Event::Text(text_in.to_string())),
            Action::WriteData(bytes) => {
                written = bytes;
                conn.step(Event::Written)
            }
            Action::Done(o) => return (Ok(o), written),
            Action::Fail(e) => return (Err(e), written),
        };
    }
}

fn passive_connection() -> Connection {
    Connection::new("ftp.dlptest.com:21", ConnectionType::Passive)
}

fn logged_in_connection() -> Connection {
    let mut conn = passive_connection();
    let first = conn.login("dlpuser", "rNrKYTX9g7z3RgJRmxWuGHbeu");
    let (outcome, _) = drive(
        &mut conn,
        first,
        &["220 Welcome\r\n", "331 Please specify the password.\r\n", "230 Login successful.\r\n"],
        &[],
        "",
    );
    match outcome {
        Ok(Outcome::Reply(r)) => assert_eq!(r.0, "230"),
        _ => panic!("login must succeed under positive replies"),
    }
    conn
}

#[test]
fn login_test() {
    let mut conn = passive_connection();
    assert_eq!(conn.hostname(), "ftp.dlptest.com:21");
    // The greeting is drained first: login begins with a read, not a write.
    let first = conn.login("dlpuser", "rNrKYTX9g7z3RgJRmxWuGHbeu");
    assert!(matches!(first, Action::ReadReply));
    // After the greeting the engine issues USER, then PASS.
    let second = conn.step(Event::Line("220 Welcome\r\n".to_string()));
    let third = match second {
        Action::Exchange(line) => {
            assert_eq!(line, "USER dlpuser\n");
            conn.step(Event::Line("331 Please specify the password.\r\n".to_string()))
        }
        _ => panic!("after the greeting the engine must send USER"),
    };
    let fourth = match third {
        Action::Exchange(line) => {
            assert_eq!(line, "PASS rNrKYTX9g7z3RgJRmxWuGHbeu\n");
            conn.step(Event::Line("230 Login successful.\r\n".to_string()))
        }
        _ => panic!("after USER's reply the engine must send PASS"),
    };
    match fourth {
        Action::Done(Outcome::Reply(r)) => assert_eq!(r.0, "230"),
        _ => panic!("login must finish with PASS's classified reply"),
    }
}

#[test]
fn login_negative_greeting_fails() {
    let mut conn = passive_connection();
    let first = conn.login("u", "p");
    let (outcome, _) = drive(&mut conn, first, &["500 go away\r\n"], &[], "");
    match outcome {
        Err(Error::NegativeReturnCode { response }) => assert_eq!(response.0, "500"),
        _ => panic!("a negative greeting must fail the login"),
    }
}

#[test]
fn data_connection_test() {
    let mut conn = logged_in_connection();
    let first = conn.establish_data_connection();
    let second = match first {
        Action::Exchange(line) => {
            assert_eq!(line, "PASV \n");
            conn.step(Event::Line("227 Entering Passive Mode (127,0,0,1,200,13).\r\n".to_string()))
        }
        _ => panic!("establishing must begin with PASV"),
    };
    let third = match second {
        Action::OpenData(addr, port) => {
            assert_eq!(addr, "127.0.0.1");
            assert_eq!(port, 51213);
            conn.step(Event::Opened)
        }
        _ => panic!("a 227 reply must resolve to an address to open"),
    };
    match third {
        Action::Done(Outcome::Established) => {}
        _ => panic!("the open data connection is handed to the caller"),
    }
}

#[test]
fn data_connection_negative_reply_fails() {
    let mut conn = logged_in_connection();
    let first = conn.establish_data_connection();
    let (outcome, _) = drive(&mut conn, first, &["425 Can't open data connection.\r\n"], &[], "");
    match outcome {
        Err(Error::NegativeReturnCode { response }) => assert_eq!(response.0, "425"),
        _ => panic!("a negative PASV reply must fail"),
    }
}

#[test]
fn data_connection_positive_but_not_227_fails() {
    let mut conn = logged_in_connection();
    let first = conn.establish_data_connection();
    let (outcome, _) = drive(&mut conn, first, &["200 Ok\r\n"], &[], "");
    match outcome {
        Err(Error::NegativeReturnCode { response }) => assert_eq!(response.0, "200"),
        _ => panic!("a positive reply that is not 227 must fail carrying the reply"),
    }
}

#[test]
fn active_mode_data_connection_fails_deterministically() {
    let mut conn = Connection::new("h:21", ConnectionType::Active);
    match conn.get_directory_listing() {
        Action::Fail(Error::InvalidData) => {}
        _ => panic!("active mode has no data-connection implementation"),
    }
    match conn.establish_data_connection() {
        Action::Fail(Error::InvalidData) => {}
        _ => panic!("active mode must fail for every data-connection operation"),
    }
}

#[test]
fn list_remote_files() {
    let mut conn = logged_in_connection();
    let first = conn.get_directory_listing();
    let (outcome, _) = drive(
        &mut conn,
        first,
        &[
            "227 Entering Passive Mode (127,0,0,1,200,13).\r\n",
            "150 Here comes the directory listing.\r\n",
            "226 Directory send OK.\r\n",
        ],
        &[],
        "f1.txt\r\nf2.txt\r\n",
    );
    let files = match outcome {
        Ok(Outcome::Names(names, _)) => names,
        _ => panic!("the listing must complete"),
    };
    assert_ne!(files.len(), 0);
    for f in files {
        assert_ne!(f.len(), 0);
    }
}

#[test]
fn fresh_directory_listing_is_empty() {
    let mut conn = logged_in_connection();
    let first = conn.make_directory("d");
    let (outcome, _) = drive(&mut conn, first, &["257 \"d\" created\r\n"], &[], "");
    match outcome {
        Ok(Outcome::Reply(r)) => assert_eq!(r.0, "257"),
        _ => panic!("MKD must succeed"),
    }
    let first = conn.change_directory("d");
    let (outcome, _) = drive(&mut conn, first, &["250 Directory changed\r\n"], &[], "");
    match outcome {
        Ok(Outcome::Reply(r)) => assert_eq!(r.0, "250"),
        _ => panic!("CWD must succeed"),
    }
    let first = conn.get_directory_listing();
    let (outcome, _) = drive(
        &mut conn,
        first,
        &[
            "227 Entering Passive Mode (127,0,0,1,200,13).\r\n",
            "150 Listing\r\n",
            "226 Done\r\n",
        ],
        &[],
        "",
    );
    match outcome {
        Ok(Outcome::Names(names, r)) => {
            assert_eq!(names.len(), 0);
            assert_eq!(r.0, "226");
        }
        _ => panic!("listing a fresh directory must succeed"),
    }
}

fn upload_bytes(conn: &mut Connection, data: &[u8], name: &str) -> Vec<u8> {
    let first = conn.upload_file(data, name);
    let (outcome, written) = drive(
        conn,
        first,
        &[
            "227 Entering Passive Mode (127,0,0,1,200,13).\r\n",
            "150 Ok to send data.\r\n",
            "226 Transfer complete.\r\n",
        ],
        &[],
        "",
    );
    match outcome {
        Ok(Outcome::Reply(r)) => assert_eq!(r.0, "226"),
        _ => panic!("the upload must finish with the final status"),
    }
    written
}

fn download_bytes(conn: &mut Connection, stored: &[u8], name: &str) -> Vec<u8> {
    let first = conn.receive_file(name);
    let (outcome, _) = drive(
        conn,
        first,
        &[
            "227 Entering Passive Mode (127,0,0,1,200,13).\r\n",
            "150 Opening BINARY mode data connection.\r\n",
            "226 Transfer complete.\r\n",
        ],
        stored,
        "",
    );
    match outcome {
        Ok(Outcome::Bytes(bytes, r)) => {
            assert_eq!(r.0, "226");
            bytes
        }
        _ => panic!("the download must finish with the drained bytes"),
    }
}

#[test]
fn file_upload_test() {
    let mut conn = logged_in_connection();
    let string = "This is a test file";
    let b = string.as_bytes();
    let written = upload_bytes(&mut conn, b, "test_file");
    assert_eq!(written, b);
    let first = conn.get_directory_listing();
    let (outcome, _) = drive(
        &mut conn,
        first,
        &[
            "227 Entering Passive Mode (127,0,0,1,200,13).\r\n",
            "150 Listing\r\n",
            "226 Done\r\n",
        ],
        &[],
        "test_file\r\n",
    );
    let files = match outcome {
        Ok(Outcome::Names(names, _)) => names,
        _ => panic!("the listing must complete"),
    };
    assert!(files.iter().any(|s| s == "test_file"));
    let remote = String::from_utf8(download_bytes(&mut conn, &written, "test_file")).unwrap();
    assert_eq!(remote, string);
}

#[test]
fn round_trip_empty_buffer() {
    let mut conn = logged_in_connection();
    let data: Vec<u8> = Vec::new();
    let written = upload_bytes(&mut conn, &data, "f");
    let back = download_bytes(&mut conn, &written, "f");
    assert_eq!(back, data);
}

#[test]
fn round_trip_single_byte() {
    let mut conn = logged_in_connection();
    let data = vec![0x5au8];
    let written = upload_bytes(&mut conn, &data, "f");
    let back = download_bytes(&mut conn, &written, "f");
    assert_eq!(back, data);
}

#[test]
fn round_trip_multi_kilobyte_buffer() {
    let mut conn = logged_in_connection();
    let mut data: Vec<u8> = Vec::new();
    for i in 0..4096 {
        data.push((i * 31 % 251) as u8);
    }
    let written = upload_bytes(&mut conn, &data, "f");
    let back = download_bytes(&mut conn, &written, "f");
    assert_eq!(back, data);
}

#[test]
fn upload_issues_stor_with_filename() {
    let mut conn = logged_in_connection();
    let first = conn.upload_file(&[1, 2, 3], "name.bin");
    let second = match first {
        Action::Exchange(line) => {
            assert_eq!(line, "PASV \n");
            conn.step(Event::Line("227 =(127,0,0,1,4,1).\r\n".to_string()))
        }
        _ => panic!("the upload must begin with PASV"),
    };
    let third = match second {
        Action::OpenData(_, _) => conn.step(Event::Opened),
        _ => panic!("the 227 reply must open the data connection"),
    };
    match third {
        Action::Exchange(line) => assert_eq!(line, "STOR name.bin\n"),
        _ => panic!("once open, the engine must issue STOR"),
    }
}

#[test]
fn download_issues_retr_with_filename() {
    let mut conn = logged_in_connection();
    let first = conn.receive_file("name.bin");
    let second = match first {
        Action::Exchange(line) => {
            assert_eq!(line, "PASV \n");
            conn.step(Event::Line("227 =(127,0,0,1,4,1).\r\n".to_string()))
        }
        _ => panic!("the download must begin with PASV"),
    };
    let third = match second {
        Action::OpenData(_, _) => conn.step(Event::Opened),
        _ => panic!("the 227 reply must open the data connection"),
    };
    match third {
        Action::Exchange(line) => assert_eq!(line, "RETR name.bin\n"),
        _ => panic!("once open, the engine must issue RETR"),
    }
}

#[test]
fn remote_size_test() {
    let mut conn = logged_in_connection();
    let first = conn.get_remote_size("f1.txt");
    let (outcome, _) = drive(&mut conn, first, &["213 19\r\n"], &[], "");
    let size = match outcome {
        Ok(Outcome::Size(n)) => n,
        _ => panic!("SIZE must succeed on a numeric reply"),
    };
    assert!(size > 0);
}

#[test]
fn size_after_upload_returns_byte_count() {
    let mut conn = logged_in_connection();
    let data = b"exactly nineteen b.";
    let written = upload_bytes(&mut conn, data, "f");
    assert_eq!(written.len(), 19);
    let first = conn.get_remote_size("f");
    let reply = format!("213 {}\r\n", written.len());
    let (outcome, _) = drive(&mut conn, first, &[reply.as_str()], &[], "");
    match outcome {
        Ok(Outcome::Size(n)) => assert_eq!(n, 19),
        _ => panic!("SIZE must return exactly the stored byte count"),
    }
}

#[test]
fn size_malformed_reply_fails() {
    let mut conn = logged_in_connection();
    let first = conn.get_remote_size("f");
    let (outcome, _) = drive(&mut conn, first, &["213 total 0\r\n"], &[], "");
    match outcome {
        Err(Error::InvalidData) => {}
        _ => panic!("a non-numeric SIZE payload must be malformed data"),
    }
}

#[test]
fn delete_nonexistent_fails_with_5xx() {
    let mut conn = logged_in_connection();
    let first = conn.delete("nonexistent");
    match &first {
        Action::Exchange(line) => assert_eq!(line, "DELE nonexistent\n"),
        _ => panic!("DELE must be issued as one line"),
    }
    let (outcome, _) = drive(&mut conn, first, &["550 Delete operation failed.\r\n"], &[], "");
    match outcome {
        Err(Error::NegativeReturnCode { response }) => {
            assert!(response.0.starts_with('5'));
        }
        _ => panic!("deleting a missing file must fail with the negative reply"),
    }
}

#[test]
fn directory_commands_issue_expected_lines() {
    let mut conn = logged_in_connection();
    match conn.remove_directory("d") {
        Action::Exchange(line) => assert_eq!(line, "RMD d\n"),
        _ => panic!("RMD must be issued as one line"),
    }
    let _ = conn.step(Event::Line("250 ok\r\n".to_string()));
    match conn.go_to_parent() {
        Action::Exchange(line) => assert_eq!(line, "CDUP \n"),
        _ => panic!("CDUP must be issued as one line"),
    }
    let _ = conn.step(Event::Line("250 ok\r\n".to_string()));
    match conn.close() {
        Action::Exchange(line) => assert_eq!(line, "QUIT \n"),
        _ => panic!("QUIT must be issued as one line"),
    }
    let _ = conn.step(Event::Line("221 bye\r\n".to_string()));
}

#[test]
fn transfer_mode_issues_type_line() {
    let mut conn = logged_in_connection();
    match conn.set_transfer_mode(TransferMode::Binary) {
        Action::Exchange(line) => assert_eq!(line, "TYPE I\n"),
        _ => panic!("TYPE must be issued as one line"),
    }
    let (outcome, _) = drive(&mut conn, Action::ReadReply, &["200 Switching to Binary mode.\r\n"], &[], "");
    match outcome {
        Ok(Outcome::Reply(r)) => assert_eq!(r.0, "200"),
        _ => panic!("TYPE must finish with its classified reply"),
    }
}

#[test]
fn transport_error_surfaces_as_io_failure() {
    let mut conn = logged_in_connection();
    let first = conn.delete("f");
    match first {
        Action::Exchange(_) => {}
        _ => panic!("DELE must be issued as one line"),
    }
    match conn.step(Event::Transport("connection reset".to_string())) {
        Action::Fail(Error::IOError { message }) => assert_eq!(message, "connection reset"),
        _ => panic!("a transport failure must surface as the IO error"),
    }
}
