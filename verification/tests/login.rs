use ftp_client::error::FtpError;
use ftp_client::ftp_stream::{FtpStream, LoginStage};
use ftp_client::transport::{Action, Event};

fn line(text: &str) -> Event {
    Event::Line(text.to_string())
}

fn send(text: &str) -> Action {
    Action::Send(text.to_string())
}

fn connected() -> FtpStream {
    FtpStream::connect(&line("220 Welcome\r\n")).unwrap()
}

#[test]
fn login_with_password_succeeds() {
    let mut client = connected();
    assert_eq!(client.login("alice", "secret"), send("USER alice\r\n"));
    assert_eq!(client.login_stage(), LoginStage::UserSent);
    assert_eq!(client.advance(&Event::Sent), Action::Receive);
    assert_eq!(client.login_stage(), LoginStage::UserReply);
    assert_eq!(client.advance(&line("331 Password required\r\n")), send("PASS secret\r\n"));
    assert_eq!(client.login_stage(), LoginStage::PassSent);
    assert_eq!(client.advance(&Event::Sent), Action::Receive);
    assert_eq!(client.login_stage(), LoginStage::FinalReply);
    assert!(!client.is_authenticated());
    assert_eq!(client.advance(&line("230 Logged in\r\n")), Action::Finish(Ok(())));
    assert_eq!(client.login_stage(), LoginStage::Idle);
    assert!(client.is_authenticated());
}

#[test]
fn login_fails_with_the_last_code() {
    for code in [0, 229, 231, 331, 421, 530, 999] {
        let mut client = connected();
        client.login("alice", "wrong");
        client.advance(&Event::Sent);
        client.advance(&line("331 Password required\r\n"));
        client.advance(&Event::Sent);
        let last = format!("{:03} no\r\n", code);
        assert_eq!(client.advance(&line(&last)), Action::Finish(Err(FtpError::Login { code })));
        assert!(!client.is_authenticated());
        assert_eq!(client.login_stage(), LoginStage::Idle);
    }
}

#[test]
fn login_reads_a_second_reply_where_no_password_is_asked() {
    let mut client = connected();
    assert_eq!(client.login("alice", "secret"), send("USER alice\r\n"));
    assert_eq!(client.advance(&Event::Sent), Action::Receive);
    assert_eq!(client.advance(&line("530 Not logged in\r\n")), Action::Receive);
    assert_eq!(client.login_stage(), LoginStage::FinalReply);
    assert!(!client.is_authenticated());
    assert_eq!(
        client.advance(&line("530 Not logged in\r\n")),
        Action::Finish(Err(FtpError::Login { code: 530 }))
    );
    assert!(!client.is_authenticated());
}

#[test]
fn login_without_password_succeeds_on_230() {
    let mut client = connected();
    client.login("anonymous", "");
    assert_eq!(client.advance(&Event::Sent), Action::Receive);
    assert_eq!(client.advance(&line("230 Already in\r\n")), Action::Receive);
    assert_eq!(client.advance(&line("230 Still in\r\n")), Action::Finish(Ok(())));
    assert!(client.is_authenticated());
}

#[test]
fn login_can_be_tried_again_after_a_failure() {
    let mut client = connected();
    client.login("alice", "wrong");
    client.advance(&Event::Sent);
    client.advance(&line("331 Password required\r\n"));
    client.advance(&Event::Sent);
    assert_eq!(
        client.advance(&line("530 Login incorrect\r\n")),
        Action::Finish(Err(FtpError::Login { code: 530 }))
    );
    assert_eq!(client.login("alice", "right"), send("USER alice\r\n"));
    client.advance(&Event::Sent);
    assert_eq!(client.advance(&line("331 Password required\r\n")), send("PASS right\r\n"));
    client.advance(&Event::Sent);
    assert_eq!(client.advance(&line("230 Logged in\r\n")), Action::Finish(Ok(())));
    assert!(client.is_authenticated());
}

#[test]
fn a_new_login_withdraws_the_old_one() {
    let mut client = connected();
    client.login("alice", "secret");
    client.advance(&Event::Sent);
    client.advance(&line("331 Password required\r\n"));
    client.advance(&Event::Sent);
    client.advance(&line("230 Logged in\r\n"));
    assert!(client.is_authenticated());
    client.login("bob", "hunter2");
    assert!(!client.is_authenticated());
    assert_eq!(client.login_stage(), LoginStage::UserSent);
}

#[test]
fn login_ends_when_the_user_line_cannot_be_sent() {
    let mut client = connected();
    client.login("alice", "secret");
    assert_eq!(client.advance(&Event::Failed), Action::Finish(Err(FtpError::Io)));
    assert_eq!(client.login_stage(), LoginStage::Idle);
    assert!(!client.is_authenticated());
}

#[test]
fn login_ends_when_the_first_reply_cannot_be_read() {
    let mut client = connected();
    client.login("alice", "secret");
    client.advance(&Event::Sent);
    assert_eq!(client.advance(&Event::Failed), Action::Finish(Err(FtpError::Io)));
    assert_eq!(client.login_stage(), LoginStage::Idle);

    let mut client = connected();
    client.login("alice", "secret");
    client.advance(&Event::Sent);
    assert_eq!(client.advance(&line("331 Password")), Action::Finish(Err(FtpError::Io)));

    let mut client = connected();
    client.login("alice", "secret");
    client.advance(&Event::Sent);
    assert_eq!(client.advance(&line("")), Action::Finish(Err(FtpError::Protocol)));

    let mut client = connected();
    client.login("alice", "secret");
    client.advance(&Event::Sent);
    assert_eq!(client.advance(&line("what\r\n")), Action::Finish(Err(FtpError::Protocol)));
    assert_eq!(client.login_stage(), LoginStage::Idle);
}

#[test]
fn login_ends_when_the_password_cannot_be_sent() {
    let mut client = connected();
    client.login("alice", "secret");
    client.advance(&Event::Sent);
    client.advance(&line("331 Password required\r\n"));
    assert_eq!(client.advance(&Event::Failed), Action::Finish(Err(FtpError::Io)));
    assert_eq!(client.login_stage(), LoginStage::Idle);
}

#[test]
fn login_ends_when_the_last_reply_cannot_be_read() {
    for (answer, error) in [
        (Event::Failed, FtpError::Io),
        (line(""), FtpError::Protocol),
        (line("230 Logged"), FtpError::Io),
        (line("ok\r\n"), FtpError::Protocol),
        (Event::Sent, FtpError::Io),
    ] {
        let mut client = connected();
        client.login("alice", "secret");
        client.advance(&Event::Sent);
        client.advance(&line("331 Password required\r\n"));
        client.advance(&Event::Sent);
        assert_eq!(client.advance(&answer), Action::Finish(Err(error)));
        assert!(!client.is_authenticated());
        assert_eq!(client.login_stage(), LoginStage::Idle);
    }
}

#[test]
fn an_answer_of_the_wrong_kind_ends_the_login() {
    let mut client = connected();
    client.login("alice", "secret");
    assert_eq!(
        client.advance(&line("331 Password required\r\n")),
        Action::Finish(Err(FtpError::Io))
    );
    let mut client = connected();
    client.login("alice", "secret");
    client.advance(&Event::Sent);
    assert_eq!(client.advance(&Event::Sent), Action::Finish(Err(FtpError::Io)));
}

#[test]
fn an_answer_without_a_login_changes_nothing() {
    let mut client = connected();
    assert_eq!(client.advance(&Event::Sent), Action::Finish(Err(FtpError::Io)));
    assert_eq!(client.advance(&line("230 Logged in\r\n")), Action::Finish(Err(FtpError::Io)));
    assert!(!client.is_authenticated());
    assert_eq!(client.login_stage(), LoginStage::Idle);
}

#[test]
fn login_sends_name_and_password_as_they_are() {
    let mut client = connected();
    assert_eq!(client.login("", "p w"), send("USER \r\n"));
    client.advance(&Event::Sent);
    assert_eq!(client.advance(&line("331 go on\n")), send("PASS p w\r\n"));

    let mut client = connected();
    assert_eq!(client.login("j\u{fc}rgen", "\u{e9}t\u{e9}"), send("USER j\u{fc}rgen\r\n"));
    client.advance(&Event::Sent);
    assert_eq!(client.advance(&line("331 go on\n")), send("PASS \u{e9}t\u{e9}\r\n"));
}

#[test]
fn write_to_conn_hands_out_the_text_unchanged() {
    let client = connected();
    assert_eq!(client.write_to_conn("NOOP\r\n"), send("NOOP\r\n"));
    assert_eq!(client.write_to_conn("no end of line"), send("no end of line"));
    assert_eq!(client.write_to_conn(""), send(""));
}
