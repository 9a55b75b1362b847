use ftp_client::error::FtpError;
use ftp_client::ftp_stream::{FtpStream, LoginStage};
use ftp_client::transport::Event;

fn line(text: &str) -> Event {
    Event::Line(text.to_string())
}

#[test]
fn connect_accepts_the_220_greeting() {
    let client = FtpStream::connect(&line("220 Welcome\r\n")).unwrap();
    assert!(!client.is_authenticated());
    assert_eq!(client.login_stage(), LoginStage::Idle);
}

#[test]
fn connect_accepts_any_text_after_220() {
    assert!(FtpStream::connect(&line("220\n")).is_ok());
    assert!(FtpStream::connect(&line("220-several lines follow\r\n")).is_ok());
    assert!(FtpStream::connect(&line("2209\n")).is_ok());
}

#[test]
fn connect_refuses_421_with_its_code() {
    let refused = FtpStream::connect(&line("421 Service unavailable\r\n"));
    assert_eq!(refused.err(), Some(FtpError::Connect { code: 421 }));
}

#[test]
fn connect_refuses_every_other_code_with_that_code() {
    for code in [0, 1, 120, 219, 221, 230, 331, 530, 999] {
        let greeting = format!("{:03} some text\r\n", code);
        let refused = FtpStream::connect(&line(&greeting));
        assert_eq!(refused.err(), Some(FtpError::Connect { code }));
    }
}

#[test]
fn connect_rejects_a_line_shorter_than_three_characters() {
    for text in ["", "2", "22", "\n", "2\n", "\r\n"] {
        let rejected = FtpStream::connect(&line(text));
        assert_eq!(rejected.err(), Some(FtpError::Protocol));
    }
}

#[test]
fn connect_rejects_a_prefix_that_is_not_three_digits() {
    for text in ["22\n", "abc hello\r\n", "2x0 hello\r\n", "+22 hello\r\n", "-22 hello\r\n",
        " 220 hello\r\n", "22 0\r\n", "hello\r\n", "hello", "2x0"]
    {
        let rejected = FtpStream::connect(&line(text));
        assert_eq!(rejected.err(), Some(FtpError::Protocol));
    }
}

#[test]
fn connect_rejects_digits_outside_ascii() {
    let rejected = FtpStream::connect(&line("\u{ff12}\u{ff12}\u{ff10} Welcome\r\n"));
    assert_eq!(rejected.err(), Some(FtpError::Protocol));
    let rejected = FtpStream::connect(&line("\u{e9}20 Welcome\r\n"));
    assert_eq!(rejected.err(), Some(FtpError::Protocol));
}

#[test]
fn connect_reports_a_stream_closed_before_the_line_was_whole() {
    for text in ["220", "220 Welcome", "220 Welcome\r", "421 Service", "999"] {
        let failed = FtpStream::connect(&line(text));
        assert_eq!(failed.err(), Some(FtpError::Io));
    }
}

#[test]
fn connect_reports_a_failed_read() {
    assert_eq!(FtpStream::connect(&Event::Failed).err(), Some(FtpError::Io));
    assert_eq!(FtpStream::connect(&Event::Sent).err(), Some(FtpError::Io));
}
