//! The client of the control channel: it accepts the server's greeting,
//! leads the login exchange one step at a time, and reads replies.
//!
//! The client never touches the connection. It is handed what the
//! connection answered, as an [`Event`], and says what is to be done next,
//! as an [`Action`].

use vstd::prelude::*;
use crate::command::{pass_command, pass_line, user_command, user_line};
use crate::error::FtpError;
use crate::reply::{
    code_text, code_value, gather, is_code, is_complete, is_digit, read_code, received_code,
    reply_view, OpenReply, PartialReply,
};
use crate::transport::{confirm_sent, sent_outcome, Action, ActionView, Event, EventView};

verus! {

/// The code of a greeting that lets the session begin.
pub const SERVICE_READY: i32 = 220;

/// The code after which the server waits for the password.
pub const NEED_PASSWORD: i32 = 331;

/// The code that ends a login in success.
pub const LOGGED_IN: i32 = 230;

/// Where the login exchange stands.
#[derive(Clone, Copy, Debug, PartialEq, Eq, Structural)]
pub enum LoginStage {
    /// No login is under way.
    Idle,
    /// The line that names the user was handed out to be sent.
    UserSent,
    /// The reply to the user's name is awaited.
    UserReply,
    /// The line that carries the password was handed out to be sent.
    PassSent,
    /// The reply that decides the login is awaited.
    FinalReply,
}

/// The state of a client as a mathematical value.
pub struct Session {
    /// Whether the last login ended in success.
    pub authenticated: bool,
    /// Where the login exchange stands.
    pub stage: LoginStage,
    /// The password that is kept until the server has answered the user's
    /// name; empty at any other time.
    pub password: Seq<char>,
    /// The reply that is being gathered, where one has begun.
    pub reply: Option<OpenReply>,
}

/// The state of a client whose greeting was just accepted.
pub open spec fn connected() -> Session {
    Session {
        authenticated: false,
        stage: LoginStage::Idle,
        password: Seq::empty(),
        reply: None,
    }
}

/// What the answer to the first read of a connection means: the session
/// begins where the line opens with 220; any other status code refuses the
/// connection and is carried in the error; where no status code was read,
/// the error of that reading stands.
pub open spec fn greeting_outcome(event: EventView) -> Result<(), FtpError> {
    match received_code(event) {
        Ok(code) => if code == SERVICE_READY {
            Ok(())
        } else {
            Err(FtpError::Connect { code: code as i32 })
        },
        Err(error) => Err(error),
    }
}

/// What the answer to the last read of a login means: success where the
/// line opens with 230; any other status code is a failed login and is
/// carried in the error; where no status code was read, the error of that
/// reading stands.
pub open spec fn login_outcome(event: EventView) -> Result<(), FtpError> {
    match received_code(event) {
        Ok(code) => if code == LOGGED_IN {
            Ok(())
        } else {
            Err(FtpError::Login { code: code as i32 })
        },
        Err(error) => Err(error),
    }
}

/// The state in which a login begins: the user's name is on its way, the
/// password is kept, and the client counts as not logged in until the
/// server says otherwise.
pub open spec fn login_begun(session: Session, password: Seq<char>) -> Session {
    Session { authenticated: false, stage: LoginStage::UserSent, password, ..session }
}

/// The state in which a login has ended, logged in or not.
pub open spec fn login_ended(session: Session, authenticated: bool) -> Session {
    Session { authenticated, stage: LoginStage::Idle, password: Seq::empty(), ..session }
}

/// One step of the login exchange: from the state and the answer of the
/// connection to the next state and what is to be done next.
///
/// Once the user's name is sent, its reply is read. Where that reply opens
/// with 331 the password is sent and the next reply is read; on any other
/// status code nothing is sent, and a further reply is read all the same.
/// That last reply decides the login. A failure at any step ends the
/// exchange with its error, and so does an answer to something that was not
/// asked, as a failure of the transport.
pub open spec fn login_step(session: Session, event: EventView) -> (Session, ActionView) {
    match session.stage {
        LoginStage::Idle => (session, ActionView::Finish(Err(FtpError::Io))),
        LoginStage::UserSent => match sent_outcome(event) {
            Ok(_) => (Session { stage: LoginStage::UserReply, ..session }, ActionView::Receive),
            Err(error) => (login_ended(session, false), ActionView::Finish(Err(error))),
        },
        LoginStage::UserReply => match received_code(event) {
            Ok(code) => if code == NEED_PASSWORD {
                (
                    Session { stage: LoginStage::PassSent, password: Seq::empty(), ..session },
                    ActionView::Send(pass_command(session.password)),
                )
            } else {
                (
                    Session { stage: LoginStage::FinalReply, password: Seq::empty(), ..session },
                    ActionView::Receive,
                )
            },
            Err(error) => (login_ended(session, false), ActionView::Finish(Err(error))),
        },
        LoginStage::PassSent => match sent_outcome(event) {
            Ok(_) => (Session { stage: LoginStage::FinalReply, ..session }, ActionView::Receive),
            Err(error) => (login_ended(session, false), ActionView::Finish(Err(error))),
        },
        LoginStage::FinalReply => (
            login_ended(session, login_outcome(event) is Ok),
            ActionView::Finish(login_outcome(event)),
        ),
    }
}

/// A client of the control channel of one connection.
pub struct FtpStream {
    authenticated: bool,
    stage: LoginStage,
    password: String,
    reply: PartialReply,
}

impl View for FtpStream {
    type V = Session;

    closed spec fn view(&self) -> Session {
        Session {
            authenticated: self.authenticated,
            stage: self.stage,
            password: self.password@,
            reply: self.reply@,
        }
    }
}

impl FtpStream {
    /// Begins a session on a connection that was just opened. `greeting` is
    /// the answer to the first read of one line from it.
    ///
    /// The session begins where a whole line came that opens with 220. A
    /// whole line with another status code gives [`FtpError::Connect`] with
    /// that code; a text that does not open with three digits gives
    /// [`FtpError::Protocol`]; a line cut short after its digits, a failed
    /// read or any other answer gives [`FtpError::Io`].
    pub fn connect(greeting: &Event) -> (result: Result<FtpStream, FtpError>)
        ensures
            match greeting_outcome(greeting@) {
                Ok(_) => result matches Ok(client) && client@ == connected(),
                Err(error) => result matches Err(found) && found == error,
            },
    {
        match read_code(greeting) {
            Ok(code) => {
                if code == SERVICE_READY {
                    Ok(
                        FtpStream {
                            authenticated: false,
                            stage: LoginStage::Idle,
                            password: String::new(),
                            reply: PartialReply::new(),
                        },
                    )
                } else {
                    Err(FtpError::Connect { code })
                }
            },
            Err(error) => Err(error),
        }
    }

    /// Begins a login. Returns the first thing to do, which is to send the
    /// line that names the user; [`FtpStream::advance`] takes each answer
    /// from there on.
    pub fn login(&mut self, username: &str, password: &str) -> (action: Action)
        ensures
            final(self)@ == login_begun(old(self)@, password@),
            action@ == ActionView::Send(user_command(username@)),
    {
        self.authenticated = false;
        self.stage = LoginStage::UserSent;
        self.password = String::from_str(password);
        let line = user_line(username);
        self.write_to_conn(line.as_str())
    }

    /// Takes the answer to the last action of a login and returns the next
    /// one, [`Action::Finish`] with the result where the login is over.
    pub fn advance(&mut self, event: &Event) -> (action: Action)
        ensures
            (final(self)@, action@) == login_step(old(self)@, event@),
    {
        match self.stage {
            LoginStage::Idle => Action::Finish(Err(FtpError::Io)),
            LoginStage::UserSent => match confirm_sent(event) {
                Ok(_) => {
                    self.stage = LoginStage::UserReply;
                    Action::Receive
                },
                Err(error) => self.end_login(Err(error)),
            },
            LoginStage::UserReply => match self.get_next_response_code(event) {
                Ok(code) => {
                    let mut password = String::new();
                    std::mem::swap(&mut self.password, &mut password);
                    if code == NEED_PASSWORD {
                        self.stage = LoginStage::PassSent;
                        let line = pass_line(password.as_str());
                        self.write_to_conn(line.as_str())
                    } else {
                        self.stage = LoginStage::FinalReply;
                        Action::Receive
                    }
                },
                Err(error) => self.end_login(Err(error)),
            },
            LoginStage::PassSent => match confirm_sent(event) {
                Ok(_) => {
                    self.stage = LoginStage::FinalReply;
                    Action::Receive
                },
                Err(error) => self.end_login(Err(error)),
            },
            LoginStage::FinalReply => {
                let outcome = match self.get_next_response_code(event) {
                    Ok(code) => if code == LOGGED_IN {
                        Ok(())
                    } else {
                        Err(FtpError::Login { code })
                    },
                    Err(error) => Err(error),
                };
                self.end_login(outcome)
            },
        }
    }

    /// Ends the login with `outcome`.
    fn end_login(&mut self, outcome: Result<(), FtpError>) -> (action: Action)
        ensures
            final(self)@ == login_ended(old(self)@, outcome is Ok),
            action@ == ActionView::Finish(outcome),
    {
        self.authenticated = outcome.is_ok();
        self.stage = LoginStage::Idle;
        self.password = String::new();
        Action::Finish(outcome)
    }

    /// The action that puts `message` on the connection: exactly its text,
    /// with nothing added, so the caller supplies the end of line.
    pub fn write_to_conn(&self, message: &str) -> (action: Action)
        ensures
            action@ == ActionView::Send(message@),
    {
        Action::Send(String::from_str(message))
    }

    /// The status code of the reply that `received`, the answer to a read
    /// of one line, carries.
    ///
    /// A whole line that opens with three digits gives their number; a
    /// text that does not open with three digits gives
    /// [`FtpError::Protocol`]; a line cut short after its digits, a failed
    /// read or any other answer gives [`FtpError::Io`].
    pub fn get_next_response_code(&self, received: &Event) -> (result: Result<i32, FtpError>)
        ensures
            match received_code(received@) {
                Ok(code) => result == Ok::<i32, FtpError>(code as i32) && 0 <= code <= 999,
                Err(error) => result == Err::<i32, FtpError>(error),
            },
    {
        read_code(received)
    }

    /// Takes `received`, the answer to a read of one line, into the reply
    /// that is being gathered. Returns the reply, as its status code and
    /// its whole text, where this line closed it or an error ended it, and
    /// nothing where a further line has to be read and handed in.
    pub fn get_next_message(&mut self, received: &Event) -> (reply: Option<
        Result<(i32, String), FtpError>,
    >)
        ensures
            (final(self)@.reply, reply_view(reply)) == gather(old(self)@.reply, received@),
            final(self)@ == (Session { reply: final(self)@.reply, ..old(self)@ }),
    {
        self.reply.push(received)
    }

    /// Whether the last login ended in success.
    pub fn is_authenticated(&self) -> (authenticated: bool)
        ensures
            authenticated == self@.authenticated,
    {
        self.authenticated
    }

    /// Where the login exchange stands.
    pub fn login_stage(&self) -> (stage: LoginStage)
        ensures
            stage == self@.stage,
    {
        self.stage
    }
}

/// A whole greeting line that opens with 220 begins the session; one that
/// opens with any other three digits refuses the connection, and the error
/// carries the number that they write.
pub proof fn greeting_decided_by_code(line: Seq<char>)
    requires
        is_complete(line),
        is_code(code_text(line)),
    ensures
        code_value(code_text(line)) == 220 ==> greeting_outcome(EventView::Line(line)) == Ok::<
            (),
            FtpError,
        >(()),
        code_value(code_text(line)) != 220 ==> greeting_outcome(EventView::Line(line)) == Err::<
            (),
            FtpError,
        >(FtpError::Connect { code: code_value(code_text(line)) as i32 }),
        0 <= code_value(code_text(line)) <= 999,
{
}

/// A greeting with fewer than three characters, or with a character among
/// its first three that is no digit, is a protocol error.
pub proof fn malformed_greeting_is_protocol_error(line: Seq<char>)
    requires
        line.len() < 3 || !is_digit(line[0]) || !is_digit(line[1]) || !is_digit(line[2]),
    ensures
        greeting_outcome(EventView::Line(line)) == Err::<(), FtpError>(FtpError::Protocol),
{
}

/// How a login runs whose commands are all sent: from the state in which it
/// begins, through the reply to the user's name, the sending of the
/// password where the client chose to send it, and the last reply.
pub open spec fn login_run(session: Session, password: Seq<char>, first: EventView, last: EventView) -> (
    Session,
    ActionView,
) {
    let named = login_step(login_begun(session, password), EventView::Sent).0;
    let answered = login_step(named, first);
    let waiting = if answered.1 is Send {
        login_step(answered.0, EventView::Sent).0
    } else {
        answered.0
    };
    login_step(waiting, last)
}

/// A login begins by sending the user's name and then reads the reply to
/// it. Where that reply opens with 331 the password is sent next, in its
/// command line.
pub proof fn password_follows_331(session: Session, password: Seq<char>, first: EventView)
    requires
        received_code(first) == Ok::<int, FtpError>(331),
    ensures
        login_step(login_begun(session, password), EventView::Sent).1 == ActionView::Receive,
        login_step(login_step(login_begun(session, password), EventView::Sent).0, first).1
            == ActionView::Send(pass_command(password)),
{
}

/// Where the reply to the user's name opens with a status code other than
/// 331, no password is sent, and the client asks for a further reply all
/// the same.
pub proof fn further_read_without_331(session: Session, password: Seq<char>, first: EventView)
    requires
        received_code(first) is Ok,
        received_code(first) != Ok::<int, FtpError>(331),
    ensures
        login_step(login_step(login_begun(session, password), EventView::Sent).0, first).1
            == ActionView::Receive,
{
}

/// The last reply decides the login: whatever status code answered the
/// user's name, the login succeeds where the last reply opens with 230 and
/// leaves the client logged in.
pub proof fn login_succeeds_on_230(
    session: Session,
    password: Seq<char>,
    first: EventView,
    last: EventView,
)
    requires
        received_code(first) is Ok,
        received_code(last) == Ok::<int, FtpError>(230),
    ensures
        login_run(session, password, first, last) == (
            login_ended(session, true),
            ActionView::Finish(Ok(())),
        ),
{
}

/// The last reply decides the login: where it opens with a status code
/// other than 230, the login fails with an error that carries that very
/// code, and the client is left not logged in.
pub proof fn login_fails_with_last_code(
    session: Session,
    password: Seq<char>,
    first: EventView,
    last: EventView,
    code: int,
)
    requires
        received_code(first) is Ok,
        received_code(last) == Ok::<int, FtpError>(code),
        code != 230,
    ensures
        login_run(session, password, first, last) == (
            login_ended(session, false),
            ActionView::Finish(Err(FtpError::Login { code: code as i32 })),
        ),
{
}

} // verus!
