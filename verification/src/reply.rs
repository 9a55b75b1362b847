//! The rules for a server's reply: whether a line came whole, which status
//! code it opens with, whether it closes a reply of several lines, and how
//! the lines of such a reply are gathered into one.

use vstd::prelude::*;
use crate::error::FtpError;
use crate::transport::{Event, EventView};

verus! {

/// Whether `c` is one of the ten decimal digits.
pub open spec fn is_digit(c: char) -> bool {
    '0' <= c && c <= '9'
}

/// The number that the decimal digit `c` stands for.
pub open spec fn digit_value(c: char) -> int {
    c as int - '0' as int
}

/// Whether `line` is a full line: it ends with a line feed. A read that the
/// closing of the stream cut short gives a text that is not.
pub open spec fn is_complete(line: Seq<char>) -> bool {
    line.len() > 0 && line.last() == '\n'
}

/// The place of the status code in `line`: its first three characters, or
/// all of it where it has fewer.
pub open spec fn code_text(line: Seq<char>) -> Seq<char> {
    if line.len() <= 3 {
        line
    } else {
        line.take(3)
    }
}

/// Whether `text` is a status code: exactly three decimal digits.
pub open spec fn is_code(text: Seq<char>) -> bool {
    text.len() == 3 && is_digit(text[0]) && is_digit(text[1]) && is_digit(text[2])
}

/// The number that the three digits of `text` write in base ten.
pub open spec fn code_value(text: Seq<char>) -> int {
    100 * digit_value(text[0]) + 10 * digit_value(text[1]) + digit_value(text[2])
}

/// Whether `line` closes the reply that was opened under `code`: it begins
/// with the characters of `code` and one space after them.
pub open spec fn closes(code: Seq<char>, line: Seq<char>) -> bool {
    code.push(' ').is_prefix_of(line)
}

/// Tells whether `line` ends with a line feed.
pub fn is_complete_line(line: &str) -> (complete: bool)
    ensures
        complete == is_complete(line@),
{
    let n: usize = line.unicode_len();
    n > 0 && line.get_char(n - 1) == '\n'
}

/// The first three characters of `line`, or all of it where it has fewer.
pub fn leading_code(line: &str) -> (code: String)
    ensures
        code@ == code_text(line@),
{
    let n: usize = line.unicode_len();
    if n <= 3 {
        proof {
            assert(line@.subrange(0, n as int) =~= line@);
        }
        String::from_str(line.substring_char(0, n))
    } else {
        String::from_str(line.substring_char(0, 3))
    }
}

/// Reads `text` as a status code: the number that its three digits write,
/// and a protocol error where it is anything but three decimal digits.
pub fn parse_code(text: &str) -> (result: Result<i32, FtpError>)
    ensures
        is_code(text@) ==> result == Ok::<i32, FtpError>(code_value(text@) as i32),
        !is_code(text@) ==> result == Err::<i32, FtpError>(FtpError::Protocol),
        result matches Ok(code) ==> 0 <= code <= 999,
{
    if text.unicode_len() != 3 {
        return Err(FtpError::Protocol);
    }
    let hundreds = digit_of(text.get_char(0));
    let tens = digit_of(text.get_char(1));
    let units = digit_of(text.get_char(2));
    match (hundreds, tens, units) {
        (Some(h), Some(t), Some(u)) => Ok(100 * h + 10 * t + u),
        _ => Err(FtpError::Protocol),
    }
}

/// The value of `c` where it is a decimal digit.
fn digit_of(c: char) -> (digit: Option<i32>)
    ensures
        is_digit(c) ==> digit == Some(digit_value(c) as i32),
        !is_digit(c) ==> digit is None,
        digit matches Some(d) ==> 0 <= d <= 9,
{
    if '0' <= c && c <= '9' {
        Some((c as u32 - '0' as u32) as i32)
    } else {
        None
    }
}

/// Tells whether `line` begins with `code` and a space after it.
pub fn closes_reply(code: &str, line: &str) -> (closing: bool)
    ensures
        closing == closes(code@, line@),
{
    let n: usize = code.unicode_len();
    let m: usize = line.unicode_len();
    if m <= n {
        return false;
    }
    let mut i: usize = 0;
    while i < n
        invariant
            n == code@.len(),
            m == line@.len(),
            n < m,
            i <= n,
            forall|j: int| 0 <= j < i ==> code@[j] == line@[j],
        decreases n - i,
    {
        if code.get_char(i) != line.get_char(i) {
            assert(code@.push(' ')[i as int] == code@[i as int]);
            return false;
        }
        i = i + 1;
    }
    let closing = line.get_char(n) == ' ';
    proof {
        let pattern = code@.push(' ');
        if closing {
            assert(pattern =~= line@.subrange(0, pattern.len() as int));
        } else {
            assert(pattern[n as int] == ' ');
        }
    }
    closing
}

/// What one read says of the status code of the line it returned. A text
/// with fewer than three characters, or with one among its first three that
/// is no digit, is a protocol error. One that opens with three digits and
/// has no line feed at its end means that the stream closed before the line
/// was whole, which is a failure of the transport.
pub open spec fn line_code(line: Seq<char>) -> Result<int, FtpError> {
    if !is_code(code_text(line)) {
        Err(FtpError::Protocol)
    } else if !is_complete(line) {
        Err(FtpError::Io)
    } else {
        Ok(code_value(code_text(line)))
    }
}

/// What the answer to a [`crate::transport::Action::Receive`] says of the
/// status code: that of the line where one was read, and a failure of the
/// transport on any other answer.
pub open spec fn received_code(event: EventView) -> Result<int, FtpError> {
    match event {
        EventView::Line(line) => line_code(line),
        _ => Err(FtpError::Io),
    }
}

/// The status code that the text of one read opens with.
pub fn status_code(line: &str) -> (result: Result<i32, FtpError>)
    ensures
        match line_code(line@) {
            Ok(code) => result == Ok::<i32, FtpError>(code as i32) && 0 <= code <= 999,
            Err(error) => result == Err::<i32, FtpError>(error),
        },
{
    let code = leading_code(line);
    match parse_code(code.as_str()) {
        Ok(number) => if is_complete_line(line) {
            Ok(number)
        } else {
            Err(FtpError::Io)
        },
        Err(error) => Err(error),
    }
}

/// The status code that an answer to a read carries.
pub fn read_code(event: &Event) -> (result: Result<i32, FtpError>)
    ensures
        match received_code(event@) {
            Ok(code) => result == Ok::<i32, FtpError>(code as i32) && 0 <= code <= 999,
            Err(error) => result == Err::<i32, FtpError>(error),
        },
{
    match event {
        Event::Line(line) => status_code(line.as_str()),
        _ => Err(FtpError::Io),
    }
}

/// A reply that has begun and is not closed yet.
pub struct OpenReply {
    /// The place of the status code in its first line.
    pub code: Seq<char>,
    /// What has been gathered of it: the first line, and after it each
    /// further line behind a line feed.
    pub text: Seq<char>,
}

/// What a closed reply amounts to: its status code as a number beside the
/// whole text, or a protocol error where the code is not three digits.
pub open spec fn close_reply(code: Seq<char>, text: Seq<char>) -> Result<(int, Seq<char>), FtpError> {
    if is_code(code) {
        Ok((code_value(code), text))
    } else {
        Err(FtpError::Protocol)
    }
}

/// One step of gathering a reply: from what is open so far and the answer
/// to a read, to what is open afterwards and the reply where this answer
/// ended it.
///
/// The first line opens the reply and may close it at once. Each further
/// line is added behind a line feed, and the line that begins with the
/// leading characters of the first line and a space closes the reply. A
/// text without a line feed at its end means that the stream closed before
/// the closing line had come whole, which is a protocol error. Any answer
/// other than a line is a failure of the transport. The status code is only
/// read as a number once the reply is closed.
pub open spec fn gather(open: Option<OpenReply>, event: EventView) -> (
    Option<OpenReply>,
    Option<Result<(int, Seq<char>), FtpError>>,
) {
    match event {
        EventView::Line(line) => if !is_complete(line) {
            (None, Some(Err(FtpError::Protocol)))
        } else {
            match open {
                None => if closes(code_text(line), line) {
                    (None, Some(close_reply(code_text(line), line)))
                } else {
                    (Some(OpenReply { code: code_text(line), text: line }), None)
                },
                Some(reply) => {
                    let text = reply.text + seq!['\n'] + line;
                    if closes(reply.code, line) {
                        (None, Some(close_reply(reply.code, text)))
                    } else {
                        (Some(OpenReply { code: reply.code, text }), None)
                    }
                },
            }
        },
        _ => (None, Some(Err(FtpError::Io))),
    }
}

/// What [`PartialReply::push`] returns, as a mathematical value.
pub open spec fn reply_view(reply: Option<Result<(i32, String), FtpError>>) -> Option<
    Result<(int, Seq<char>), FtpError>,
> {
    match reply {
        None => None,
        Some(Ok((code, text))) => Some(Ok((code as int, text@))),
        Some(Err(error)) => Some(Err(error)),
    }
}

/// The lines of a reply as they are gathered, one read at a time.
#[derive(Debug)]
pub struct PartialReply {
    begun: bool,
    code: String,
    text: String,
}

impl View for PartialReply {
    type V = Option<OpenReply>;

    closed spec fn view(&self) -> Option<OpenReply> {
        if self.begun {
            Some(OpenReply { code: self.code@, text: self.text@ })
        } else {
            None
        }
    }
}

impl PartialReply {
    /// No reply has begun.
    pub fn new() -> (reply: PartialReply)
        ensures
            reply@ is None,
    {
        PartialReply { begun: false, code: String::new(), text: String::new() }
    }

    /// Whether a reply has begun and is waiting for its closing line.
    pub fn is_open(&self) -> (open: bool)
        ensures
            open == (self@ is Some),
    {
        self.begun
    }

    /// Takes the answer to one read. Returns the reply where this answer
    /// ended it, and nothing where a further line has to be read.
    pub fn push(&mut self, received: &Event) -> (reply: Option<Result<(i32, String), FtpError>>)
        ensures
            (final(self)@, reply_view(reply)) == gather(old(self)@, received@),
    {
        match received {
            Event::Line(line) => {
                if self.begun {
                    self.push_further(line.as_str())
                } else {
                    self.push_first(line.as_str())
                }
            },
            _ => {
                self.begun = false;
                Some(Err(FtpError::Io))
            },
        }
    }

    /// Takes the first line of a reply.
    fn push_first(&mut self, line: &str) -> (reply: Option<Result<(i32, String), FtpError>>)
        requires
            old(self)@ is None,
        ensures
            (final(self)@, reply_view(reply)) == gather(None, EventView::Line(line@)),
    {
        if !is_complete_line(line) {
            return Some(Err(FtpError::Protocol));
        }
        let code = leading_code(line);
        if closes_reply(code.as_str(), line) {
            match parse_code(code.as_str()) {
                Ok(number) => Some(Ok((number, String::from_str(line)))),
                Err(error) => Some(Err(error)),
            }
        } else {
            self.begun = true;
            self.code = code;
            self.text = String::from_str(line);
            None
        }
    }

    /// Takes a line after the first.
    fn push_further(&mut self, line: &str) -> (reply: Option<Result<(i32, String), FtpError>>)
        requires
            old(self)@ is Some,
        ensures
            (final(self)@, reply_view(reply)) == gather(old(self)@, EventView::Line(line@)),
    {
        if !is_complete_line(line) {
            self.begun = false;
            return Some(Err(FtpError::Protocol));
        }
        proof {
            reveal_strlit("\n");
            assert("\n"@ =~= seq!['\n']);
        }
        self.text.append("\n");
        self.text.append(line);
        if closes_reply(self.code.as_str(), line) {
            self.begun = false;
            let mut text = String::new();
            std::mem::swap(&mut self.text, &mut text);
            match parse_code(self.code.as_str()) {
                Ok(number) => Some(Ok((number, text))),
                Err(error) => Some(Err(error)),
            }
        } else {
            None
        }
    }
}

/// The text of a reply made of `lines`: the first line, and each further
/// line behind a line feed.
pub open spec fn joined(lines: Seq<Seq<char>>) -> Seq<char>
    decreases lines.len(),
{
    if lines.len() == 0 {
        Seq::empty()
    } else if lines.len() == 1 {
        lines[0]
    } else {
        joined(lines.drop_last()) + seq!['\n'] + lines.last()
    }
}

/// Gathering the lines of `lines` one after the other, from `open` on. Once
/// a line has ended the reply, the lines after it are not taken.
pub open spec fn gather_all(open: Option<OpenReply>, lines: Seq<Seq<char>>) -> (
    Option<OpenReply>,
    Option<Result<(int, Seq<char>), FtpError>>,
)
    decreases lines.len(),
{
    if lines.len() == 0 {
        (open, None)
    } else {
        let before = gather_all(open, lines.drop_last());
        if before.1 is Some {
            before
        } else {
            gather(before.0, EventView::Line(lines.last()))
        }
    }
}

/// A first line that is whole, opens with three digits and has a space
/// after them is a reply by itself: it gives the number of its digits and
/// its own text, and no further line is asked for.
pub proof fn single_line_reply(line: Seq<char>)
    requires
        is_complete(line),
        line.len() >= 4,
        is_code(line.take(3)),
        line[3] == ' ',
    ensures
        gather(None, EventView::Line(line)) == (
            None::<OpenReply>,
            Some(Ok::<(int, Seq<char>), FtpError>((code_value(line.take(3)), line))),
        ),
{
    assert(line.take(3).push(' ') =~= line.subrange(0, 4));
}

/// While no line closes the reply, gathering whole lines keeps it open
/// under the code of the first line, with the lines joined as its text.
proof fn open_reply_of_lines(lines: Seq<Seq<char>>)
    requires
        lines.len() >= 1,
        forall|i: int| 0 <= i < lines.len() ==> is_complete(#[trigger] lines[i]),
        forall|i: int| 0 <= i < lines.len() ==> !closes(code_text(lines[0]), #[trigger] lines[i]),
    ensures
        gather_all(None, lines) == (
            Some(OpenReply { code: code_text(lines[0]), text: joined(lines) }),
            None::<Result<(int, Seq<char>), FtpError>>,
        ),
    decreases lines.len(),
{
    let front = lines.drop_last();
    if lines.len() == 1 {
        assert(front.len() == 0);
        assert(gather_all(None, front) == (None::<OpenReply>, None::<Result<(int, Seq<char>), FtpError>>));
        assert(lines.last() == lines[0]);
    } else {
        assert(front[0] == lines[0]);
        assert forall|i: int| 0 <= i < front.len() implies is_complete(#[trigger] front[i]) by {
            assert(front[i] == lines[i]);
        }
        assert forall|i: int| 0 <= i < front.len() implies !closes(
            code_text(front[0]),
            #[trigger] front[i],
        ) by {
            assert(front[i] == lines[i]);
        }
        open_reply_of_lines(front);
        assert(lines.last() == lines[lines.len() - 1]);
    }
}

/// A reply of several lines: where every line is whole, the last line is
/// the first that begins with the leading characters of the first line and
/// a space, the reply ends exactly at that line, with the lines joined as
/// its text and the status code read from the first line.
pub proof fn reply_of_lines(lines: Seq<Seq<char>>)
    requires
        lines.len() >= 1,
        forall|i: int| 0 <= i < lines.len() ==> is_complete(#[trigger] lines[i]),
        forall|i: int|
            0 <= i < lines.len() - 1 ==> !closes(code_text(lines[0]), #[trigger] lines[i]),
        closes(code_text(lines[0]), lines.last()),
    ensures
        gather_all(None, lines) == (
            None::<OpenReply>,
            Some(close_reply(code_text(lines[0]), joined(lines))),
        ),
        gather_all(None, lines.drop_last()).1 is None,
{
    let front = lines.drop_last();
    assert(lines.last() == lines[lines.len() - 1]);
    if lines.len() == 1 {
        assert(front.len() == 0);
        assert(gather_all(None, front) == (None::<OpenReply>, None::<Result<(int, Seq<char>), FtpError>>));
    } else {
        assert(front[0] == lines[0]);
        assert forall|i: int| 0 <= i < front.len() implies is_complete(#[trigger] front[i]) by {
            assert(front[i] == lines[i]);
        }
        assert forall|i: int| 0 <= i < front.len() implies !closes(
            code_text(front[0]),
            #[trigger] front[i],
        ) by {
            assert(front[i] == lines[i]);
        }
        open_reply_of_lines(front);
    }
}

} // verus!
