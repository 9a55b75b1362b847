//! The two command lines of the login exchange.

use vstd::prelude::*;

verus! {

/// The line that names the user: `USER`, a space, the name, and the end of
/// line that the protocol asks for.
pub open spec fn user_command(username: Seq<char>) -> Seq<char> {
    seq!['U', 'S', 'E', 'R', ' '] + username + seq!['\r', '\n']
}

/// The line that carries the password: `PASS`, a space, the password, and
/// the end of line.
pub open spec fn pass_command(password: Seq<char>) -> Seq<char> {
    seq!['P', 'A', 'S', 'S', ' '] + password + seq!['\r', '\n']
}

/// Builds the command line that names the user.
pub fn user_line(username: &str) -> (line: String)
    ensures
        line@ == user_command(username@),
{
    proof {
        reveal_strlit("USER ");
        reveal_strlit("\r\n");
    }
    let mut line = String::from_str("USER ");
    assert(line@ =~= seq!['U', 'S', 'E', 'R', ' ']);
    line.append(username);
    line.append("\r\n");
    assert("\r\n"@ =~= seq!['\r', '\n']);
    line
}

/// Builds the command line that carries the password.
pub fn pass_line(password: &str) -> (line: String)
    ensures
        line@ == pass_command(password@),
{
    proof {
        reveal_strlit("PASS ");
        reveal_strlit("\r\n");
    }
    let mut line = String::from_str("PASS ");
    assert(line@ =~= seq!['P', 'A', 'S', 'S', ' ']);
    line.append(password);
    line.append("\r\n");
    assert("\r\n"@ =~= seq!['\r', '\n']);
    line
}

} // verus!
