//! The command popup: a jj command typed by the user, run as is.
use vstd::prelude::*;

use crate::strings::{chars_of, join_strings, join_with, owned, push_str, substring, views};
use crate::ui::bookmarks_tab::{entered_text, is_blank};

verus! {

/// The words of a command line as a shell splits them, or None when a
/// quote is not closed.
pub uninterp spec fn shell_words_split(line: Seq<char>) -> Option<Seq<Seq<char>>>;

/// Splits a command line into words as a Unix shell does, without
/// expansions (`shell_words::split`). Trusted: the result is the one
/// `shell_words_split` names for the line, an error (an unclosed quote)
/// given as None. The splitting rules themselves are left to the crate.
#[verifier::external_body]
fn split_words(line: &str) -> (r: Option<Vec<String>>)
    ensures
        match r {
            Some(words) => shell_words_split(line@) == Some(views(words@)),
            None => shell_words_split(line@) is None,
        },
{
    match shell_words::split(line) {
        Ok(words) => Some(words),
        Err(_) => None,
    }
}

/// `s` without the leading `"jj "`s, however many.
pub open spec fn strip_jj_prefixes(s: Seq<char>) -> Seq<char>
    decreases s.len(),
{
    if s.len() >= 3 && s[0] == 'j' && s[1] == 'j' && s[2] == ' ' {
        strip_jj_prefixes(s.subrange(3, s.len() as int))
    } else {
        s
    }
}

/// The jj arguments in a typed command: the text without a leading `jj`
/// (the text `jj` alone leaves nothing).
pub open spec fn command_text(typed: Seq<char>) -> Seq<char> {
    if typed == seq!['j', 'j'] {
        seq![]
    } else {
        strip_jj_prefixes(typed)
    }
}

/// The jj arguments in a typed command.
pub fn command_arguments(typed: &str) -> (r: String)
    ensures
        r@ == command_text(typed@),
{
    let v = chars_of(typed);
    if v.len() == 2 && v[0] == 'j' && v[1] == 'j' {
        assert(v@ =~= seq!['j', 'j']);
        return String::new();
    }
    let mut i: usize = 0;
    assert(v@.subrange(0, v@.len() as int) =~= v@);
    while v.len() - i >= 3 && v[i] == 'j' && v[i + 1] == 'j' && v[i + 2] == ' '
        invariant
            i <= v@.len(),
            v@ == typed@,
            strip_jj_prefixes(v@.subrange(i as int, v@.len() as int)) == strip_jj_prefixes(v@),
        decreases v@.len() - i,
    {
        proof {
            let rest = v@.subrange(i as int, v@.len() as int);
            assert(rest.subrange(3, rest.len() as int) =~= v@.subrange(i + 3, v@.len() as int));
        }
        i = i + 3;
    }
    proof {
        let rest = v@.subrange(i as int, v@.len() as int);
        assert(v@.subrange(0, v@.len() as int) =~= v@);
        if !(typed@ == seq!['j', 'j']) {
            assert(strip_jj_prefixes(rest) == rest);
        }
    }
    let r = substring(&v, i, v.len());
    proof {
        assert(v@.subrange(0, v@.len() as int) =~= v@);
    }
    r
}

/// What the popup does when Enter is pressed.
pub enum CommandRequest {
    /// Nothing typed: close.
    Close,
    /// Run jj with these words; `input` is what they were read from.
    Run { input: String, words: Vec<String> },
    /// A quote is not closed in `input`.
    Unsplittable { input: String },
}

/// What Enter does with the typed lines: they are joined with spaces; if
/// that is blank the popup closes, otherwise the jj arguments in it are
/// split into words as a shell does.
pub fn prepare_command(lines: &Vec<String>) -> (r: CommandRequest)
    ensures
        match r {
            CommandRequest::Close => is_blank(join_with(views(lines@), " "@)),
            CommandRequest::Run { input, words } => {
                &&& !is_blank(join_with(views(lines@), " "@))
                &&& input@ == command_text(join_with(views(lines@), " "@))
                &&& shell_words_split(input@) == Some(views(words@))
            },
            CommandRequest::Unsplittable { input } => {
                &&& !is_blank(join_with(views(lines@), " "@))
                &&& input@ == command_text(join_with(views(lines@), " "@))
                &&& shell_words_split(input@) is None
            },
        },
{
    match entered_text(lines, " ") {
        None => CommandRequest::Close,
        Some(typed) => {
            let input = command_arguments(typed.as_str());
            match split_words(input.as_str()) {
                Some(words) => CommandRequest::Run { input, words },
                None => CommandRequest::Unsplittable { input },
            }
        },
    }
}

/// What the popup shows when splitting fails.
pub const SPLIT_FAILED: &'static str = "Failed to split command input";

/// The message shown after running a typed command: its output, or a note
/// that names the command followed by a blank line and the error.
pub fn command_message(input: &str, result: Result<String, String>) -> (r: String)
    ensures
        r@ == match result {
            Ok(out) => out@,
            Err(e) => "Failed to execute jj command: jj "@ + input@ + "\n\n"@ + e@,
        },
{
    match result {
        Ok(out) => out,
        Err(e) => {
            let mut m = owned("Failed to execute jj command: jj ");
            push_str(&mut m, input);
            push_str(&mut m, "\n\n");
            push_str(&mut m, e.as_str());
            m
        },
    }
}

} // verus!
