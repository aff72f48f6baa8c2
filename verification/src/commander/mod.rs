//! Running jj: the arguments lazyjj passes, what it does with the output,
//! and the errors it reports.
use vstd::prelude::*;

use crate::env::DiffFormat;
use crate::strings::{chars_of, owned, string_from_chars, views};

pub mod bookmarks;
pub mod branches;
pub mod files;
pub mod ids;
pub mod jj;
pub mod log;
pub mod version;

verus! {

/// The arguments that set jj's output: no pager, color on or off, and
/// `--quiet` when asked for.
pub open spec fn output_args(color: bool, quiet: bool) -> Seq<Seq<char>> {
    seq!["--no-pager"@, "--color"@, if color { "always"@ } else { "never"@ }] + if quiet {
        seq!["--quiet"@]
    } else {
        seq![]
    }
}

/// The global jj options that set color and quietness of the output.
pub fn get_output_args(color: bool, quiet: bool) -> (r: Vec<String>)
    ensures
        views(r@) == output_args(color, quiet),
{
    let mut r: Vec<String> = Vec::new();
    r.push(owned("--no-pager"));
    r.push(owned("--color"));
    r.push(owned(if color { "always" } else { "never" }));
    if quiet {
        r.push(owned("--quiet"));
    }
    assert(views(r@) =~= output_args(color, quiet));
    r
}

/// `--config <entry>` for each configuration entry, in order.
pub open spec fn config_args(entries: Seq<Seq<char>>) -> Seq<Seq<char>>
    decreases entries.len(),
{
    if entries.len() == 0 {
        seq![]
    } else {
        config_args(entries.drop_last()) + seq!["--config"@, entries.last()]
    }
}

/// All the arguments of a jj call: the command's own, then the output
/// arguments (color only when asked for and not turned off), then the extra
/// configuration entries.
pub open spec fn jj_call_args(
    args: Seq<Seq<char>>,
    color: bool,
    quiet: bool,
    force_no_color: bool,
    config_toml: Option<Seq<Seq<char>>>,
) -> Seq<Seq<char>> {
    args + output_args(!force_no_color && color, quiet) + match config_toml {
        Some(entries) => config_args(entries),
        None => seq![],
    }
}

/// The arguments of a jj call (see `jj_call_args`).
pub fn jj_command_args(
    args: Vec<String>,
    color: bool,
    quiet: bool,
    force_no_color: bool,
    jj_config_toml: &Option<Vec<String>>,
) -> (r: Vec<String>)
    ensures
        views(r@) == jj_call_args(
            views(args@),
            color,
            quiet,
            force_no_color,
            match jj_config_toml {
                Some(v) => Some(views(v@)),
                None => None,
            },
        ),
{
    let mut r = args;
    let mut extra = get_output_args(!force_no_color && color, quiet);
    let ghost base = views(r@);
    r.append(&mut extra);
    assert(views(r@) =~= base + output_args(!force_no_color && color, quiet));
    let ghost with_output = views(r@);
    match jj_config_toml {
        Some(entries) => {
            let mut i: usize = 0;
            while i < entries.len()
                invariant
                    i <= entries@.len(),
                    views(r@) == with_output + config_args(views(entries@).take(i as int)),
                decreases entries@.len() - i,
            {
                let ghost before = views(r@);
                r.push(owned("--config"));
                r.push(entries[i].clone());
                proof {
                    let t = views(entries@).take(i + 1);
                    assert(t.drop_last() =~= views(entries@).take(i as int));
                    assert(views(r@) =~= before + seq!["--config"@, entries@[i as int]@]);
                }
                i = i + 1;
            }
            assert(views(entries@).take(i as int) =~= views(entries@));
        },
        None => {
            assert(views(r@) =~= with_output + Seq::<Seq<char>>::empty());
        },
    }
    r
}

/// A text without its line ending: one `'\n'` at the end, and then one
/// `'\r'` before it, are removed.
pub open spec fn end_line_removed(s: Seq<char>) -> Seq<char> {
    if s.len() > 0 && s.last() == '\n' {
        let t = s.drop_last();
        if t.len() > 0 && t.last() == '\r' {
            t.drop_last()
        } else {
            t
        }
    } else {
        s
    }
}

/// Removing the line ending of a text.
pub trait RemoveEndLine: Sized + View<V = Seq<char>> {
    fn remove_end_line(self) -> (r: Self)
        ensures
            r@ == end_line_removed(self@);
}

impl RemoveEndLine for String {
    fn remove_end_line(self) -> (r: String) {
        let mut v = chars_of(self.as_str());
        if v.len() > 0 && v[v.len() - 1] == '\n' {
            v.pop();
            if v.len() > 0 && v[v.len() - 1] == '\r' {
                v.pop();
            }
        }
        string_from_chars(v.as_slice())
    }
}

/// An error of a jj call.
#[derive(Debug)]
pub enum CommandError {
    /// jj could not be run; the reason.
    Output(String),
    /// jj exited unsuccessfully; its error output and exit code.
    Status(String, Option<i32>),
    /// jj's output was not UTF-8; the reason.
    FromUtf8(String),
}

impl CommandError {
    /// The message shown for this error.
    pub fn message(&self) -> (r: String)
        ensures
            r@ == match self {
                CommandError::Output(e) => "Error getting output: "@ + e@,
                CommandError::Status(e, _) => e@,
                CommandError::FromUtf8(e) => "Error parsing UTF-8 output: "@ + e@,
            },
    {
        match self {
            CommandError::Output(e) => {
                let mut s = owned("Error getting output: ");
                s.append(e.as_str());
                s
            },
            CommandError::Status(e, _) => e.clone(),
            CommandError::FromUtf8(e) => {
                let mut s = owned("Error parsing UTF-8 output: ");
                s.append(e.as_str());
                s
            },
        }
    }
}

/// The arguments that select a diff format.
pub open spec fn diff_format_args(f: DiffFormat) -> Seq<Seq<char>> {
    match f {
        DiffFormat::ColorWords => seq!["--color-words"@],
        DiffFormat::Git => seq!["--git"@],
        DiffFormat::Summary => seq!["--summary"@],
        DiffFormat::Stat => seq!["--stat"@],
        DiffFormat::DiffTool => seq![],
    }
}

impl DiffFormat {
    /// The arguments that select this diff format (the diff tool is the one
    /// jj is configured with, so it takes none).
    pub fn get_args(&self) -> (r: Vec<String>)
        ensures
            views(r@) == diff_format_args(*self),
    {
        let mut r: Vec<String> = Vec::new();
        match self {
            DiffFormat::ColorWords => r.push(owned("--color-words")),
            DiffFormat::Git => r.push(owned("--git")),
            DiffFormat::Summary => r.push(owned("--summary")),
            DiffFormat::Stat => r.push(owned("--stat")),
            DiffFormat::DiffTool => {},
        }
        assert(views(r@) =~= diff_format_args(*self));
        r
    }
}


/// The UTF-8 encoding of one character.
pub open spec fn utf8_of_char(c: char) -> Seq<u8> {
    let u = c as int;
    if u < 0x80 {
        seq![u as u8]
    } else if u < 0x800 {
        seq![(0xC0 + u / 64) as u8, (0x80 + u % 64) as u8]
    } else if u < 0x10000 {
        seq![(0xE0 + u / 4096) as u8, (0x80 + (u / 64) % 64) as u8, (0x80 + u % 64) as u8]
    } else {
        seq![
            (0xF0 + u / 262144) as u8,
            (0x80 + (u / 4096) % 64) as u8,
            (0x80 + (u / 64) % 64) as u8,
            (0x80 + u % 64) as u8,
        ]
    }
}

/// The UTF-8 encoding of a text.
pub open spec fn utf8_bytes(s: Seq<char>) -> Seq<u8>
    decreases s.len(),
{
    if s.len() == 0 {
        seq![]
    } else {
        utf8_bytes(s.drop_last()) + utf8_of_char(s.last())
    }
}

/// Whether some text is encoded by `bytes`.
pub open spec fn is_utf8(bytes: Seq<u8>) -> bool {
    exists|t: Seq<char>| utf8_bytes(t) == bytes
}

/// The text that `String::from_utf8_lossy` makes of `bytes`.
pub uninterp spec fn utf8_lossy(bytes: Seq<u8>) -> Seq<char>;

/// How `String::from_utf8` describes why `bytes` are not UTF-8.
pub uninterp spec fn utf8_error_text(bytes: Seq<u8>) -> Seq<char>;

/// Decodes UTF-8 (`String::from_utf8`). Trusted: as std documents, it
/// gives the text that the bytes encode, or fails when they encode none;
/// the failure is described as `utf8_error_text` names.
#[verifier::external_body]
fn decode_utf8(bytes: Vec<u8>) -> (r: Result<String, String>)
    ensures
        match r {
            Ok(s) => utf8_bytes(s@) == bytes@,
            Err(e) => !is_utf8(bytes@) && e@ == utf8_error_text(bytes@),
        },
{
    match String::from_utf8(bytes) {
        Ok(s) => Ok(s),
        Err(e) => Err(e.to_string()),
    }
}

/// Decodes UTF-8, replacing what is not (`String::from_utf8_lossy`).
/// Trusted: the text is the one `utf8_lossy` names, and, as std documents,
/// it is the encoded text itself when the bytes are UTF-8.
#[verifier::external_body]
fn decode_utf8_lossy(bytes: &Vec<u8>) -> (r: String)
    ensures
        r@ == utf8_lossy(bytes@),
        forall|t: Seq<char>| utf8_bytes(t) == bytes@ ==> r@ == t,
{
    String::from_utf8_lossy(bytes.as_slice()).to_string()
}

/// The result of a jj call that ran and exited (`success` or not, with
/// `code`) after printing `stdout` and `stderr`: its output as text, or
/// the error output and exit code if it failed, or the reason the output
/// is not UTF-8.
pub fn command_output_result(success: bool, code: Option<i32>, stdout: Vec<u8>, stderr: &Vec<u8>) -> (r: Result<String, CommandError>)
    ensures
        !success ==> (r matches Err(CommandError::Status(e, c)) && e@ == utf8_lossy(stderr@) && c == code),
        success ==> match r {
            Ok(s) => utf8_bytes(s@) == stdout@,
            Err(CommandError::FromUtf8(e)) => !is_utf8(stdout@) && e@ == utf8_error_text(stdout@),
            Err(_) => false,
        },
{
    if !success {
        return Err(CommandError::Status(decode_utf8_lossy(stderr), code));
    }
    match decode_utf8(stdout) {
        Ok(s) => Ok(s),
        Err(e) => Err(CommandError::FromUtf8(e)),
    }
}

} // verus!
