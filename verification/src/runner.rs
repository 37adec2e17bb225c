//! The script runner: which shell command carries out a named subcommand on
//! each family of hosts, and how the captured output of that command reads.

use crate::text::{join, joined};
use vstd::prelude::*;
use vstd::utf8::{decode_utf8, encode_utf8, encode_utf8_decode_utf8, valid_utf8};

verus! {

/// The family of the host, which selects the shell and the runner script.
#[derive(Clone, Copy, Debug, PartialEq, Eq)]
pub enum Platform {
    /// A host of the Windows family: `cmd` runs the VBScript runner.
    Windows,
    /// Any other host, taken to be Unix-like: `sh` runs the AppleScript runner.
    Unix,
}

/// A child process to start: the program and its arguments, in order.
#[derive(Clone, Debug, PartialEq, Eq)]
pub struct Invocation {
    pub program: String,
    pub args: Vec<String>,
}

impl Platform {
    /// The shell that interprets the command line.
    pub open spec fn shell_text(self) -> Seq<char> {
        match self {
            Platform::Windows => "cmd"@,
            Platform::Unix => "sh"@,
        }
    }

    /// The shell's option that announces a command line.
    pub open spec fn switch_text(self) -> Seq<char> {
        match self {
            Platform::Windows => "/C"@,
            Platform::Unix => "-c"@,
        }
    }

    /// The script interpreter and the runner script it is pointed at.
    pub open spec fn script_text(self) -> Seq<char> {
        match self {
            Platform::Windows => "cscript scripts/run.vbs"@,
            Platform::Unix => "osascript scripts/run.scpt"@,
        }
    }

    /// The command line handed to the shell: the runner script, the
    /// subcommand's name, and the arguments joined by single spaces, each
    /// part one space after the one before. With no arguments the line ends
    /// in the space that follows the name.
    pub open spec fn command_line(self, name: Seq<char>, args: Seq<Seq<char>>) -> Seq<char> {
        self.script_text() + " "@ + name + " "@ + joined(args, " "@)
    }

    /// The platform of a host, from whether it is of the Windows family.
    pub fn select(windows: bool) -> (platform: Platform)
        ensures
            platform == (if windows {
                Platform::Windows
            } else {
                Platform::Unix
            }),
    {
        if windows {
            Platform::Windows
        } else {
            Platform::Unix
        }
    }

    /// The program to start.
    pub fn shell(self) -> (word: &'static str)
        ensures
            word@ == self.shell_text(),
    {
        match self {
            Platform::Windows => "cmd",
            Platform::Unix => "sh",
        }
    }

    /// The shell's first argument, ahead of the command line.
    pub fn switch(self) -> (word: &'static str)
        ensures
            word@ == self.switch_text(),
    {
        match self {
            Platform::Windows => "/C",
            Platform::Unix => "-c",
        }
    }

    /// The words that open the command line.
    pub fn script(self) -> (words: &'static str)
        ensures
            words@ == self.script_text(),
    {
        match self {
            Platform::Windows => "cscript scripts/run.vbs",
            Platform::Unix => "osascript scripts/run.scpt",
        }
    }

    /// The process that runs subcommand `name` with `args` on this platform:
    /// the shell, its switch, and the whole command line as one argument.
    pub fn invocation(self, name: &str, args: &Vec<&str>) -> (inv: Invocation)
        ensures
            inv.program@ == self.shell_text(),
            inv.args.deep_view() == seq![
                self.switch_text(),
                self.command_line(name@, args.deep_view()),
            ],
    {
        let mut line = String::from_str(self.script());
        line.append(" ");
        line.append(name);
        line.append(" ");
        let list = join(args, " ");
        line.append(list.as_str());
        let mut shell_args: Vec<String> = Vec::new();
        shell_args.push(String::from_str(self.switch()));
        shell_args.push(line);
        let inv = Invocation { program: String::from_str(self.shell()), args: shell_args };
        proof {
            assert(inv.args.deep_view() =~= seq![
                self.switch_text(),
                self.command_line(name@, args.deep_view()),
            ]);
        }
        inv
    }
}

/// What a finished child process left behind: the bytes it wrote to each of
/// its two output streams. Its exit code is not part of the reading.
#[derive(Clone, Debug, PartialEq, Eq)]
pub struct ProcessOutput {
    pub stdout: Vec<u8>,
    pub stderr: Vec<u8>,
}

/// The error that `String::from_utf8` hands back with the rejected bytes.
#[verifier::external_type_specification]
#[verifier::external_body]
pub struct ExFromUtf8Error(std::string::FromUtf8Error);

/// `String::from_utf8` of the standard library. It accepts exactly the byte
/// vectors that are well-formed UTF-8, and the string it then returns is
/// made of the very bytes it was given.
pub assume_specification[ String::from_utf8 ](vec: Vec<u8>) -> (res: Result<
    String,
    std::string::FromUtf8Error,
>)
    ensures
        res is Ok <==> valid_utf8(vec@),
        res matches Ok(text) ==> encode_utf8(text@) == vec@,
;

/// The text that `bytes` encode, where they are well-formed UTF-8.
pub fn decode(bytes: Vec<u8>) -> (text: Option<String>)
    ensures
        text is Some <==> valid_utf8(bytes@),
        text matches Some(t) ==> t@ == decode_utf8(bytes@),
{
    match String::from_utf8(bytes) {
        Ok(t) => {
            proof {
                encode_utf8_decode_utf8(t@);
            }
            Some(t)
        },
        Err(_) => None,
    }
}

impl ProcessOutput {
    /// A run has failed exactly when the child wrote anything to standard
    /// error, whatever it wrote to standard output.
    pub open spec fn failed(&self) -> bool {
        self.stderr@.len() > 0
    }

    /// The stream that the reading is taken from: standard error of a failed
    /// run, standard output of any other.
    pub open spec fn telling_stream(&self) -> Seq<u8> {
        if self.failed() {
            self.stderr@
        } else {
            self.stdout@
        }
    }

    /// Whether the telling stream is well-formed UTF-8. The other stream is
    /// never decoded and may hold any bytes.
    pub open spec fn decodable(&self) -> bool {
        valid_utf8(self.telling_stream())
    }

    /// The reading of a decodable output: the error text of a failed run, or
    /// the output text of a successful one.
    pub open spec fn reading(&self) -> Result<Seq<char>, Seq<char>> {
        if self.failed() {
            Err(decode_utf8(self.stderr@))
        } else {
            Ok(decode_utf8(self.stdout@))
        }
    }
}

/// The texts inside a reading.
pub open spec fn reading_view(res: Result<String, String>) -> Result<Seq<char>, Seq<char>> {
    match res {
        Ok(out) => Ok(out@),
        Err(err) => Err(err@),
    }
}

/// Reads the output of a finished run, or reports with `None` that the
/// telling stream is not text.
pub fn try_classify(output: ProcessOutput) -> (res: Option<Result<String, String>>)
    ensures
        res is Some <==> output.decodable(),
        res matches Some(r) ==> reading_view(r) == output.reading(),
{
    if output.stderr.len() > 0 {
        match decode(output.stderr) {
            Some(err) => Some(Err(err)),
            None => None,
        }
    } else {
        match decode(output.stdout) {
            Some(out) => Some(Ok(out)),
            None => None,
        }
    }
}

/// Reads the output of a finished run whose telling stream is text: a run
/// that wrote to standard error fails with that text, and any other
/// succeeds with the text of its standard output.
pub fn classify(output: ProcessOutput) -> (res: Result<String, String>)
    requires
        output.decodable(),
    ensures
        reading_view(res) == output.reading(),
        res is Err <==> output.stderr@.len() > 0,
        res matches Err(err) ==> err@ == decode_utf8(output.stderr@),
        res matches Ok(out) ==> out@ == decode_utf8(output.stdout@),
{
    if output.stderr.len() > 0 {
        let err = String::from_utf8(output.stderr).unwrap();
        proof {
            encode_utf8_decode_utf8(err@);
        }
        Err(err)
    } else {
        let out = String::from_utf8(output.stdout).unwrap();
        proof {
            encode_utf8_decode_utf8(out@);
        }
        Ok(out)
    }
}

/// A failed run reads the same whatever went to standard output: two
/// outputs that agree on a non-empty standard error are decodable together
/// and have the same reading.
pub proof fn lemma_failure_ignores_stdout(a: ProcessOutput, b: ProcessOutput)
    requires
        a.stderr@ == b.stderr@,
        a.stderr@.len() > 0,
    ensures
        a.decodable() == b.decodable(),
        a.reading() == b.reading(),
        a.reading() is Err,
{
}

/// A run that wrote nothing to standard error reads as its standard output
/// alone.
pub proof fn lemma_success_reads_stdout(a: ProcessOutput)
    requires
        a.stderr@.len() == 0,
    ensures
        a.decodable() == valid_utf8(a.stdout@),
        a.reading() == Ok::<Seq<char>, Seq<char>>(decode_utf8(a.stdout@)),
{
}

} // verus!
