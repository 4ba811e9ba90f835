//! The console programs that the tray runs, and what it reads from them.
use crate::paths::CLASHTUI_EXE;
use crate::text;
use vstd::prelude::*;
use vstd::string::*;
use vstd::utf8::*;

verus! {

/// The creation flag under which a console program gets no window.
pub const CREATE_NO_WINDOW: u32 = 0x08000000;

/// The address of the web dashboard.
pub const WEB_URL: &'static str = "http://127.0.0.1:9090/ui/";

/// A program, its arguments and the creation flags to start it with.
pub struct CommandLine {
    pub program: String,
    pub args: Vec<String>,
    pub creation_flags: u32,
}

/// A command line as it is spelled.
pub struct CommandText {
    pub program: Seq<char>,
    pub args: Seq<Seq<char>>,
    pub creation_flags: u32,
}

impl View for CommandLine {
    type V = CommandText;

    open spec fn view(&self) -> CommandText {
        CommandText {
            program: self.program@,
            args: self.args@.map_values(|arg: String| arg@),
            creation_flags: self.creation_flags,
        }
    }
}

/// The command that has the shell open `target` in a window of its own.
pub open spec fn start_text(target: Seq<char>) -> CommandText {
    CommandText {
        program: "cmd"@,
        args: seq!["/c"@, "start"@, ""@, target],
        creation_flags: CREATE_NO_WINDOW,
    }
}

/// The command that launches the clashtui at `path`. The tray has no console, so the program goes
/// through `start` to get a terminal window of its own.
pub fn launch_clashtui(path: &str) -> (command: CommandLine)
    ensures
        command@ == start_text(path@),
{
    start_command(path)
}

/// The command that opens the web dashboard in the browser.
pub fn open_web() -> (command: CommandLine)
    ensures
        command@ == start_text(WEB_URL@),
{
    start_command(WEB_URL)
}

fn start_command(target: &str) -> (command: CommandLine)
    ensures
        command@ == start_text(target@),
{
    let mut args: Vec<String> = Vec::new();
    args.push(String::from_str("/c"));
    args.push(String::from_str("start"));
    args.push(String::from_str(""));
    args.push(String::from_str(target));
    let command = CommandLine {
        program: String::from_str("cmd"),
        args,
        creation_flags: CREATE_NO_WINDOW,
    };
    assert(command@.args =~= start_text(target@).args);
    command
}

/// The command that lists the running processes called `clashtui.exe`.
pub fn list_clashtui() -> (command: CommandLine)
    ensures
        command@ == (CommandText {
            program: "tasklist"@,
            args: seq!["/FI"@, "IMAGENAME eq clashtui.exe"@, "/NH"@],
            creation_flags: CREATE_NO_WINDOW,
        }),
{
    let mut args: Vec<String> = Vec::new();
    args.push(String::from_str("/FI"));
    args.push(String::from_str("IMAGENAME eq clashtui.exe"));
    args.push(String::from_str("/NH"));
    let command = CommandLine {
        program: String::from_str("tasklist"),
        args,
        creation_flags: CREATE_NO_WINDOW,
    };
    assert(command@.args =~= seq!["/FI"@, "IMAGENAME eq clashtui.exe"@, "/NH"@]);
    command
}

/// The command that stops every running clashtui process.
pub fn stop_clashtui() -> (command: CommandLine)
    ensures
        command@ == (CommandText {
            program: "taskkill"@,
            args: seq!["/IM"@, CLASHTUI_EXE@, "/F"@],
            creation_flags: CREATE_NO_WINDOW,
        }),
{
    let mut args: Vec<String> = Vec::new();
    args.push(String::from_str("/IM"));
    args.push(String::from_str(CLASHTUI_EXE));
    args.push(String::from_str("/F"));
    let command = CommandLine {
        program: String::from_str("taskkill"),
        args,
        creation_flags: CREATE_NO_WINDOW,
    };
    assert(command@.args =~= seq!["/IM"@, CLASHTUI_EXE@, "/F"@]);
    command
}

/// What clashtui is asked to do with the service of the core.
#[derive(Clone, Copy, PartialEq, Eq, Structural, Debug)]
pub enum ServiceVerb {
    Restart,
    Stop,
}

/// The command that has the clashtui at `path` restart or stop the core.
pub fn core_service(path: &str, verb: ServiceVerb) -> (command: CommandLine)
    ensures
        command@ == (CommandText {
            program: path@,
            args: seq![
                "service"@,
                match verb {
                    ServiceVerb::Restart => "restart"@,
                    ServiceVerb::Stop => "stop"@,
                },
            ],
            creation_flags: CREATE_NO_WINDOW,
        }),
{
    let word: &'static str = match verb {
        ServiceVerb::Restart => "restart",
        ServiceVerb::Stop => "stop",
    };
    let mut args: Vec<String> = Vec::new();
    args.push(String::from_str("service"));
    args.push(String::from_str(word));
    let command = CommandLine {
        program: String::from_str(path),
        args,
        creation_flags: CREATE_NO_WINDOW,
    };
    assert(command@.args =~= seq!["service"@, word@]);
    command
}

/// Whether what the process list printed holds `clashtui.exe` once it is decoded and lowered by std.
pub open spec fn decoded_names_clashtui(stdout: Seq<u8>) -> bool {
    text::occurs_in(CLASHTUI_EXE@, text::lowercase(text::utf8_lossy(stdout)))
}

/// Whether what the process list printed names `clashtui.exe`, in any mixture of case. Of plain ASCII
/// output it is said in full what that means: the name stands in it, each letter as a capital or a small one.
pub open spec fn listing_names_clashtui(stdout: Seq<u8>) -> bool {
    if is_ascii_bytes(stdout) {
        text::occurs_in(
            CLASHTUI_EXE@,
            ascii_text(stdout).map_values(|c: char| text::ascii_lower(c)),
        )
    } else {
        decoded_names_clashtui(stdout)
    }
}

/// Whether clashtui is running, from what the process list printed; a list that could not be had
/// counts as empty.
pub fn clashtui_running(stdout: Option<&[u8]>) -> (running: bool)
    ensures
        running == (stdout matches Some(bytes) && decoded_names_clashtui(bytes@)),
        running == (stdout matches Some(bytes) && listing_names_clashtui(bytes@)),
        // on plain ASCII output, the name is found whatever its case
        stdout matches Some(bytes) ==> (is_ascii_bytes(bytes@) ==> running == text::occurs_in(
            CLASHTUI_EXE@,
            ascii_text(bytes@).map_values(|c: char| text::ascii_lower(c)),
        )),
{
    match stdout {
        Some(bytes) => {
            let listing: String = text::decode_lossy(bytes);
            let lower: String = text::to_lower(listing.as_str());
            proof {
                if is_ascii_bytes(bytes@) {
                    lemma_ascii_decodes(bytes@);
                }
            }
            text::contains_text(lower.as_str(), CLASHTUI_EXE)
        },
        None => false,
    }
}

/// Whether every byte is an ASCII code.
pub open spec fn is_ascii_bytes(bytes: Seq<u8>) -> bool {
    forall|i: int| 0 <= i < bytes.len() ==> #[trigger] bytes[i] < 128
}

/// The characters of ASCII codes.
pub open spec fn ascii_text(bytes: Seq<u8>) -> Seq<char> {
    bytes.map_values(|b: u8| b as char)
}

proof fn lemma_ascii_decodes(bytes: Seq<u8>)
    requires
        is_ascii_bytes(bytes),
    ensures
        valid_utf8(bytes),
        decode_utf8(bytes) == ascii_text(bytes),
        is_ascii_chars(decode_utf8(bytes)),
{
    let chars: Seq<char> = ascii_text(bytes);
    assert(is_ascii_chars(chars));
    is_ascii_chars_encode_utf8(chars);
    assert(encode_utf8(chars) =~= bytes);
    encode_utf8_valid_utf8(chars);
    encode_utf8_decode_utf8(chars);
}

} // verus!
