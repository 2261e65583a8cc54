use vstd::prelude::*;
use crate::packet::same_text;

verus! {

/// What the program does for its command line.
pub enum CliAction {
    /// Run a server.
    Launch,
    /// Upload the file at `filepath` to the server at `host`; with `force`
    /// it replaces a file of that name there.
    Upload { host: String, filepath: String, force: bool },
    /// Download the file stored as `filepath` from the server at `host`.
    Download { host: String, filepath: String },
    /// Record `path` as the storage directory.
    SetStorage { path: String },
    /// The word after `storage` is not known: report it.
    InvalidStorageCommand { word: String },
    /// The command word is not known: report it.
    InvalidCommand { word: String },
    /// The command is not available on this system or in this form: the
    /// program stops.
    Unsupported,
    /// No command was given: the program stops.
    MissingCommand,
}

/// The action, in mathematical terms.
pub enum CliView {
    Launch,
    Upload { host: Seq<char>, filepath: Seq<char>, force: bool },
    Download { host: Seq<char>, filepath: Seq<char> },
    SetStorage { path: Seq<char> },
    InvalidStorageCommand { word: Seq<char> },
    InvalidCommand { word: Seq<char> },
    Unsupported,
    MissingCommand,
}

impl View for CliAction {
    type V = CliView;

    open spec fn view(&self) -> CliView {
        match self {
            CliAction::Launch => CliView::Launch,
            CliAction::Upload { host, filepath, force } => CliView::Upload {
                host: host@,
                filepath: filepath@,
                force: *force,
            },
            CliAction::Download { host, filepath } => CliView::Download {
                host: host@,
                filepath: filepath@,
            },
            CliAction::SetStorage { path } => CliView::SetStorage { path: path@ },
            CliAction::InvalidStorageCommand { word } => CliView::InvalidStorageCommand {
                word: word@,
            },
            CliAction::InvalidCommand { word } => CliView::InvalidCommand { word: word@ },
            CliAction::Unsupported => CliView::Unsupported,
            CliAction::MissingCommand => CliView::MissingCommand,
        }
    }
}

/// The argument at position `i`, or the empty text where there is none.
pub open spec fn arg_or_empty(args: Seq<String>, i: int) -> Seq<char> {
    if 0 <= i < args.len() {
        args[i]@
    } else {
        Seq::empty()
    }
}

/// Whether the client commands run on the operating system named `os`.
pub open spec fn unix_like(os: Seq<char>) -> bool {
    os == "macos"@ || os == "linux"@
}

/// The action for the arguments after the program's name, on the
/// operating system named `os`.
pub open spec fn cli_action_for(args: Seq<String>, os: Seq<char>) -> CliView {
    if args.len() == 0 {
        CliView::MissingCommand
    } else {
        let cmd = args[0]@;
        let second = arg_or_empty(args, 1);
        let third = arg_or_empty(args, 2);
        let fourth = arg_or_empty(args, 3);
        if cmd == "launch"@ {
            CliView::Launch
        } else if cmd == "upload"@ {
            if fourth == "force"@ || fourth.len() == 0 {
                if unix_like(os) {
                    CliView::Upload { host: second, filepath: third, force: fourth == "force"@ }
                } else {
                    CliView::Unsupported
                }
            } else {
                CliView::Unsupported
            }
        } else if cmd == "download"@ {
            if unix_like(os) {
                CliView::Download { host: second, filepath: third }
            } else {
                CliView::Unsupported
            }
        } else if cmd == "storage"@ {
            if second == "set"@ {
                CliView::SetStorage { path: third }
            } else {
                CliView::InvalidStorageCommand { word: second }
            }
        } else {
            CliView::InvalidCommand { word: cmd }
        }
    }
}

/// The argument at position `i`, or an empty text where there is none.
fn nth_arg(args: &Vec<String>, i: usize) -> (r: String)
    ensures
        r@ == arg_or_empty(args@, i as int),
{
    if i < args.len() {
        args[i].clone()
    } else {
        String::new()
    }
}

/// Reads the command line: `args` are the arguments after the program's
/// name, `os` names the operating system.
pub fn parse_command_line(args: &Vec<String>, os: &str) -> (a: CliAction)
    ensures
        a@ == cli_action_for(args@, os@),
{
    if args.len() == 0 {
        return CliAction::MissingCommand;
    }
    let cmd = args[0].clone();
    let second = nth_arg(args, 1);
    let third = nth_arg(args, 2);
    let fourth = nth_arg(args, 3);
    let unix = same_text(os, "macos") || same_text(os, "linux");
    if same_text(cmd.as_str(), "launch") {
        CliAction::Launch
    } else if same_text(cmd.as_str(), "upload") {
        let force = same_text(fourth.as_str(), "force");
        if force || fourth.as_str().is_empty() {
            if unix {
                CliAction::Upload { host: second, filepath: third, force }
            } else {
                CliAction::Unsupported
            }
        } else {
            CliAction::Unsupported
        }
    } else if same_text(cmd.as_str(), "download") {
        if unix {
            CliAction::Download { host: second, filepath: third }
        } else {
            CliAction::Unsupported
        }
    } else if same_text(cmd.as_str(), "storage") {
        if same_text(second.as_str(), "set") {
            CliAction::SetStorage { path: third }
        } else {
            CliAction::InvalidStorageCommand { word: second }
        }
    } else {
        CliAction::InvalidCommand { word: cmd }
    }
}

/// The name Linux goes by, letter by letter.
pub open spec fn linux_name() -> Seq<char> {
    seq!['l', 'i', 'n', 'u', 'x']
}

/// The name macOS goes by, letter by letter.
pub open spec fn macos_name() -> Seq<char> {
    seq!['m', 'a', 'c', 'o', 's']
}

proof fn lemma_words_known()
    ensures
        "linux"@ == linux_name(),
        "macos"@ == macos_name(),
        "force"@ == seq!['f', 'o', 'r', 'c', 'e'],
        "download"@ != "launch"@,
        "download"@ != "upload"@,
        "upload"@ != "launch"@,
{
    reveal_strlit("linux");
    reveal_strlit("macos");
    reveal_strlit("force");
    reveal_strlit("download");
    reveal_strlit("launch");
    reveal_strlit("upload");
    assert("linux"@ =~= linux_name());
    assert("macos"@ =~= macos_name());
    assert("force"@ =~= seq!['f', 'o', 'r', 'c', 'e']);
    assert("download"@.len() != "launch"@.len());
    assert("download"@.len() != "upload"@.len());
    assert("upload"@[0] != "launch"@[0]);
}

/// On Linux and on macOS, `download <host> <file>` downloads `file` from
/// `host`; anything after the file is ignored.
pub proof fn lemma_download_on_unix(args: Seq<String>, os: Seq<char>)
    requires
        args.len() >= 3,
        args[0]@ == "download"@,
        os == linux_name() || os == macos_name(),
    ensures
        cli_action_for(args, os) == (CliView::Download { host: args[1]@, filepath: args[2]@ }),
{
    lemma_words_known();
}

/// On any other system a download is not available.
pub proof fn lemma_download_elsewhere(args: Seq<String>, os: Seq<char>)
    requires
        args.len() >= 1,
        args[0]@ == "download"@,
        os != linux_name(),
        os != macos_name(),
    ensures
        cli_action_for(args, os) == CliView::Unsupported,
{
    lemma_words_known();
}

/// On Linux and on macOS, `upload <host> <file>` uploads `file` to `host`
/// keeping a stored file of that name, and `upload <host> <file> force`
/// replaces it: the upload is forced exactly where the fourth argument is
/// `force`.
pub proof fn lemma_upload_on_unix(args: Seq<String>, os: Seq<char>)
    requires
        args.len() >= 3,
        args[0]@ == "upload"@,
        os == linux_name() || os == macos_name(),
        args.len() == 3 || args[3]@.len() == 0 || args[3]@ == seq!['f', 'o', 'r', 'c', 'e'],
    ensures
        cli_action_for(args, os) == (CliView::Upload {
            host: args[1]@,
            filepath: args[2]@,
            force: args.len() > 3 && args[3]@ == seq!['f', 'o', 'r', 'c', 'e'],
        }),
{
    lemma_words_known();
    let fourth = arg_or_empty(args, 3);
    assert(seq!['f', 'o', 'r', 'c', 'e'].len() == 5);
    if args.len() == 3 {
        assert(fourth.len() == 0);
        assert(fourth != "force"@);
    }
}

/// The command line means the same on Linux as on macOS, whatever the
/// arguments.
pub proof fn lemma_linux_and_macos_agree(args: Seq<String>)
    ensures
        cli_action_for(args, linux_name()) == cli_action_for(args, macos_name()),
{
    lemma_words_known();
}

} // verus!
