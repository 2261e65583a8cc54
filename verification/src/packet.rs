use vstd::prelude::*;

verus! {

/// A request as it travels between client and server: a command word, the
/// name of the file it is about, the file's bytes and their count.
pub struct Packet {
    pub command: String,
    pub filename: String,
    pub data: Vec<u8>,
    pub size: usize,
}

/// The mathematical content of a [`Packet`].
pub struct PacketView {
    pub command: Seq<char>,
    pub filename: Seq<char>,
    pub data: Seq<u8>,
    pub size: usize,
}

impl View for Packet {
    type V = PacketView;

    open spec fn view(&self) -> PacketView {
        PacketView {
            command: self.command@,
            filename: self.filename@,
            data: self.data@,
            size: self.size,
        }
    }
}

/// A file as the service holds it: its name, its bytes and their count.
pub struct Object {
    pub filename: String,
    pub data: Vec<u8>,
    pub size: usize,
}

/// The command word of an upload that keeps a file already stored.
pub open spec fn upload_word() -> Seq<char> {
    "upload"@
}

/// The command word of an upload that replaces a file already stored.
pub open spec fn upload_force_word() -> Seq<char> {
    "upload--force"@
}

/// The command word of a download request.
pub open spec fn download_word() -> Seq<char> {
    "download"@
}

/// What a server does with a command word.
pub enum Command {
    UploadForce,
    Upload,
    Download,
    Unknown,
}

/// The command that a word names.
pub open spec fn command_of(word: Seq<char>) -> Command {
    if word == upload_force_word() {
        Command::UploadForce
    } else if word == upload_word() {
        Command::Upload
    } else if word == download_word() {
        Command::Download
    } else {
        Command::Unknown
    }
}

/// Whether two texts are the same.
pub fn same_text(a: &str, b: &str) -> (r: bool)
    ensures
        r == (a@ == b@),
{
    a.to_owned() == b.to_owned()
}

/// Reads the command word of a packet.
pub fn classify(word: &str) -> (c: Command)
    ensures
        c == command_of(word@),
{
    if same_text(word, "upload--force") {
        Command::UploadForce
    } else if same_text(word, "upload") {
        Command::Upload
    } else if same_text(word, "download") {
        Command::Download
    } else {
        Command::Unknown
    }
}

/// The bytes that a download request carries in place of file contents.
pub open spec fn download_filler() -> Seq<u8> {
    seq![0u8, 1u8]
}

/// The upload request for `data` under `filename`.
pub open spec fn upload_view(filename: Seq<char>, data: Seq<u8>, force: bool) -> PacketView {
    PacketView {
        command: if force { upload_force_word() } else { upload_word() },
        filename,
        data,
        size: data.len() as usize,
    }
}

/// The download request for the file stored under `filename`.
pub open spec fn download_view(filename: Seq<char>) -> PacketView {
    PacketView { command: download_word(), filename, data: download_filler(), size: 0 }
}

impl Packet {
    /// An upload of `data` under `filename`; with `force` it replaces a file
    /// of that name on the server, without it such a file is kept.
    pub fn upload(filename: String, data: Vec<u8>, force: bool) -> (p: Packet)
        ensures
            p@ == upload_view(filename@, data@, force),
    {
        let size = data.len();
        let command = if force { "upload--force".to_owned() } else { "upload".to_owned() };
        Packet { command, filename, data, size }
    }

    /// A request for the file stored under `filename`.
    pub fn download(filename: String) -> (p: Packet)
        ensures
            p@ == download_view(filename@),
    {
        let mut data: Vec<u8> = Vec::new();
        data.push(0u8);
        data.push(1u8);
        assert(data@ =~= download_filler());
        Packet { command: "download".to_owned(), filename, data, size: 0 }
    }
}

} // verus!
