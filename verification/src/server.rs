use vstd::prelude::*;
use crate::codec::{decode_packet, fits_wire, lemma_wire_roundtrip, packet_from_wire, packet_wire};
use crate::packet::{
    classify, command_of, download_view, download_word, upload_force_word, upload_view, upload_word,
    Command, Packet, PacketView,
};

verus! {

/// The number of bytes a server reads from a connection at a time; each
/// read is decoded as one request.
pub const READ_BUFFER_LEN: usize = 1024;

/// A running server instance.
pub struct Soi {}

/// Makes a server instance.
pub fn build() -> (r: Result<Soi, ()>)
    ensures
        r is Ok,
{
    Ok(Soi {})
}

/// The place in storage where a file of the given name is kept: the
/// storage prefix followed by the name.
pub open spec fn stored_path(storage: Seq<char>, filename: Seq<char>) -> Seq<char> {
    storage + filename
}

/// What a server does for one decoded request.
pub enum ServerAction {
    /// Write `data` to `path`, replacing what is there.
    Overwrite { path: String, data: Vec<u8> },
    /// Write `data` to `path` unless a file is there already.
    StoreIfAbsent { path: String, data: Vec<u8> },
    /// Send the contents of the file at `path` back to the client.
    Send { path: String },
    /// The command word is not known; nothing is done.
    Unknown { command: String },
}

/// The action, in mathematical terms.
pub enum ActionView {
    Overwrite { path: Seq<char>, data: Seq<u8> },
    StoreIfAbsent { path: Seq<char>, data: Seq<u8> },
    Send { path: Seq<char> },
    Unknown { command: Seq<char> },
}

impl View for ServerAction {
    type V = ActionView;

    open spec fn view(&self) -> ActionView {
        match self {
            ServerAction::Overwrite { path, data } => ActionView::Overwrite { path: path@, data: data@ },
            ServerAction::StoreIfAbsent { path, data } => ActionView::StoreIfAbsent {
                path: path@,
                data: data@,
            },
            ServerAction::Send { path } => ActionView::Send { path: path@ },
            ServerAction::Unknown { command } => ActionView::Unknown { command: command@ },
        }
    }
}

/// The action that a request calls for, with files kept under `storage`.
pub open spec fn action_for(storage: Seq<char>, p: PacketView) -> ActionView {
    let path = stored_path(storage, p.filename);
    match command_of(p.command) {
        Command::UploadForce => ActionView::Overwrite { path, data: p.data },
        Command::Upload => ActionView::StoreIfAbsent { path, data: p.data },
        Command::Download => ActionView::Send { path },
        Command::Unknown => ActionView::Unknown { command: p.command },
    }
}

/// Decides what to do for a request.
pub fn plan_request(storage: &str, packet: Packet) -> (a: ServerAction)
    ensures
        a@ == action_for(storage@, packet@),
{
    let path = storage.to_owned().concat(packet.filename.as_str());
    match classify(packet.command.as_str()) {
        Command::UploadForce => ServerAction::Overwrite { path, data: packet.data },
        Command::Upload => ServerAction::StoreIfAbsent { path, data: packet.data },
        Command::Download => ServerAction::Send { path },
        Command::Unknown => ServerAction::Unknown { command: packet.command },
    }
}

/// Whether the action writes its data now, given whether a file is already
/// stored at its path: a forced upload always writes, a plain upload writes
/// only where no file is, and the other actions write nothing.
pub fn writes_file(action: &ServerAction, target_exists: bool) -> (w: bool)
    ensures
        w == match action@ {
            ActionView::Overwrite { .. } => true,
            ActionView::StoreIfAbsent { .. } => !target_exists,
            _ => false,
        },
{
    match action {
        ServerAction::Overwrite { .. } => true,
        ServerAction::StoreIfAbsent { .. } => !target_exists,
        _ => false,
    }
}

/// What a server does after one read from a client connection.
pub enum StreamStep {
    /// The connection is closed or failed: stop serving it.
    Stop,
    /// The bytes read are not a request: report it and read on.
    Reject,
    /// A request arrived: carry out `action` and read on.
    Handle { filename: String, size: usize, action: ServerAction },
}

/// The step, in mathematical terms.
pub enum StepView {
    Stop,
    Reject,
    Handle { filename: Seq<char>, size: usize, action: ActionView },
}

impl View for StreamStep {
    type V = StepView;

    open spec fn view(&self) -> StepView {
        match self {
            StreamStep::Stop => StepView::Stop,
            StreamStep::Reject => StepView::Reject,
            StreamStep::Handle { filename, size, action } => StepView::Handle {
                filename: filename@,
                size: *size,
                action: action@,
            },
        }
    }
}

/// The step after a read that gave `read` (the count of bytes read, or
/// `None` where the read failed) into the buffer `buf`. A read of no bytes
/// means the client closed the connection. Otherwise the whole buffer is
/// decoded, whatever the count.
pub open spec fn step_for(storage: Seq<char>, read: Option<usize>, buf: Seq<u8>) -> StepView {
    match read {
        None => StepView::Stop,
        Some(n) => if n == 0 {
            StepView::Stop
        } else {
            match packet_from_wire(buf) {
                None => StepView::Reject,
                Some(p) => StepView::Handle {
                    filename: p.filename,
                    size: p.size,
                    action: action_for(storage, p),
                },
            }
        },
    }
}

/// Decides the next step for a client connection after a read.
pub fn on_read(storage: &str, read: Option<usize>, buf: &[u8]) -> (s: StreamStep)
    ensures
        s@ == step_for(storage@, read, buf@),
{
    match read {
        None => StreamStep::Stop,
        Some(n) => {
            if n == 0 {
                StreamStep::Stop
            } else {
                match decode_packet(buf) {
                    None => StreamStep::Reject,
                    Some(packet) => {
                        let filename = packet.filename.clone();
                        let size = packet.size;
                        let action = plan_request(storage, packet);
                        StreamStep::Handle { filename, size, action }
                    },
                }
            }
        },
    }
}

/// A request that a client encoded reaches the server's decision intact:
/// once the buffer read holds its encoding (followed by any bytes), the
/// server handles that request, with the action that its command calls for.
pub proof fn lemma_encoded_request_is_handled(
    storage: Seq<char>,
    p: PacketView,
    rest: Seq<u8>,
    n: usize,
)
    requires
        fits_wire(p),
        n > 0,
    ensures
        step_for(storage, Some(n), packet_wire(p) + rest) == (StepView::Handle {
            filename: p.filename,
            size: p.size,
            action: action_for(storage, p),
        }),
{
    lemma_wire_roundtrip(p, rest);
}

/// The three command words are different from one another.
pub proof fn lemma_command_words_distinct()
    ensures
        upload_word() != upload_force_word(),
        upload_word() != download_word(),
        upload_force_word() != download_word(),
{
    reveal_strlit("upload");
    reveal_strlit("upload--force");
    reveal_strlit("download");
    assert(upload_word().len() != upload_force_word().len());
    assert(upload_word()[0] != download_word()[0]);
    assert(upload_force_word()[0] != download_word()[0]);
}

/// Each command word is served as it says: a forced upload overwrites the
/// stored file, a plain upload stores only where no file is, a download
/// sends the stored file back; any other word is unknown.
pub proof fn lemma_commands_served(storage: Seq<char>, p: PacketView)
    ensures
        p.command == upload_force_word() ==> action_for(storage, p) == (ActionView::Overwrite {
            path: storage + p.filename,
            data: p.data,
        }),
        p.command == upload_word() ==> action_for(storage, p) == (ActionView::StoreIfAbsent {
            path: storage + p.filename,
            data: p.data,
        }),
        p.command == download_word() ==> action_for(storage, p) == (ActionView::Send {
            path: storage + p.filename,
        }),
        (p.command != upload_force_word() && p.command != upload_word() && p.command
            != download_word()) ==> action_for(storage, p) == (ActionView::Unknown {
            command: p.command,
        }),
{
    lemma_command_words_distinct();
}

/// An upload that a client sends reaches storage: the server that reads
/// its encoding writes the data under the storage prefix followed by the
/// file's name, replacing a stored file only for a forced upload.
pub proof fn lemma_upload_reaches_storage(
    storage: Seq<char>,
    filename: Seq<char>,
    data: Seq<u8>,
    force: bool,
    rest: Seq<u8>,
    n: usize,
)
    requires
        fits_wire(upload_view(filename, data, force)),
        n > 0,
    ensures
        step_for(storage, Some(n), packet_wire(upload_view(filename, data, force)) + rest) == (
        StepView::Handle {
            filename,
            size: data.len() as usize,
            action: if force {
                ActionView::Overwrite { path: storage + filename, data }
            } else {
                ActionView::StoreIfAbsent { path: storage + filename, data }
            },
        }),
{
    let p = upload_view(filename, data, force);
    lemma_encoded_request_is_handled(storage, p, rest, n);
    lemma_commands_served(storage, p);
}

/// A download request that a client sends makes the server send back the
/// file stored under the storage prefix followed by the requested name.
pub proof fn lemma_download_reaches_storage(
    storage: Seq<char>,
    filename: Seq<char>,
    rest: Seq<u8>,
    n: usize,
)
    requires
        fits_wire(download_view(filename)),
        n > 0,
    ensures
        step_for(storage, Some(n), packet_wire(download_view(filename)) + rest) == (
        StepView::Handle {
            filename,
            size: 0,
            action: ActionView::Send { path: storage + filename },
        }),
{
    let p = download_view(filename);
    lemma_encoded_request_is_handled(storage, p, rest, n);
    lemma_commands_served(storage, p);
}

} // verus!
