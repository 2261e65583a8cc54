use vstd::prelude::*;

verus! {

/// The position of the last `/` in a path, or -1 where there is none.
pub open spec fn last_slash(p: Seq<char>) -> int
    decreases p.len(),
{
    if p.len() == 0 {
        -1
    } else if p.last() == '/' {
        p.len() - 1
    } else {
        last_slash(p.drop_last())
    }
}

/// The last slash lies inside the path, and before its last character
/// where that character is not a slash.
pub proof fn lemma_last_slash_bounds(p: Seq<char>)
    ensures
        -1 <= last_slash(p) < p.len(),
        p.len() > 0 && p.last() != '/' ==> last_slash(p) < p.len() - 1,
    decreases p.len(),
{
    if p.len() > 0 && p.last() != '/' {
        lemma_last_slash_bounds(p.drop_last());
    }
}

/// The last component of a Unix path that is neither empty nor `.`: the
/// path is split at each `/`, empty pieces (repeated or trailing slashes)
/// and `.` pieces are dropped, and the last piece left is taken. There is
/// none where no piece is left.
pub open spec fn last_component(p: Seq<char>) -> Option<Seq<char>>
    decreases p.len(),
{
    if p.len() == 0 {
        None
    } else if p.last() == '/' {
        last_component(p.drop_last())
    } else {
        proof {
            lemma_last_slash_bounds(p);
        }
        let start = last_slash(p) + 1;
        let piece = p.subrange(start, p.len() as int);
        if piece == seq!['.'] {
            last_component(p.subrange(0, start))
        } else {
            Some(piece)
        }
    }
}

/// What `std::path::Path::file_name` gives for a Unix path: its last
/// component, unless there is none (the path is empty, a root, or `.`) or
/// that component is `..`.
pub open spec fn path_file_name(path: Seq<char>) -> Option<Seq<char>> {
    match last_component(path) {
        Some(c) => if c == seq!['.', '.'] {
            None
        } else {
            Some(c)
        },
        None => None,
    }
}

/// Calls `std::path::Path::file_name` on the path and turns the component
/// it returns into a `String`. By the documentation of `Path::components`
/// and `Path::file_name`, repeated and trailing separators and `.` pieces
/// (other than a leading one, which is no file name either) are normalized
/// away, and the final component is the file name unless it is a root, `.`
/// or `..`. The component is a piece of a `&str`, so the conversion loses
/// nothing. The contract claims exactly that result.
#[verifier::external_body]
fn final_component(path: &str) -> (r: Option<String>)
    ensures
        r matches Some(name) ==> path_file_name(path@) == Some(name@),
        r is None ==> path_file_name(path@) is None,
{
    std::path::Path::new(path).file_name().map(|n| n.to_string_lossy().into_owned())
}

/// The name under which the file at `filepath` is uploaded: the last
/// component of its path. There is none where the path has no final
/// component (it is empty, a root or `.`, or ends in `..`).
pub fn upload_file_name(filepath: &str) -> (r: Option<String>)
    ensures
        r matches Some(name) ==> path_file_name(filepath@) == Some(name@),
        r is None ==> path_file_name(filepath@) is None,
{
    final_component(filepath)
}

/// Why looking for a running server gave no answer.
pub enum DetectError {
    /// The search is not written yet.
    NotImplemented,
}

/// A stub for looking for a running server on the network: the search is
/// not written, so no call ever finds one. Every call answers
/// `NotImplemented`, and the caller must stop the program on that answer,
/// as nothing can go on as though a server had been found; the library
/// itself never stops the program.
pub fn detect_soi_instance() -> (r: Result<(), DetectError>)
    ensures
        r == Err::<(), DetectError>(DetectError::NotImplemented),
{
    Err(DetectError::NotImplemented)
}

// ------------------------------------------------------------------
// Reconnecting after a failed connection.
// ------------------------------------------------------------------

/// How many failed connections a client retries after.
pub const RETRY_COUNT: u8 = 5;

/// How long a client waits before it connects again, in seconds.
pub const RETRY_DELAY_SECS: u64 = 3;

/// What a client does after a connection failed.
pub enum Reconnect {
    /// Stop trying.
    GiveUp,
    /// Wait `delay_secs` seconds, then connect again as attempt `attempts`.
    Retry { delay_secs: u64, attempts: u8 },
}

/// The decision after the connection numbered `attempts` failed.
pub open spec fn reconnect_after(attempts: u8) -> Reconnect {
    if attempts >= RETRY_COUNT {
        Reconnect::GiveUp
    } else {
        Reconnect::Retry { delay_secs: RETRY_DELAY_SECS, attempts: (attempts + 1) as u8 }
    }
}

/// Decides what to do after the connection numbered `attempts` failed.
pub fn after_failed_connect(attempts: u8) -> (r: Reconnect)
    ensures
        r == reconnect_after(attempts),
{
    if attempts >= RETRY_COUNT {
        Reconnect::GiveUp
    } else {
        Reconnect::Retry { delay_secs: RETRY_DELAY_SECS, attempts: attempts + 1 }
    }
}

/// How many times a client connects again, following the decisions from
/// a failed connection numbered `attempts`, before it gives up.
pub open spec fn retries_from(attempts: u8) -> nat
    decreases 256 - attempts,
{
    match reconnect_after(attempts) {
        Reconnect::GiveUp => 0,
        Reconnect::Retry { attempts: next, .. } => 1 + retries_from(next),
    }
}

/// A client that keeps failing to connect gives up: from a failed
/// connection numbered `attempts` it retries `RETRY_COUNT - attempts`
/// times (none once that many have been made), so never more than
/// `RETRY_COUNT` times.
pub proof fn lemma_retries_bounded(attempts: u8)
    ensures
        retries_from(attempts) == (if attempts < RETRY_COUNT { RETRY_COUNT - attempts } else { 0 }),
        retries_from(attempts) <= RETRY_COUNT,
    decreases 256 - attempts,
{
    if attempts < RETRY_COUNT {
        lemma_retries_bounded((attempts + 1) as u8);
    }
}

} // verus!
