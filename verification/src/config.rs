use vstd::prelude::*;
use crate::cli::{linux_name, macos_name};

verus! {

/// Where the configuration file of `user` is on the operating system named
/// `os`; there is no place for it on systems other than Linux and macOS.
pub open spec fn config_path_for(os: Seq<char>, user: Seq<char>) -> Option<Seq<char>> {
    if os == "linux"@ {
        Some("/home/"@ + user + "/.config/soiconfig"@)
    } else if os == "macos"@ {
        Some("/Users/"@ + user + "/.config/soiconfig"@)
    } else {
        None
    }
}

/// The path of the configuration file that names the storage directory.
pub fn config_file_path(os: &str, username: &str) -> (r: Option<String>)
    ensures
        r matches Some(p) ==> config_path_for(os@, username@) == Some(p@),
        r is None ==> config_path_for(os@, username@) is None,
{
    if crate::packet::same_text(os, "linux") {
        Some("/home/".to_owned().concat(username).concat("/.config/soiconfig"))
    } else if crate::packet::same_text(os, "macos") {
        Some("/Users/".to_owned().concat(username).concat("/.config/soiconfig"))
    } else {
        None
    }
}

/// The line feed byte.
pub open spec fn lf() -> u8 {
    10u8
}

/// The carriage return byte.
pub open spec fn cr() -> u8 {
    13u8
}

/// The position of the first line feed at or after `i`, or the length of
/// `b` where there is none.
pub open spec fn line_end_from(b: Seq<u8>, i: int) -> int
    decreases b.len() - i,
{
    if i >= b.len() {
        b.len() as int
    } else if b[i] == lf() {
        i
    } else {
        line_end_from(b, i + 1)
    }
}

/// The first line of a text: the bytes before the first line feed, without
/// the carriage return that ends them where the line feed follows one; or
/// all the bytes where there is no line feed. An empty text has no line.
pub open spec fn first_line_of(b: Seq<u8>) -> Option<Seq<u8>> {
    if b.len() == 0 {
        None
    } else {
        let end = line_end_from(b, 0);
        let line = b.subrange(0, end);
        if end < b.len() && line.len() > 0 && line.last() == cr() {
            Some(line.drop_last())
        } else {
            Some(line)
        }
    }
}

proof fn lemma_line_end_bounds(b: Seq<u8>, i: int)
    requires
        0 <= i <= b.len(),
    ensures
        i <= line_end_from(b, i) <= b.len(),
        line_end_from(b, i) < b.len() ==> b[line_end_from(b, i)] == lf(),
        forall|j: int| i <= j < line_end_from(b, i) ==> b[j] != lf(),
    decreases b.len() - i,
{
    if i < b.len() && b[i] != lf() {
        lemma_line_end_bounds(b, i + 1);
    }
}

/// The first line of the configuration file, which names the storage
/// directory.
pub fn first_line(config: &[u8]) -> (r: Option<Vec<u8>>)
    ensures
        r matches Some(l) ==> first_line_of(config@) == Some(l@),
        r is None ==> first_line_of(config@) is None,
{
    if config.len() == 0 {
        return None;
    }
    let mut line: Vec<u8> = Vec::new();
    let mut i: usize = 0;
    while i < config.len() && config[i] != 10u8
        invariant
            0 <= i <= config@.len(),
            line@ == config@.subrange(0, i as int),
            line_end_from(config@, i as int) == line_end_from(config@, 0),
        decreases config@.len() - i,
    {
        line.push(config[i]);
        i = i + 1;
        assert(line@ =~= config@.subrange(0, i as int));
    }
    assert(line_end_from(config@, i as int) == i);
    if i < config.len() && line.len() > 0 && line[line.len() - 1] == 13u8 {
        line.pop();
        assert(line@ =~= config@.subrange(0, i as int).drop_last());
    }
    Some(line)
}

/// The first line holds no line feed, and it is a prefix of the text.
pub proof fn lemma_first_line_has_no_break(b: Seq<u8>)
    ensures
        first_line_of(b) matches Some(l) ==> {
            &&& l.len() <= b.len()
            &&& l =~= b.subrange(0, l.len() as int)
            &&& forall|j: int| 0 <= j < l.len() ==> l[j] != lf()
        },
{
    lemma_line_end_bounds(b, 0);
}

/// What a storage setting writes is what reading the configuration gives
/// back: a file holding a non-empty path with no line feed has that path as
/// its first line, and so does a file where a line feed follows such a path
/// that does not end with a carriage return.
pub proof fn lemma_storage_setting_read_back(path: Seq<u8>, rest: Seq<u8>)
    requires
        path.len() > 0,
        forall|j: int| 0 <= j < path.len() ==> path[j] != lf(),
    ensures
        first_line_of(path) == Some(path),
        path.last() != cr() ==> first_line_of(path + seq![lf()] + rest) == Some(path),
{
    lemma_line_end_at(path, 0, path.len() as int);
    let b = path + seq![lf()] + rest;
    assert forall|j: int| 0 <= j < path.len() implies b[j] != lf() by {
        assert(b[j] == path[j]);
    }
    assert(b[path.len() as int] == lf());
    lemma_line_end_at(b, 0, path.len() as int);
    assert(b.subrange(0, path.len() as int) =~= path);
}

proof fn lemma_line_end_at(b: Seq<u8>, i: int, n: int)
    requires
        0 <= i <= n <= b.len(),
        forall|j: int| i <= j < n ==> b[j] != lf(),
        n == b.len() || b[n] == lf(),
    ensures
        line_end_from(b, i) == n,
    decreases n - i,
{
    if i < n {
        lemma_line_end_at(b, i + 1, n);
    }
}

/// `/home/`, letter by letter.
pub open spec fn linux_home_root() -> Seq<char> {
    seq!['/', 'h', 'o', 'm', 'e', '/']
}

/// `/Users/`, letter by letter.
pub open spec fn macos_home_root() -> Seq<char> {
    seq!['/', 'U', 's', 'e', 'r', 's', '/']
}

/// `/.config/soiconfig`, letter by letter.
pub open spec fn config_in_home() -> Seq<char> {
    seq!['/', '.', 'c', 'o', 'n', 'f', 'i', 'g', '/', 's', 'o', 'i', 'c', 'o', 'n', 'f', 'i', 'g']
}

/// The configuration file of any user lies in that user's home directory,
/// at `.config/soiconfig`: on Linux under `/home/`, on macOS under
/// `/Users/`, with the user name in between whatever its length; other
/// systems have none.
pub proof fn lemma_config_path_in_home(os: Seq<char>, user: Seq<char>)
    ensures
        os == linux_name() ==> config_path_for(os, user) == Some(
            linux_home_root() + user + config_in_home(),
        ),
        os == macos_name() ==> config_path_for(os, user) == Some(
            macos_home_root() + user + config_in_home(),
        ),
        os != linux_name() && os != macos_name() ==> config_path_for(os, user) is None,
{
    reveal_strlit("linux");
    reveal_strlit("macos");
    reveal_strlit("/home/");
    reveal_strlit("/Users/");
    reveal_strlit("/.config/soiconfig");
    assert("linux"@ =~= linux_name());
    assert("macos"@ =~= macos_name());
    assert("/home/"@ =~= linux_home_root());
    assert("/Users/"@ =~= macos_home_root());
    assert("/.config/soiconfig"@ =~= config_in_home());
}

/// A line that ends in a carriage return and a line feed is read without
/// either: for any text `p` with no line feed that does not end in a
/// carriage return (the empty text too), and whatever follows, the first
/// line of `p` followed by CR LF is `p`, as is the first line of `p`
/// followed by LF alone.
pub proof fn lemma_line_end_stripped(p: Seq<u8>, rest: Seq<u8>)
    requires
        forall|j: int| 0 <= j < p.len() ==> p[j] != 10u8,
        p.len() == 0 || p.last() != 13u8,
    ensures
        first_line_of(p + seq![13u8, 10u8] + rest) == Some(p),
        first_line_of(p + seq![10u8] + rest) == Some(p),
{
    let b = p + seq![13u8, 10u8] + rest;
    let n: int = p.len() as int;
    assert forall|j: int| 0 <= j < n + 1 implies b[j] != lf() by {
        if j < p.len() {
            assert(b[j] == p[j]);
        } else {
            assert(b[j] == 13u8);
        }
    }
    assert(b[n + 1] == lf());
    lemma_line_end_at(b, 0, n + 1);
    assert(b.subrange(0, n + 1).drop_last() =~= p);
    assert(b.subrange(0, n + 1).last() == cr());
    let c = p + seq![10u8] + rest;
    assert forall|j: int| 0 <= j < p.len() implies c[j] != lf() by {
        assert(c[j] == p[j]);
    }
    assert(c[p.len() as int] == lf());
    lemma_line_end_at(c, 0, p.len() as int);
    assert(c.subrange(0, p.len() as int) =~= p);
}

} // verus!
