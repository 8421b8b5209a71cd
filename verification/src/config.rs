use vstd::prelude::*;
use vstd::string::StrSliceExecFns;

verus! {

/// An ASCII letter, as in a drive-style prefix such as `C:`.
pub open spec fn is_ascii_letter(c: char) -> bool {
    (65 <= c as u32 && c as u32 <= 90) || (97 <= c as u32 && c as u32 <= 122)
}

/// Whether the character at position `i` is a drive-style prefix colon
/// rather than a remote-destination separator.
pub open spec fn drive_colon(s: Seq<char>, i: int) -> bool {
    i == 1 && is_ascii_letter(s[0])
}

/// The position of the first colon that selects remote mode, searching
/// from position `i` on.
pub open spec fn first_remote_colon_from(s: Seq<char>, i: int) -> Option<int>
    decreases s.len() - i,
{
    if i < 0 || i >= s.len() {
        None
    } else if s[i] == ':' && !drive_colon(s, i) {
        Some(i)
    } else {
        first_remote_colon_from(s, i + 1)
    }
}

/// Whether a destination address selects remote mode: it holds a colon
/// not preceded by a drive-style prefix.
pub open spec fn spec_is_remote(s: Seq<char>) -> bool {
    first_remote_colon_from(s, 0) is Some
}

/// Where one sync pass is mirrored to: a plain path on this machine, or a
/// `user@host:path` address on a remote host.
#[derive(Debug)]
pub enum DestinationSpec {
    /// A plain filesystem path on this machine.
    Local { path: String },
    /// A remote address, split at the first remote-mode colon.
    Remote { user_host: String, remote_path: String },
}

/// Whether a parsed destination is exactly what the raw address says.
pub open spec fn destination_matches(d: DestinationSpec, dest: Seq<char>) -> bool {
    match d {
        DestinationSpec::Local { path } => !spec_is_remote(dest) && path@ == dest,
        DestinationSpec::Remote { user_host, remote_path } => {
            &&& spec_is_remote(dest)
            &&& first_remote_colon_from(dest, 0) matches Some(i)
            &&& user_host@ == dest.subrange(0, i)
            &&& remote_path@ == dest.subrange(i + 1, dest.len() as int)
        },
    }
}

/// The position a remote-colon search returns really holds a colon that
/// selects remote mode, and lies in the searched range.
pub proof fn lemma_first_remote_colon_found(s: Seq<char>, i: int, j: int)
    requires
        first_remote_colon_from(s, i) == Some(j),
    ensures
        i <= j < s.len(),
        s[j] == ':',
        !drive_colon(s, j),
    decreases s.len() - i,
{
    if i < 0 || i >= s.len() {
    } else if s[i] == ':' && !drive_colon(s, i) {
    } else {
        lemma_first_remote_colon_found(s, i + 1, j);
    }
}

/// Splitting a remote address loses nothing: the user/host part, the
/// separating colon and the remote path reassemble the raw address.
pub proof fn lemma_remote_split_reassembles(dest: Seq<char>)
    requires
        spec_is_remote(dest),
    ensures
        ({
            let i = first_remote_colon_from(dest, 0)->Some_0;
            dest.subrange(0, i) + seq![':'] + dest.subrange(i + 1, dest.len() as int) == dest
        }),
{
    let i = first_remote_colon_from(dest, 0)->Some_0;
    lemma_first_remote_colon_found(dest, 0, i);
    assert(dest.subrange(0, i) + seq![':'] + dest.subrange(i + 1, dest.len() as int)
        =~= dest);
}

/// Finds the first colon of `s` that selects remote mode, if any.
fn find_remote_colon(s: &str) -> (r: Option<usize>)
    ensures
        match r {
            Some(i) => i < s@.len() && first_remote_colon_from(s@, 0) == Some(i as int),
            None => first_remote_colon_from(s@, 0) is None,
        },
{
    let len = s.unicode_len();
    let mut idx: usize = 0;
    while idx < len
        invariant
            idx <= len,
            len == s@.len(),
            first_remote_colon_from(s@, 0) == first_remote_colon_from(s@, idx as int),
        decreases len - idx,
    {
        let c = s.get_char(idx);
        let mut drive = false;
        if idx == 1 {
            let c0 = s.get_char(0);
            let u = c0 as u32;
            drive = (65 <= u && u <= 90) || (97 <= u && u <= 122);
        }
        if c == ':' && !drive {
            return Some(idx);
        }
        idx = idx + 1;
    }
    None
}

/// Parses a destination address: remote mode is selected by the first
/// colon not preceded by a drive-style prefix, and the address is split
/// there into the user/host part and the remote path.
pub fn parse_destination(destination_path: &String) -> (r: DestinationSpec)
    ensures
        destination_matches(r, destination_path@),
{
    let s = destination_path.as_str();
    match find_remote_colon(s) {
        Some(i) => {
            let len = s.unicode_len();
            let user_host = s.substring_char(0, i).to_owned();
            let remote_path = s.substring_char(i + 1, len).to_owned();
            DestinationSpec::Remote { user_host, remote_path }
        },
        None => DestinationSpec::Local { path: destination_path.clone() },
    }
}

/// The engine's configuration, set once at startup and immutable for the
/// process lifetime.
#[derive(Debug)]
pub struct SyncConfig {
    pub source_path: String,
    pub destination_spec: DestinationSpec,
    pub credential_path: Option<String>,
}

/// A fatal usage error: the startup arguments were unusable.
#[derive(Clone, Copy, Debug, PartialEq, Eq, Structural)]
pub enum UsageError {
    /// Fewer than two startup arguments were given.
    NotEnoughParameters,
}

impl UsageError {
    /// The message reported to the operator.
    pub fn message(&self) -> (r: String)
        ensures
            r@ == "Error: not enough parameters."@,
    {
        "Error: not enough parameters.".to_owned()
    }
}

/// Whether a configuration matches the startup arguments: the first two
/// are the source path and the destination address, and the third, when
/// present, the credential path.
pub open spec fn config_matches(c: SyncConfig, args: Seq<Seq<char>>) -> bool {
    &&& args.len() >= 2
    &&& c.source_path@ == args[0]
    &&& destination_matches(c.destination_spec, args[1])
    &&& if args.len() >= 3 {
        c.credential_path matches Some(k) && k@ == args[2]
    } else {
        c.credential_path is None
    }
}

/// Parses the startup arguments into a configuration. Fewer than two
/// arguments is a fatal usage error; a third argument, when present, is
/// the credential (private key) path.
pub fn parse_config(args: &Vec<String>) -> (r: Result<SyncConfig, UsageError>)
    ensures
        r is Ok <==> args@.len() >= 2,
        r matches Ok(c) ==> config_matches(c, args.deep_view()),
        r matches Err(e) ==> e == UsageError::NotEnoughParameters,
{
    if args.len() < 2 {
        return Err(UsageError::NotEnoughParameters);
    }
    let source_path = args[0].clone();
    let destination_spec = parse_destination(&args[1]);
    let credential_path = if args.len() >= 3 {
        Some(args[2].clone())
    } else {
        None
    };
    Ok(SyncConfig { source_path, destination_spec, credential_path })
}

} // verus!
