use vstd::prelude::*;
use vstd::string::StringExecFns;

use crate::config::{
    first_remote_colon_from, parse_destination, spec_is_remote, DestinationSpec,
};

verus! {

/// The credential clause shared by both commands: `-i <key>` when a
/// credential path was supplied, empty otherwise.
pub open spec fn spec_key_clause(key: Option<Seq<char>>) -> Seq<char> {
    match key {
        Some(k) => "-i "@ + k,
        None => Seq::<char>::empty(),
    }
}

/// The view of the optional credential path handed to the executor.
pub open spec fn spec_key_view(key: Option<&String>) -> Option<Seq<char>> {
    match key {
        Some(k) => Some(k@),
        None => None,
    }
}

/// The remote directory pre-creation command: a secure-shell call with
/// strict host-key checking disabled that runs `mkdir -p` on the remote
/// path.
pub open spec fn spec_mkdir_command(
    user_host: Seq<char>,
    remote_path: Seq<char>,
    key: Option<Seq<char>>,
) -> Seq<char> {
    "ssh -n -o StrictHostKeyChecking=no "@ + spec_key_clause(key) + " "@ + user_host
        + " 'mkdir -p "@ + remote_path + "'"@
}

/// The main mirror command: recursive, permission- and time-preserving,
/// deleting extraneous destination entries, excluding the version-control
/// metadata directory, and applying `.syncignore` rules as a hierarchical
/// dir-merge filter. For a remote destination only, the transfer is routed
/// over secure shell with strict host-key checking disabled and the
/// supplied key, if any.
pub open spec fn spec_mirror_command(
    source: Seq<char>,
    destination: Seq<char>,
    key: Option<Seq<char>>,
) -> Seq<char> {
    if spec_is_remote(destination) {
        "rsync -aP --delete --exclude='/.git' --filter=\"dir-merge,- .syncignore\" -e \"ssh "@
            + spec_key_clause(key) + " -o StrictHostKeyChecking=no\" "@ + source + " "@
            + destination
    } else {
        "rsync -aP --delete --exclude='/.git' --filter=\"dir-merge,- .syncignore\" "@ + source
            + " "@ + destination
    }
}

/// The constructed command list for one sync pass: an optional remote
/// directory pre-creation step, then the mirror command. The caller runs
/// the pre-creation step first, logs its failure without stopping, and
/// attempts the mirror command regardless.
pub struct SyncInvocation {
    pub mkdir_command: Option<String>,
    pub sync_command: String,
}

/// Whether an invocation is exactly the one owed for these arguments: the
/// pre-creation step is present exactly for a remote destination and is
/// built from its parsed user/host and path, and the mirror command is
/// built from the raw source and destination.
pub open spec fn invocation_matches(
    inv: SyncInvocation,
    source: Seq<char>,
    destination: Seq<char>,
    key: Option<Seq<char>>,
) -> bool {
    &&& inv.sync_command@ == spec_mirror_command(source, destination, key)
    &&& if spec_is_remote(destination) {
        &&& inv.mkdir_command matches Some(c)
        &&& first_remote_colon_from(destination, 0) matches Some(i)
        &&& c@ == spec_mkdir_command(
            destination.subrange(0, i),
            destination.subrange(i + 1, destination.len() as int),
            key,
        )
    } else {
        inv.mkdir_command is None
    }
}

/// Builds the credential clause.
fn key_clause(key: Option<&String>) -> (r: String)
    ensures
        r@ == spec_key_clause(spec_key_view(key)),
{
    match key {
        Some(k) => {
            let mut s = "-i ".to_owned();
            s.append(k.as_str());
            s
        },
        None => String::new(),
    }
}

/// Constructs the commands for one sync pass from the raw source path,
/// the raw destination address and the optional credential path: the
/// remote directory pre-creation step exactly when the destination is
/// remote, and always the mirror command.
pub fn sync_directory(
    source_path: &String,
    destination_path: &String,
    ssh_key_file: Option<&String>,
) -> (inv: SyncInvocation)
    ensures
        invocation_matches(inv, source_path@, destination_path@, spec_key_view(ssh_key_file)),
{
    let kc = key_clause(ssh_key_file);
    match parse_destination(destination_path) {
        DestinationSpec::Remote { user_host, remote_path } => {
            let mut mc = "ssh -n -o StrictHostKeyChecking=no ".to_owned();
            mc.append(kc.as_str());
            mc.append(" ");
            mc.append(user_host.as_str());
            mc.append(" 'mkdir -p ");
            mc.append(remote_path.as_str());
            mc.append("'");
            let mut sc =
                "rsync -aP --delete --exclude='/.git' --filter=\"dir-merge,- .syncignore\" -e \"ssh ".to_owned();
            sc.append(kc.as_str());
            sc.append(" -o StrictHostKeyChecking=no\" ");
            sc.append(source_path.as_str());
            sc.append(" ");
            sc.append(destination_path.as_str());
            SyncInvocation { mkdir_command: Some(mc), sync_command: sc }
        },
        DestinationSpec::Local { path: _ } => {
            let mut sc =
                "rsync -aP --delete --exclude='/.git' --filter=\"dir-merge,- .syncignore\" ".to_owned();
            sc.append(source_path.as_str());
            sc.append(" ");
            sc.append(destination_path.as_str());
            SyncInvocation { mkdir_command: None, sync_command: sc }
        },
    }
}

} // verus!
