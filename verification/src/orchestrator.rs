use vstd::prelude::*;

use crate::command::{invocation_matches, sync_directory, SyncInvocation};
use crate::config::{config_matches, parse_config, SyncConfig, UsageError};

verus! {

/// The credential path among the startup arguments, when one was given.
pub open spec fn spec_credential_of(args: Seq<Seq<char>>) -> Option<Seq<char>> {
    if args.len() >= 3 {
        Some(args[2])
    } else {
        None
    }
}

/// What the orchestrator owes on launch: the parsed configuration, and the
/// single unconditional full sync pass that runs before watching begins so
/// the destination starts consistent.
pub struct StartupPlan {
    pub config: SyncConfig,
    pub initial_sync: SyncInvocation,
}

/// Plans the startup sequence from the raw arguments. Fewer than two
/// arguments is a fatal usage error and no worker starts; otherwise the
/// plan holds exactly one initial sync invocation, built from the same
/// source, destination and credential every later pass uses.
pub fn plan_startup(args: &Vec<String>) -> (r: Result<StartupPlan, UsageError>)
    ensures
        r is Ok <==> args@.len() >= 2,
        r matches Ok(p) ==> config_matches(p.config, args.deep_view()),
        r matches Ok(p) ==> invocation_matches(
            p.initial_sync,
            args@[0]@,
            args@[1]@,
            spec_credential_of(args.deep_view()),
        ),
        r matches Err(e) ==> e == UsageError::NotEnoughParameters,
{
    match parse_config(args) {
        Err(e) => Err(e),
        Ok(config) => {
            let key = match &config.credential_path {
                Some(k) => Some(k),
                None => None,
            };
            let initial_sync = sync_directory(&args[0], &args[1], key);
            Ok(StartupPlan { config, initial_sync })
        },
    }
}

} // verus!
