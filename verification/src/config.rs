//! The immutable session configuration: the two secrets and the command
//! prefix. The prefix is never empty; when the surrounding process supplies
//! none (or an empty one), the default takes its place.

use vstd::prelude::*;
use vstd::string::StringExecFns;

verus! {

/// The prefix used when the process supplies none.
pub open spec fn default_prefix() -> Seq<char> {
    "!gpt3"@
}

/// The immutable configuration bundle, owned by the orchestrator for the
/// process lifetime.
#[derive(Debug, Clone)]
pub struct AppConfig {
    /// Secret for the completion API; becomes the bearer token.
    pub openai_key: String,
    /// Secret for the gateway connection.
    pub discord_token: String,
    /// The command prefix; never empty.
    pub bot_prefix: String,
}

impl AppConfig {
    /// The configuration's invariant: the command prefix is non-empty.
    pub open spec fn well_formed(&self) -> bool {
        self.bot_prefix@.len() > 0
    }

    /// Bundle the two secrets and a non-empty prefix.
    pub fn new(openai_key: String, discord_token: String, bot_prefix: String) -> (r: AppConfig)
        requires
            bot_prefix@.len() > 0,
        ensures
            r.openai_key@ == openai_key@,
            r.discord_token@ == discord_token@,
            r.bot_prefix@ == bot_prefix@,
            r.well_formed(),
    {
        AppConfig { openai_key, discord_token, bot_prefix }
    }
}

/// The prefix the relay runs with: the requested one where it is present and
/// non-empty, the default otherwise. The result is never empty.
pub fn resolve_prefix(requested: Option<String>) -> (r: String)
    ensures
        requested matches Some(p) ==> (if p@.len() > 0 {
            r@ == p@
        } else {
            r@ == default_prefix()
        }),
        requested is None ==> r@ == default_prefix(),
        r@.len() > 0,
{
    proof {
        reveal_strlit("!gpt3");
    }
    match requested {
        Some(p) => {
            if p.as_str().is_empty() {
                String::from_str("!gpt3")
            } else {
                p
            }
        },
        None => String::from_str("!gpt3"),
    }
}

} // verus!
