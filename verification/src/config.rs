//! The configuration: refresh interval and the list of tabs, and the
//! check that every tab names a kind this browser knows.
use vstd::prelude::*;
use crate::text::{debug_quoted, debug_str, decimal, owned, push_decimal, str_eq};

verus! {

/// One of the four tab kinds: `drafts`, `sent`, `scheduled`, `subscribers`.
pub open spec fn known_kind(k: Seq<char>) -> bool {
    ||| k == "drafts"@
    ||| k == "sent"@
    ||| k == "scheduled"@
    ||| k == "subscribers"@
}

/// Whether `kind` is one of the four tab kinds.
pub fn is_known_kind(kind: &str) -> (r: bool)
    ensures
        r == known_kind(kind@),
{
    str_eq(kind, "drafts") || str_eq(kind, "sent") || str_eq(kind, "scheduled") || str_eq(
        kind,
        "subscribers",
    )
}

/// The refresh interval used when the file names none: 60 seconds.
pub fn default_refresh() -> (r: u64)
    ensures
        r == 60,
{
    60
}

#[derive(Debug, Clone)]
pub struct Tab {
    pub name: String,
    /// Tab kind:
    ///   - `drafts`      — unsent drafts (status=draft)
    ///   - `sent`        — already-sent emails (status=sent)
    ///   - `scheduled`   — emails scheduled for future send (status=scheduled)
    ///   - `subscribers` — every subscriber
    pub kind: String,
}

#[derive(Debug, Clone)]
pub struct Config {
    pub refresh_interval_secs: u64,
    pub tabs: Vec<Tab>,
}

/// Why a configuration was refused.
#[derive(Debug, Clone)]
pub enum ConfigError {
    /// No `[[tabs]]` entry at all.
    NoTabs,
    /// The tab at `index` (counted from 0) names an unknown kind.
    UnknownKind { index: usize, name: String, kind: String },
}

impl Config {
    pub const EXAMPLE: &'static str = r##"# mnml-msg-buttondown config. Edit and re-run.
#
# Auth lives in an env var (NOT here):
#   export BUTTONDOWN_API_KEY=...   (Settings → Programming in Buttondown)

refresh_interval_secs = 60

# ── Tabs ─────────────────────────────────────────────────────────
# Kinds:
#   "drafts"      — unsent drafts (publish from the TUI with `p`)
#   "sent"        — already-shipped emails with open/click stats
#   "scheduled"   — queued for a future send
#   "subscribers" — every subscriber (unsubscribe with `X`)

[[tabs]]
name = "drafts"
kind = "drafts"

[[tabs]]
name = "sent"
kind = "sent"

[[tabs]]
name = "scheduled"
kind = "scheduled"

[[tabs]]
name = "subscribers"
kind = "subscribers"
"##;

    /// Every tab of the configuration names a known kind.
    pub open spec fn all_kinds_known(self) -> bool {
        forall|i: int| 0 <= i < self.tabs@.len() ==> known_kind(#[trigger] self.tabs@[i].kind@)
    }

    /// `i` is the first tab whose kind is unknown.
    pub open spec fn first_unknown(self, i: int) -> bool {
        &&& 0 <= i < self.tabs@.len()
        &&& !known_kind(self.tabs@[i].kind@)
        &&& forall|j: int| 0 <= j < i ==> known_kind(#[trigger] self.tabs@[j].kind@)
    }

    /// Accepts a configuration with at least one tab, all of known kinds;
    /// otherwise names the first problem.
    pub fn validate(&self) -> (r: Result<(), ConfigError>)
        ensures
            r is Ok <==> self.tabs@.len() > 0 && self.all_kinds_known(),
            r matches Err(ConfigError::NoTabs) <==> self.tabs@.len() == 0,
            r matches Err(ConfigError::UnknownKind { index, name, kind }) ==> {
                &&& self.first_unknown(index as int)
                &&& name@ == self.tabs@[index as int].name@
                &&& kind@ == self.tabs@[index as int].kind@
            },
    {
        if self.tabs.len() == 0 {
            return Err(ConfigError::NoTabs);
        }
        let mut i: usize = 0;
        while i < self.tabs.len()
            invariant
                i <= self.tabs@.len(),
                forall|j: int| 0 <= j < i ==> known_kind(#[trigger] self.tabs@[j].kind@),
            decreases self.tabs@.len() - i,
        {
            let t = &self.tabs[i];
            if !is_known_kind(t.kind.as_str()) {
                return Err(
                    ConfigError::UnknownKind { index: i, name: t.name.clone(), kind: t.kind.clone() },
                );
            }
            i = i + 1;
        }
        Ok(())
    }
}

/// The text of a configuration error.
pub open spec fn config_error_text(e: ConfigError) -> Seq<char> {
    match e {
        ConfigError::NoTabs => "config: at least one [[tabs]] entry required"@,
        ConfigError::UnknownKind { index, name, kind } => "tab #"@ + decimal(index as nat) + " ("@
            + name@ + "): unknown kind "@ + debug_quoted(kind@)
            + " (expected \"drafts\", \"sent\", \"scheduled\", or \"subscribers\")"@,
    }
}

impl ConfigError {
    /// The message shown to the user.
    pub fn message(&self) -> (r: String)
        ensures
            r@ == config_error_text(*self),
    {
        match self {
            ConfigError::NoTabs => owned("config: at least one [[tabs]] entry required"),
            ConfigError::UnknownKind { index, name, kind } => {
                let mut r = owned("tab #");
                push_decimal(&mut r, *index as u64);
                r.append(" (");
                r.append(name.as_str());
                r.append("): unknown kind ");
                r.append(debug_str(kind.as_str()).as_str());
                r.append(" (expected \"drafts\", \"sent\", \"scheduled\", or \"subscribers\")");
                r
            },
        }
    }
}

} // verus!
