//! The application policy engine.
use vstd::prelude::*;
use vstd::string::StringExecFns;
use crate::config::{any_entry_names, listed, pattern_matches, strings_view, SecurityConfig, SecurityMode};
use crate::utils::text::{lowercase, to_lowercase};

verus! {

/// Why the policy refused an application; each variant holds the identifier as given.
#[derive(Debug)]
pub enum SecurityError {
    BlockedApplication(String),
    ApplicationNotAllowed(String),
}

/// The message of a refusal for a blocked application.
pub open spec fn blocked_message(app_id: Seq<char>) -> Seq<char> {
    "SecurityPolicyViolation: Application '"@ + app_id + "' is explicitly blocked"@
}

/// The message of a refusal for an application that the allowlist does not name.
pub open spec fn not_allowed_message(app_id: Seq<char>) -> Seq<char> {
    "SecurityPolicyViolation: Application '"@ + app_id + "' is not in the allowed applications list"@
}

impl SecurityError {
    /// The text of the error, as the daemon reports it to clients.
    pub open spec fn message_spec(&self) -> Seq<char> {
        match self {
            SecurityError::BlockedApplication(a) => blocked_message(a@),
            SecurityError::ApplicationNotAllowed(a) => not_allowed_message(a@),
        }
    }

    /// The text of the error, as the daemon reports it to clients.
    pub fn message(&self) -> (r: String)
        ensures
            r@ == self.message_spec(),
    {
        match self {
            SecurityError::BlockedApplication(a) => {
                let s = String::from_str("SecurityPolicyViolation: Application '");
                let s = s.concat(a.as_str());
                s.concat("' is explicitly blocked")
            },
            SecurityError::ApplicationNotAllowed(a) => {
                let s = String::from_str("SecurityPolicyViolation: Application '");
                let s = s.concat(a.as_str());
                s.concat("' is not in the allowed applications list")
            },
        }
    }
}

/// The three outcomes of checking an application against a policy.
pub enum Verdict {
    Permitted,
    Blocked,
    NotAllowed,
}

/// The outcome of checking `app_id` against `cfg`: the blocked list first, then the mode.
pub open spec fn verdict(cfg: SecurityConfig, app_id: Seq<char>) -> Verdict {
    if cfg.blocks(app_id) {
        Verdict::Blocked
    } else if cfg.mode == SecurityMode::Allowlist && !cfg.lists(app_id) {
        Verdict::NotAllowed
    } else {
        Verdict::Permitted
    }
}

/// The message with which `cfg` refuses `app_id` (meaningful where it does refuse it).
pub open spec fn refusal_message(cfg: SecurityConfig, app_id: Seq<char>) -> Seq<char> {
    if cfg.blocks(app_id) {
        blocked_message(app_id)
    } else {
        not_allowed_message(app_id)
    }
}

/// Checks applications against a security configuration.
#[derive(Debug, Clone)]
pub struct PolicyEngine {
    config: SecurityConfig,
}

impl PolicyEngine {
    /// The configuration the engine enforces.
    pub closed spec fn current_config(&self) -> SecurityConfig {
        self.config
    }

    pub fn new(config: SecurityConfig) -> (r: Self)
        ensures
            r.current_config() == config,
    {
        PolicyEngine { config }
    }

    /// Checks an application: a blocked one is refused as blocked; in allowlist mode an
    /// unlisted one is refused as not allowed; every other application passes.
    pub fn validate_app(&self, app_id: &str) -> (r: Result<(), SecurityError>)
        ensures
            match r {
                Ok(()) => verdict(self.current_config(), app_id@) == Verdict::Permitted,
                Err(SecurityError::BlockedApplication(a)) => verdict(self.current_config(), app_id@)
                    == Verdict::Blocked && a@ == app_id@,
                Err(SecurityError::ApplicationNotAllowed(a)) => verdict(self.current_config(), app_id@)
                    == Verdict::NotAllowed && a@ == app_id@,
            },
            r is Ok <==> self.current_config().permits(app_id@),
            r matches Err(e) ==> e.message_spec() == refusal_message(self.current_config(), app_id@),
    {
        let app_lower = to_lowercase(app_id);
        if any_entry_names(&self.config.blocked_apps, &app_lower, Ghost(app_id@)) {
            return Err(SecurityError::BlockedApplication(String::from_str(app_id)));
        }
        match self.config.mode {
            SecurityMode::Allowlist => {
                if any_entry_names(&self.config.allowed_apps, &app_lower, Ghost(app_id@)) {
                    Ok(())
                } else {
                    Err(SecurityError::ApplicationNotAllowed(String::from_str(app_id)))
                }
            },
            SecurityMode::Blocklist => Ok(()),
        }
    }

    pub fn get_config(&self) -> (r: &SecurityConfig)
        ensures
            *r == self.current_config(),
    {
        &self.config
    }
}

/// `SecurityConfig::is_allowed` and `PolicyEngine::validate_app` agree: an application is
/// allowed exactly when the engine's check passes.
pub proof fn law_is_allowed_agrees_with_validate_app(cfg: SecurityConfig, app_id: Seq<char>)
    ensures
        cfg.permits(app_id) <==> verdict(cfg, app_id) == Verdict::Permitted,
{
}

/// The blocked list takes precedence in every mode: a blocked application is refused as
/// blocked even when the allowed list names it too.
pub proof fn law_blocked_list_takes_precedence(cfg: SecurityConfig, app_id: Seq<char>)
    requires
        cfg.blocks(app_id),
    ensures
        !cfg.permits(app_id),
        verdict(cfg, app_id) == Verdict::Blocked,
{
}

/// In blocklist mode every application that is not blocked is allowed.
pub proof fn law_blocklist_mode_permits_unblocked(cfg: SecurityConfig, app_id: Seq<char>)
    requires
        cfg.mode == SecurityMode::Blocklist,
    ensures
        cfg.permits(app_id) <==> !cfg.blocks(app_id),
{
}

/// An allowlist with no entries permits no application.
pub proof fn law_empty_allowlist_permits_nothing(cfg: SecurityConfig, app_id: Seq<char>)
    requires
        cfg.mode == SecurityMode::Allowlist,
        cfg.allowed_apps@.len() == 0,
    ensures
        !cfg.permits(app_id),
{
}

/// Matching ignores case: two identifiers with the same lowercase form get the same verdict.
pub proof fn law_policy_ignores_case(cfg: SecurityConfig, a: Seq<char>, b: Seq<char>)
    requires
        lowercase(a) == lowercase(b),
    ensures
        verdict(cfg, a) == verdict(cfg, b),
        cfg.permits(a) == cfg.permits(b),
{
    assert forall|p: Seq<char>| pattern_matches(p, a) == pattern_matches(p, b) by {}
    let bl = strings_view(cfg.blocked_apps@);
    let al = strings_view(cfg.allowed_apps@);
    if listed(bl, a) {
        let i = choose|i: int| 0 <= i < bl.len() && #[trigger] pattern_matches(bl[i], a);
        assert(pattern_matches(bl[i], b));
    }
    if listed(bl, b) {
        let i = choose|i: int| 0 <= i < bl.len() && #[trigger] pattern_matches(bl[i], b);
        assert(pattern_matches(bl[i], a));
    }
    if listed(al, a) {
        let i = choose|i: int| 0 <= i < al.len() && #[trigger] pattern_matches(al[i], a);
        assert(pattern_matches(al[i], b));
    }
    if listed(al, b) {
        let i = choose|i: int| 0 <= i < al.len() && #[trigger] pattern_matches(al[i], b);
        assert(pattern_matches(al[i], a));
    }
}

/// An identifier that contains a blocked entry, in any case, is refused.
pub proof fn law_blocked_entry_inside_identifier_is_refused(cfg: SecurityConfig, app_id: Seq<char>, i: int)
    requires
        0 <= i < cfg.blocked_apps@.len(),
        pattern_matches(cfg.blocked_apps@[i]@, app_id),
    ensures
        !cfg.permits(app_id),
{
    assert(strings_view(cfg.blocked_apps@)[i] == cfg.blocked_apps@[i]@);
}

/// Blocking more applications never permits more: with the same mode and allowed list, a
/// policy whose blocked entries include all of another's permits no application the other refuses.
pub proof fn law_more_blocked_entries_permit_less(small: SecurityConfig, large: SecurityConfig, app_id: Seq<char>)
    requires
        small.mode == large.mode,
        strings_view(small.allowed_apps@) == strings_view(large.allowed_apps@),
        forall|i: int|
            0 <= i < small.blocked_apps@.len() ==> strings_view(large.blocked_apps@).contains(
                #[trigger] small.blocked_apps@[i]@,
            ),
    ensures
        large.permits(app_id) ==> small.permits(app_id),
{
    let bs = strings_view(small.blocked_apps@);
    let bl = strings_view(large.blocked_apps@);
    if listed(bs, app_id) {
        let i = choose|i: int| 0 <= i < bs.len() && #[trigger] pattern_matches(bs[i], app_id);
        assert(bs[i] == small.blocked_apps@[i]@);
        assert(bl.contains(bs[i]));
        let j = choose|j: int| 0 <= j < bl.len() && bl[j] == bs[i];
        assert(pattern_matches(bl[j], app_id));
    }
}

/// `entry` occurs in `app_id`, both lowercased, starting at position `i`.
pub open spec fn occurs_lowercased_at(entry: Seq<char>, app_id: Seq<char>, i: int) -> bool {
    let e = lowercase(entry);
    let a = lowercase(app_id);
    0 <= i && i + e.len() <= a.len() && a.subrange(i, i + e.len()) == e
}

/// A policy entry names exactly the identifiers in which it occurs, both lowercased, at some
/// position: at the start, inside, or at the end, an equal identifier included.
pub proof fn law_entry_names_identifiers_containing_it(entry: Seq<char>, app_id: Seq<char>)
    ensures
        pattern_matches(entry, app_id) <==> exists|i: int| occurs_lowercased_at(entry, app_id, i),
{
    if pattern_matches(entry, app_id) {
        let e = lowercase(entry);
        let a = lowercase(app_id);
        let i = choose|i: int| 0 <= i && i + e.len() <= a.len() && #[trigger] a.subrange(i, i + e.len()) == e;
        assert(occurs_lowercased_at(entry, app_id, i));
    }
    if exists|i: int| occurs_lowercased_at(entry, app_id, i) {
        let i = choose|i: int| occurs_lowercased_at(entry, app_id, i);
        let e = lowercase(entry);
        let a = lowercase(app_id);
        assert(a.subrange(i, i + e.len()) == e);
    }
}

/// An allowlist policy permits an application when one of its allowed entries occurs in the
/// identifier (both lowercased, at any position, so `Calculator` permits `Calculator.app`)
/// and no blocked entry occurs in it anywhere.
pub proof fn law_allowed_entry_anywhere_permits(cfg: SecurityConfig, app_id: Seq<char>, k: int, i: int)
    requires
        cfg.mode == SecurityMode::Allowlist,
        0 <= k < cfg.allowed_apps@.len(),
        occurs_lowercased_at(cfg.allowed_apps@[k]@, app_id, i),
        forall|j: int, at: int|
            0 <= j < cfg.blocked_apps@.len() ==> !#[trigger] occurs_lowercased_at(cfg.blocked_apps@[j]@, app_id, at),
    ensures
        cfg.permits(app_id),
        verdict(cfg, app_id) == Verdict::Permitted,
{
    let al = strings_view(cfg.allowed_apps@);
    let bl = strings_view(cfg.blocked_apps@);
    law_entry_names_identifiers_containing_it(cfg.allowed_apps@[k]@, app_id);
    assert(al[k] == cfg.allowed_apps@[k]@);
    assert(pattern_matches(al[k], app_id));
    if listed(bl, app_id) {
        let j = choose|j: int| 0 <= j < bl.len() && #[trigger] pattern_matches(bl[j], app_id);
        assert(bl[j] == cfg.blocked_apps@[j]@);
        law_entry_names_identifiers_containing_it(cfg.blocked_apps@[j]@, app_id);
        let at = choose|at: int| occurs_lowercased_at(cfg.blocked_apps@[j]@, app_id, at);
        assert(!occurs_lowercased_at(cfg.blocked_apps@[j]@, app_id, at));
    }
}

/// A blocked entry that occurs anywhere in the identifier (both lowercased) refuses the
/// application in every mode, as blocked.
pub proof fn law_blocked_entry_anywhere_refuses(cfg: SecurityConfig, app_id: Seq<char>, j: int, i: int)
    requires
        0 <= j < cfg.blocked_apps@.len(),
        occurs_lowercased_at(cfg.blocked_apps@[j]@, app_id, i),
    ensures
        !cfg.permits(app_id),
        verdict(cfg, app_id) == Verdict::Blocked,
{
    law_entry_names_identifiers_containing_it(cfg.blocked_apps@[j]@, app_id);
    let bl = strings_view(cfg.blocked_apps@);
    assert(bl[j] == cfg.blocked_apps@[j]@);
    assert(pattern_matches(bl[j], app_id));
}

} // verus!
