//! The Landlock calls a sandboxed child makes, each behind a wrapper that
//! keeps the record of what it did: the rights a ruleset handles, the rules
//! handed to the kernel, the paths found missing or unopenable, and which
//! call failed. The record lives in private ghost fields that only the
//! wrappers below write, so every entry stands for an outside call's
//! result, and what the child asked for can be stated of those results.

use vstd::prelude::*;
use landlock::{
    Access, AccessFs, PathBeneath, PathFd, Ruleset, RulesetAttr, RulesetCreated,
    RulesetCreatedAttr, RulesetError, RulesetStatus, ABI,
};

verus! {

/// `landlock::Ruleset`, a ruleset being configured (opaque).
#[verifier::external_type_specification]
#[verifier::external_body]
pub struct ExRuleset(Ruleset);

/// `landlock::RulesetCreated`, a ruleset open in the kernel (opaque).
#[verifier::external_type_specification]
#[verifier::external_body]
pub struct ExRulesetCreated(RulesetCreated);

/// `landlock::RulesetError`, why a ruleset step failed (opaque).
#[verifier::external_type_specification]
#[verifier::external_body]
pub struct ExRulesetError(RulesetError);

/// `landlock::PathFd`, an opened path a rule refers to (opaque).
#[verifier::external_type_specification]
#[verifier::external_body]
pub struct ExPathFd(PathFd);

/// Rights a rule grants beneath its path.
#[derive(Debug, Clone, Copy, PartialEq, Eq, Structural)]
pub enum RuleAccess {
    /// `ReadFile | ReadDir | Execute`: reading and running, no change.
    ReadExecute,
    /// Every filesystem right of Landlock ABI 3.
    Full,
}

/// What became of a path on its way to a rule.
#[derive(Debug, Clone, Copy, PartialEq, Eq, Structural)]
pub enum PathOutcome {
    /// A rule with these rights was handed to the ruleset.
    Granted(RuleAccess),
    /// The path did not exist.
    Missing,
    /// The path existed but could not be opened.
    Unopenable,
}

/// The Landlock call that failed.
#[derive(Debug, Clone, Copy, PartialEq, Eq, Structural)]
pub enum LandlockCall {
    HandleAccess,
    Create,
    AddRule,
    RestrictSelf,
}

/// A failed Landlock call: the error it returned, with a record of which
/// call it was, the rule it was adding (for `AddRule`), and the record of
/// the ruleset when it failed.
pub struct LandlockFailure {
    error: RulesetError,
    call: LandlockCall,
    rule: Ghost<(Seq<char>, RuleAccess)>,
    log: Ghost<Seq<(Seq<char>, PathOutcome)>>,
}

impl LandlockFailure {
    /// Which call failed.
    pub closed spec fn call(&self) -> LandlockCall {
        self.call
    }

    /// The path and rights of the rule being added, when adding it failed.
    pub closed spec fn rule(&self) -> (Seq<char>, RuleAccess) {
        self.rule@
    }

    /// The record of the ruleset when the call failed (empty before the
    /// ruleset was created).
    pub closed spec fn log(&self) -> Seq<(Seq<char>, PathOutcome)> {
        self.log@
    }

    /// The `Display` text of the error the call returned.
    pub(crate) fn error_text(&self) -> (r: String) {
        ruleset_error_text(&self.error)
    }
}

/// A ruleset being configured, with the filesystem rights it handles.
pub struct HandledRuleset {
    ruleset: Ruleset,
    handled: Ghost<RuleAccess>,
}

impl HandledRuleset {
    /// The filesystem rights the ruleset handles.
    pub closed spec fn handled(&self) -> RuleAccess {
        self.handled@
    }
}

/// A ruleset open in the kernel, with the rights it handles and a record
/// of the paths that went through it so far, in order: the rules handed to
/// it, and the paths found missing or unopenable.
pub struct LandlockRuleset {
    ruleset: RulesetCreated,
    handled: Ghost<RuleAccess>,
    log: Ghost<Seq<(Seq<char>, PathOutcome)>>,
}

impl LandlockRuleset {
    /// The filesystem rights the ruleset handles (denies unless a rule
    /// grants them).
    pub closed spec fn handled(&self) -> RuleAccess {
        self.handled@
    }

    /// The record of the paths that went through this ruleset, in order.
    pub closed spec fn log(&self) -> Seq<(Seq<char>, PathOutcome)> {
        self.log@
    }
}

/// A path opened for use in a rule.
pub struct OpenedPath {
    fd: PathFd,
    path: Ghost<Seq<char>>,
}

impl OpenedPath {
    /// The path that was opened.
    pub closed spec fn path(&self) -> Seq<char> {
        self.path@
    }
}

/// How far the kernel enforces a restriction (`landlock::RulesetStatus`).
#[derive(Debug, Clone, Copy, PartialEq, Eq, Structural)]
pub enum EnforcementStatus {
    FullyEnforced,
    PartiallyEnforced,
    NotEnforced,
}

/// The calling process's restriction, made only by `restrict_self`: the
/// rights handled and the record of the ruleset it was restricted with,
/// and the enforcement status the kernel reported.
pub struct Restriction {
    pub status: EnforcementStatus,
    handled: Ghost<RuleAccess>,
    log: Ghost<Seq<(Seq<char>, PathOutcome)>>,
}

impl Restriction {
    /// The filesystem rights handled by the ruleset the process was
    /// restricted with.
    pub closed spec fn handled(&self) -> RuleAccess {
        self.handled@
    }

    /// The record of the ruleset the process was restricted with.
    pub closed spec fn log(&self) -> Seq<(Seq<char>, PathOutcome)> {
        self.log@
    }
}

/// `Ruleset::default()`: a ruleset that handles nothing yet.
#[verifier::external_body]
pub(crate) fn default_ruleset() -> (r: Ruleset) {
    Ruleset::default()
}

/// `Ruleset::handle_access` with every filesystem access of Landlock ABI 3
/// (`AccessFs::from_all(ABI::V3)`). On success the ruleset handles every
/// right of ABI 3; a failure is recorded as this call's, before any rule.
/// Whether it succeeds depends on the running kernel.
#[verifier::external_body]
pub(crate) fn handle_all_fs_access(ruleset: Ruleset) -> (r: Result<HandledRuleset, LandlockFailure>)
    ensures
        r matches Ok(h) ==> h.handled() == RuleAccess::Full,
        r matches Err(f) ==> f.call() == LandlockCall::HandleAccess && f.log() == Seq::<(Seq<char>, PathOutcome)>::empty(),
{
    ruleset.handle_access(AccessFs::from_all(ABI::V3))
        .map(|r| HandledRuleset { ruleset: r, handled: Ghost(RuleAccess::Full) })
        .map_err(|error| LandlockFailure { error, call: LandlockCall::HandleAccess, rule: Ghost((Seq::empty(), RuleAccess::Full)), log: Ghost(Seq::empty()) })
}

/// `Ruleset::create`: opens the ruleset in the kernel, handling the same
/// rights, with an empty record; a failure is recorded as this call's.
/// Whether it succeeds depends on the running kernel.
#[verifier::external_body]
pub(crate) fn create_ruleset(ruleset: HandledRuleset) -> (r: Result<LandlockRuleset, LandlockFailure>)
    ensures
        r matches Ok(rs) ==> rs.handled() == ruleset.handled() && rs.log() == Seq::<(Seq<char>, PathOutcome)>::empty(),
        r matches Err(f) ==> f.call() == LandlockCall::Create && f.log() == Seq::<(Seq<char>, PathOutcome)>::empty(),
{
    let handled = ruleset.handled;
    ruleset.ruleset.create()
        .map(|created| LandlockRuleset { ruleset: created, handled, log: Ghost(Seq::empty()) })
        .map_err(|error| LandlockFailure { error, call: LandlockCall::Create, rule: Ghost((Seq::empty(), RuleAccess::Full)), log: Ghost(Seq::empty()) })
}

/// `std::path::Path::exists`. A path found missing (`false`) is recorded
/// as missing in the ruleset's record; an existing one leaves the record as
/// it was. Whether it exists depends on the filesystem.
#[verifier::external_body]
pub(crate) fn path_exists(ruleset: &mut LandlockRuleset, path: &str) -> (r: bool)
    ensures
        final(ruleset).handled() == old(ruleset).handled(),
        final(ruleset).log() == (if r { old(ruleset).log() } else { old(ruleset).log().push((path@, PathOutcome::Missing)) }),
{
    let exists = std::path::Path::new(path).exists();
    ruleset.log = Ghost(if exists { ruleset.log@ } else { ruleset.log@.push((path@, PathOutcome::Missing)) });
    exists
}

/// `PathFd::new` (opens the path). An open that fails (`None`) is recorded
/// as unopenable in the ruleset's record; an opened path is the given one
/// and leaves the record as it was. Whether it opens depends on the
/// filesystem.
#[verifier::external_body]
pub(crate) fn open_path_fd(ruleset: &mut LandlockRuleset, path: &str) -> (r: Option<OpenedPath>)
    ensures
        final(ruleset).handled() == old(ruleset).handled(),
        r matches Some(o) ==> o.path() == path@,
        final(ruleset).log() == (if r is Some { old(ruleset).log() } else { old(ruleset).log().push((path@, PathOutcome::Unopenable)) }),
{
    let opened = PathFd::new(path).ok().map(|fd| OpenedPath { fd, path: Ghost(path@) });
    ruleset.log = Ghost(if opened is Some { ruleset.log@ } else { ruleset.log@.push((path@, PathOutcome::Unopenable)) });
    opened
}

/// `RulesetCreated::add_rule` of a `PathBeneath` rule granting
/// `ReadFile | ReadDir | Execute` beneath the opened path. On success the
/// rule is recorded after the earlier entries; a failure records the rule
/// and the record at that point. Whether it succeeds depends on the
/// running kernel.
#[verifier::external_body]
pub(crate) fn add_read_execute_rule(ruleset: LandlockRuleset, path: OpenedPath) -> (r: Result<LandlockRuleset, LandlockFailure>)
    ensures
        r matches Ok(n) ==> n.handled() == ruleset.handled()
            && n.log() == ruleset.log().push((path.path(), PathOutcome::Granted(RuleAccess::ReadExecute))),
        r matches Err(f) ==> f.call() == LandlockCall::AddRule && f.rule() == (path.path(), RuleAccess::ReadExecute)
            && f.log() == ruleset.log(),
{
    let LandlockRuleset { ruleset, handled, log } = ruleset;
    let p = path.path;
    ruleset.add_rule(PathBeneath::new(path.fd, AccessFs::ReadFile | AccessFs::ReadDir | AccessFs::Execute))
        .map(|c| LandlockRuleset { ruleset: c, handled, log: Ghost(log@.push((p@, PathOutcome::Granted(RuleAccess::ReadExecute)))) })
        .map_err(|error| LandlockFailure { error, call: LandlockCall::AddRule, rule: Ghost((p@, RuleAccess::ReadExecute)), log })
}

/// `RulesetCreated::add_rule` of a `PathBeneath` rule granting every
/// filesystem access of ABI 3 beneath the opened path. On success the rule
/// is recorded after the earlier entries; a failure records the rule and
/// the record at that point. Whether it succeeds depends on the running
/// kernel.
#[verifier::external_body]
pub(crate) fn add_full_access_rule(ruleset: LandlockRuleset, path: OpenedPath) -> (r: Result<LandlockRuleset, LandlockFailure>)
    ensures
        r matches Ok(n) ==> n.handled() == ruleset.handled()
            && n.log() == ruleset.log().push((path.path(), PathOutcome::Granted(RuleAccess::Full))),
        r matches Err(f) ==> f.call() == LandlockCall::AddRule && f.rule() == (path.path(), RuleAccess::Full)
            && f.log() == ruleset.log(),
{
    let LandlockRuleset { ruleset, handled, log } = ruleset;
    let p = path.path;
    ruleset.add_rule(PathBeneath::new(path.fd, AccessFs::from_all(ABI::V3)))
        .map(|c| LandlockRuleset { ruleset: c, handled, log: Ghost(log@.push((p@, PathOutcome::Granted(RuleAccess::Full)))) })
        .map_err(|error| LandlockFailure { error, call: LandlockCall::AddRule, rule: Ghost((p@, RuleAccess::Full)), log })
}

/// `RulesetCreated::restrict_self`: restricts the calling thread with the
/// ruleset. On success the restriction carries the ruleset's handled
/// rights and record, and the enforcement status the call reports; a
/// failure records the record at that point. Whether it succeeds, and how
/// far the kernel enforces the rules, depend on the running kernel.
#[verifier::external_body]
pub(crate) fn restrict_self(ruleset: LandlockRuleset) -> (r: Result<Restriction, LandlockFailure>)
    ensures
        r matches Ok(res) ==> res.handled() == ruleset.handled() && res.log() == ruleset.log(),
        r matches Err(f) ==> f.call() == LandlockCall::RestrictSelf && f.log() == ruleset.log(),
{
    let LandlockRuleset { ruleset, handled, log } = ruleset;
    ruleset.restrict_self().map(|st| Restriction { handled, log, status: match st.ruleset {
        RulesetStatus::FullyEnforced => EnforcementStatus::FullyEnforced,
        RulesetStatus::PartiallyEnforced => EnforcementStatus::PartiallyEnforced,
        RulesetStatus::NotEnforced => EnforcementStatus::NotEnforced,
    } }).map_err(|error| LandlockFailure { error, call: LandlockCall::RestrictSelf, rule: Ghost((Seq::empty(), RuleAccess::Full)), log })
}

/// The `Display` text of a Landlock error.
#[verifier::external_body]
fn ruleset_error_text(e: &RulesetError) -> (r: String) {
    e.to_string()
}

} // verus!
