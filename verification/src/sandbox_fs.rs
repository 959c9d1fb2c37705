//! Landlock filesystem restrictions of a sandboxed child: which paths it
//! may reach, and how far.

use vstd::prelude::*;
use crate::landlock_calls::{
    add_full_access_rule, add_read_execute_rule, create_ruleset, default_ruleset,
    handle_all_fs_access, open_path_fd, path_exists, restrict_self, LandlockCall,
    LandlockFailure, LandlockRuleset, PathOutcome, Restriction, RuleAccess,
};

verus! {

broadcast use vstd::string::group_string_axioms;

/// Why a path gets a rule: a system directory, the X11 socket directory,
/// or user data.
#[derive(Debug, Clone, Copy, PartialEq, Eq, Structural)]
pub enum RuleKind {
    System,
    X11,
    Data,
}

/// One path the child may reach: system and X11 paths for reading and
/// executing only, data paths with every filesystem access.
#[derive(Debug)]
pub struct PathRule {
    pub path: String,
    pub kind: RuleKind,
}

/// System directories the child may read and execute from.
pub open spec fn system_dirs() -> Seq<Seq<char>> {
    seq!["/usr"@, "/lib"@, "/lib64"@, "/lib32"@, "/etc/fonts"@, "/proc/self"@, "/dev"@]
}

/// The X11 socket directory (read access, for connecting to the display).
pub open spec fn x11_socket_dir() -> Seq<char> {
    "/tmp/.X11-unix"@
}

/// The data paths of a child: the client's allowed paths when there are
/// any, otherwise the owner's storage root.
pub open spec fn data_paths(root_path: Seq<char>, allowed_paths: Seq<Seq<char>>) -> Seq<Seq<char>> {
    if allowed_paths.len() > 0 { allowed_paths } else { seq![root_path] }
}

/// The rules a child gets, in the order they are added: the system
/// directories, the X11 socket directory, then the data paths. `None`
/// when there is nothing to restrict to (no root and no allowed paths):
/// the child then runs unrestricted.
pub open spec fn landlock_rules_spec(root_path: Seq<char>, allowed_paths: Seq<Seq<char>>)
    -> Option<Seq<(Seq<char>, RuleKind)>> {
    if root_path.len() == 0 && allowed_paths.len() == 0 {
        None
    } else {
        Some(
            system_dirs().map_values(|p: Seq<char>| (p, RuleKind::System))
            + seq![(x11_socket_dir(), RuleKind::X11)]
            + data_paths(root_path, allowed_paths).map_values(|p: Seq<char>| (p, RuleKind::Data))
        )
    }
}

/// The plan of a child's rules, path by path: with neither a root nor
/// allowed paths there is none; otherwise `/usr`, `/lib`, `/lib64`,
/// `/lib32`, `/etc/fonts`, `/proc/self` and `/dev` as system paths, then
/// `/tmp/.X11-unix` as the X11 path, then as data paths the allowed paths
/// in order when there are any, else the root alone.
pub proof fn lemma_plan_paths(root_path: Seq<char>, allowed_paths: Seq<Seq<char>>)
    ensures
        root_path.len() == 0 && allowed_paths.len() == 0 ==> landlock_rules_spec(root_path, allowed_paths) is None,
        !(root_path.len() == 0 && allowed_paths.len() == 0) ==> landlock_rules_spec(root_path, allowed_paths) is Some,
        landlock_rules_spec(root_path, allowed_paths) matches Some(plan) ==> plan.len() == 8 + (if allowed_paths.len() > 0 { allowed_paths.len() } else { 1 })
            && plan[0] == ("/usr"@, RuleKind::System) && plan[1] == ("/lib"@, RuleKind::System)
            && plan[2] == ("/lib64"@, RuleKind::System) && plan[3] == ("/lib32"@, RuleKind::System)
            && plan[4] == ("/etc/fonts"@, RuleKind::System) && plan[5] == ("/proc/self"@, RuleKind::System)
            && plan[6] == ("/dev"@, RuleKind::System) && plan[7] == ("/tmp/.X11-unix"@, RuleKind::X11)
            && (forall|j: int| 8 <= j < plan.len() ==> #[trigger] plan[j]
                == (if allowed_paths.len() > 0 { allowed_paths[j - 8] } else { root_path }, RuleKind::Data)),
{
    if !(root_path.len() == 0 && allowed_paths.len() == 0) {
        let sys = system_dirs().map_values(|p: Seq<char>| (p, RuleKind::System));
        let data = data_paths(root_path, allowed_paths).map_values(|p: Seq<char>| (p, RuleKind::Data));
        let plan = sys + seq![(x11_socket_dir(), RuleKind::X11)] + data;
        assert(sys.len() == 7);
        assert(plan[0] == sys[0] && plan[6] == sys[6] && plan[7] == (x11_socket_dir(), RuleKind::X11));
        assert(plan[1] == sys[1] && plan[2] == sys[2] && plan[3] == sys[3] && plan[4] == sys[4] && plan[5] == sys[5]);
        assert forall|j: int| 8 <= j < plan.len() implies #[trigger] plan[j]
            == (if allowed_paths.len() > 0 { allowed_paths[j - 8] } else { root_path }, RuleKind::Data) by {
            assert(plan[j] == data[j - 8]);
        }
    }
}

/// The (path, kind) pairs of a list of rules.
pub open spec fn rule_views(rules: Seq<PathRule>) -> Seq<(Seq<char>, RuleKind)> {
    rules.map_values(|r: PathRule| (r.path@, r.kind))
}

fn push_rule(rules: &mut Vec<PathRule>, path: &str, kind: RuleKind)
    ensures
        rule_views(final(rules)@) == rule_views(old(rules)@).push((path@, kind)),
{
    let ghost before = rules@;
    rules.push(PathRule { path: String::from_str(path), kind });
    assert(rule_views(rules@) =~= rule_views(before).push((path@, kind)));
}

/// The rules of a child's filesystem sandbox (see `landlock_rules_spec`).
pub fn landlock_rules(root_path: &str, allowed_paths: &[String]) -> (r: Option<Vec<PathRule>>)
    ensures
        match landlock_rules_spec(root_path@, allowed_paths@.map_values(|s: String| s@)) {
            None => r is None,
            Some(spec) => r matches Some(rules) && rule_views(rules@) == spec,
        },
{
    let ghost allowed = allowed_paths@.map_values(|s: String| s@);
    if root_path.unicode_len() == 0 && allowed_paths.len() == 0 {
        return None;
    }
    let mut rules: Vec<PathRule> = Vec::new();
    proof {
        reveal_strlit("/usr");
        reveal_strlit("/lib");
    }
    push_rule(&mut rules, "/usr", RuleKind::System);
    push_rule(&mut rules, "/lib", RuleKind::System);
    push_rule(&mut rules, "/lib64", RuleKind::System);
    push_rule(&mut rules, "/lib32", RuleKind::System);
    push_rule(&mut rules, "/etc/fonts", RuleKind::System);
    push_rule(&mut rules, "/proc/self", RuleKind::System);
    push_rule(&mut rules, "/dev", RuleKind::System);
    push_rule(&mut rules, "/tmp/.X11-unix", RuleKind::X11);
    let ghost fixed = rule_views(rules@);
    assert(fixed =~= system_dirs().map_values(|p: Seq<char>| (p, RuleKind::System))
        + seq![(x11_socket_dir(), RuleKind::X11)]);
    if allowed_paths.len() > 0 {
        let mut i: usize = 0;
        while i < allowed_paths.len()
            invariant
                allowed == allowed_paths@.map_values(|s: String| s@),
                0 <= i <= allowed_paths@.len(),
                rule_views(rules@) == fixed
                    + allowed.subrange(0, i as int).map_values(|p: Seq<char>| (p, RuleKind::Data)),
            decreases allowed_paths@.len() - i,
        {
            push_rule(&mut rules, allowed_paths[i].as_str(), RuleKind::Data);
            i += 1;
            assert(allowed.subrange(0, i as int).map_values(|p: Seq<char>| (p, RuleKind::Data))
                =~= allowed.subrange(0, i - 1).map_values(|p: Seq<char>| (p, RuleKind::Data))
                    .push((allowed[i - 1], RuleKind::Data)));
        }
        assert(allowed.subrange(0, allowed_paths@.len() as int) =~= allowed);
    } else {
        push_rule(&mut rules, root_path, RuleKind::Data);
        assert(seq![root_path@].map_values(|p: Seq<char>| (p, RuleKind::Data)) =~= seq![(root_path@, RuleKind::Data)]);
    }
    Some(rules)
}

/// The rights a rule of a kind grants: everything for data paths,
/// reading and running for system and X11 paths.
pub open spec fn rule_access(kind: RuleKind) -> RuleAccess {
    match kind {
        RuleKind::Data => RuleAccess::Full,
        _ => RuleAccess::ReadExecute,
    }
}

/// Whether a record entry is one planned rule's fate: the same path, and
/// either a rule with the rights of its kind, or the path missing or
/// unopenable (and so skipped).
pub open spec fn follows_planned_rule(entry: (Seq<char>, PathOutcome), planned: (Seq<char>, RuleKind)) -> bool {
    &&& entry.0 == planned.0
    &&& (entry.1 == PathOutcome::Granted(rule_access(planned.1))
        || entry.1 == PathOutcome::Missing
        || entry.1 == PathOutcome::Unopenable)
}

/// Whether a ruleset's record goes through the planned rules one by one,
/// in order.
pub open spec fn log_follows_plan(log: Seq<(Seq<char>, PathOutcome)>, plan: Seq<(Seq<char>, RuleKind)>) -> bool {
    &&& log.len() == plan.len()
    &&& forall|j: int| 0 <= j < plan.len() ==> follows_planned_rule(#[trigger] log[j], plan[j])
}

/// The rights of a granted rule follow its path's kind: in a record that
/// goes through a plan, every data path that was granted a rule got every
/// filesystem right of ABI 3, and every system or X11 path that was
/// granted a rule got reading and running only.
pub proof fn lemma_granted_rights_by_kind(log: Seq<(Seq<char>, PathOutcome)>, plan: Seq<(Seq<char>, RuleKind)>)
    requires
        log_follows_plan(log, plan),
    ensures
        forall|j: int| 0 <= j < plan.len() && (#[trigger] log[j]).1 is Granted && plan[j].1 == RuleKind::Data
            ==> log[j].1 == PathOutcome::Granted(RuleAccess::Full),
        forall|j: int| 0 <= j < plan.len() && (#[trigger] log[j]).1 is Granted && plan[j].1 != RuleKind::Data
            ==> log[j].1 == PathOutcome::Granted(RuleAccess::ReadExecute),
{
    assert forall|j: int| 0 <= j < plan.len() && (#[trigger] log[j]).1 is Granted implies
        (plan[j].1 == RuleKind::Data ==> log[j].1 == PathOutcome::Granted(RuleAccess::Full))
        && (plan[j].1 != RuleKind::Data ==> log[j].1 == PathOutcome::Granted(RuleAccess::ReadExecute)) by {
        assert(follows_planned_rule(log[j], plan[j]));
    }
}

/// The Landlock call that failed.
#[derive(Debug, Clone, Copy, PartialEq, Eq, Structural)]
pub enum LandlockStep {
    HandleAccess,
    Create,
    AddSystemRule,
    AddX11Rule,
    AddDataRule,
    RestrictSelf,
}

/// Start of the message of a failed step.
pub open spec fn step_prefix(step: LandlockStep) -> Seq<char> {
    match step {
        LandlockStep::HandleAccess => "Landlock handle_access: "@,
        LandlockStep::Create => "Landlock create: "@,
        LandlockStep::AddSystemRule => "Landlock add system rule: "@,
        LandlockStep::AddX11Rule => "Landlock add X11 rule: "@,
        LandlockStep::AddDataRule => "Landlock add data rule: "@,
        LandlockStep::RestrictSelf => "Landlock restrict_self: "@,
    }
}

/// The step of adding a rule of a kind.
pub open spec fn add_step(kind: RuleKind) -> LandlockStep {
    match kind {
        RuleKind::System => LandlockStep::AddSystemRule,
        RuleKind::X11 => LandlockStep::AddX11Rule,
        RuleKind::Data => LandlockStep::AddDataRule,
    }
}

/// Whether a step names the call that failed, on the way through a plan:
/// handling the rights, creating the ruleset, or restricting the process
/// (after every planned rule went through) name themselves; a failed rule
/// is the next planned one after those that went through, with the rights
/// of its kind, and its step is the one of that kind.
pub open spec fn step_names_failure(step: LandlockStep, f: LandlockFailure, plan: Seq<(Seq<char>, RuleKind)>) -> bool {
    match f.call() {
        LandlockCall::HandleAccess => step == LandlockStep::HandleAccess,
        LandlockCall::Create => step == LandlockStep::Create,
        LandlockCall::RestrictSelf => step == LandlockStep::RestrictSelf && log_follows_plan(f.log(), plan),
        LandlockCall::AddRule => {
            let k = f.log().len() as int;
            &&& k < plan.len()
            &&& log_follows_plan(f.log(), plan.subrange(0, k))
            &&& f.rule() == (plan[k].0, rule_access(plan[k].1))
            &&& step == add_step(plan[k].1)
        },
    }
}

/// A failed Landlock call: which step, the message (the step's prefix,
/// then the Landlock error's text), and the failure the call returned.
pub struct LandlockError {
    pub step: LandlockStep,
    pub message: String,
    pub cause: LandlockFailure,
}

/// What applying the restrictions did.
pub enum LandlockOutcome {
    /// Nothing to restrict to: the process runs unrestricted.
    Unrestricted,
    /// The process is restricted with these rules.
    Restricted(Restriction),
}

/// The error of a failed step: its prefix, then the Landlock error's text.
fn step_error(step: LandlockStep, cause: LandlockFailure) -> (r: LandlockError)
    ensures
        r.step == step,
        r.cause == cause,
        r.message@.len() >= step_prefix(step).len(),
        r.message@.subrange(0, step_prefix(step).len() as int) == step_prefix(step),
{
    let mut message = match step {
        LandlockStep::HandleAccess => String::from_str("Landlock handle_access: "),
        LandlockStep::Create => String::from_str("Landlock create: "),
        LandlockStep::AddSystemRule => String::from_str("Landlock add system rule: "),
        LandlockStep::AddX11Rule => String::from_str("Landlock add X11 rule: "),
        LandlockStep::AddDataRule => String::from_str("Landlock add data rule: "),
        LandlockStep::RestrictSelf => String::from_str("Landlock restrict_self: "),
    };
    let ghost prefix = message@;
    let detail = cause.error_text();
    message.append(detail.as_str());
    assert(message@.subrange(0, prefix.len() as int) =~= prefix);
    LandlockError { step, message, cause }
}

/// Applies the Landlock filesystem restrictions to the calling process
/// (meant for a child between fork and exec): `root_path` is the owner's
/// storage root, `allowed_paths` the client's allowed paths (which take
/// its place when there are any). With neither, nothing is restricted.
/// Otherwise every filesystem right of ABI 3 is handled and the rules of
/// `landlock_rules` are added in order: data paths with every right,
/// system and X11 paths with reading and running only; a path is skipped
/// exactly when the existence check says it is missing or opening it
/// fails. The ruleset is then handed to `restrict_self`. What is stated
/// rests on the record the Landlock wrappers keep of their calls' results;
/// how far the kernel enforces the restriction is its reported status. A
/// failing Landlock call ends it with an error naming that call and
/// carrying the failure it returned.
pub fn apply_landlock(root_path: &str, allowed_paths: &[String]) -> (r: Result<LandlockOutcome, LandlockError>)
    ensures
        match landlock_rules_spec(root_path@, allowed_paths@.map_values(|s: String| s@)) {
            None => r matches Ok(LandlockOutcome::Unrestricted),
            Some(plan) => match r {
                Ok(outcome) => outcome matches LandlockOutcome::Restricted(res)
                    && res.handled() == RuleAccess::Full
                    && log_follows_plan(res.log(), plan)
                    && (forall|j: int| 0 <= j < plan.len() && (#[trigger] res.log()[j]).1 is Granted
                        ==> res.log()[j].1 == (if plan[j].1 == RuleKind::Data {
                            PathOutcome::Granted(RuleAccess::Full)
                        } else {
                            PathOutcome::Granted(RuleAccess::ReadExecute)
                        })),
                Err(e) => e.message@.len() >= step_prefix(e.step).len()
                    && e.message@.subrange(0, step_prefix(e.step).len() as int) == step_prefix(e.step)
                    && step_names_failure(e.step, e.cause, plan),
            },
        },
{
    let rules = match landlock_rules(root_path, allowed_paths) {
        None => return Ok(LandlockOutcome::Unrestricted),
        Some(rules) => rules,
    };
    let ghost plan = rule_views(rules@);
    let handled = match handle_all_fs_access(default_ruleset()) {
        Ok(h) => h,
        Err(f) => return Err(step_error(LandlockStep::HandleAccess, f)),
    };
    let mut ruleset: LandlockRuleset = match create_ruleset(handled) {
        Ok(r) => r,
        Err(f) => return Err(step_error(LandlockStep::Create, f)),
    };
    let mut i: usize = 0;
    while i < rules.len()
        invariant
            plan == rule_views(rules@),
            landlock_rules_spec(root_path@, allowed_paths@.map_values(|s: String| s@)) == Some(plan),
            0 <= i <= rules@.len(),
            ruleset.handled() == RuleAccess::Full,
            log_follows_plan(ruleset.log(), plan.subrange(0, i as int)),
        decreases rules@.len() - i,
    {
        let rule = &rules[i];
        let ghost before = ruleset.log();
        assert(plan[i as int] == (rule.path@, rule.kind));
        if path_exists(&mut ruleset, rule.path.as_str()) {
            match open_path_fd(&mut ruleset, rule.path.as_str()) {
                Some(fd) => {
                    let added = match rule.kind {
                        RuleKind::Data => add_full_access_rule(ruleset, fd),
                        _ => add_read_execute_rule(ruleset, fd),
                    };
                    ruleset = match added {
                        Ok(r) => r,
                        Err(f) => {
                            let step = match rule.kind {
                                RuleKind::System => LandlockStep::AddSystemRule,
                                RuleKind::X11 => LandlockStep::AddX11Rule,
                                RuleKind::Data => LandlockStep::AddDataRule,
                            };
                            proof {
                                assert(before.len() == i);
                                assert(plan.subrange(0, i as int) == plan.subrange(0, before.len() as int));
                            }
                            return Err(step_error(step, f));
                        },
                    };
                },
                None => {},
            }
        }
        assert(ruleset.log() == before.push(ruleset.log().last()));
        assert forall|j: int| 0 <= j < i + 1 implies follows_planned_rule(#[trigger] ruleset.log()[j], plan.subrange(0, i + 1)[j]) by {
            if j < i {
                assert(ruleset.log()[j] == before[j]);
                assert(plan.subrange(0, i as int)[j] == plan[j]);
            }
        }
        i += 1;
    }
    assert(plan.subrange(0, rules@.len() as int) =~= plan);
    match restrict_self(ruleset) {
        Ok(res) => {
            proof {
                lemma_granted_rights_by_kind(res.log(), plan);
            }
            Ok(LandlockOutcome::Restricted(res))
        },
        Err(f) => Err(step_error(LandlockStep::RestrictSelf, f)),
    }
}

} // verus!
