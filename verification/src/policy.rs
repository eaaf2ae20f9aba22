//! The safety policy applied to every proposal before anything runs.

use vstd::prelude::*;

use crate::path::{
    normalize_parts, normalize_parts_exec, parts_start_with, parts_starts_with,
    path_components, spec_path_components,
};
use crate::schema::{opt_str, strs, CommandProposal};
use crate::text::{
    contains, eq_ignore_ascii_case, eq_ignore_ascii_case_spec, push_char, seq_contains, str_eq,
    spec_to_lowercase, to_lowercase, to_owned_string,
};

verus! {

/// How risky a proposed command is.
#[derive(Debug, Clone, Copy, PartialEq, Eq, Structural)]
pub enum RiskTier {
    ReadOnly,
    Standard,
    Sensitive,
    Destructive,
}

/// What the policy decided about one proposal.
#[derive(Debug, Clone)]
pub struct PolicyDecision {
    pub tier: RiskTier,
    pub requires_confirmation: bool,
    pub blocked: bool,
    pub reason: Option<String>,
}

/// The policy: a directory that proposals may not leave, and an optional allowlist of programs.
pub struct PolicyEngine {
    pub jail_root: String,
    pub strict_allowlist: bool,
    pub allowlist_bins: Vec<String>,
}

/// `args` joined with single spaces (what `[String]::join(" ")` returns).
pub open spec fn join_spaces(v: Seq<Seq<char>>) -> Seq<char>
    decreases v.len(),
{
    if v.len() == 0 {
        seq![]
    } else if v.len() == 1 {
        v[0]
    } else {
        join_spaces(v.drop_last()) + seq![' '] + v.last()
    }
}

/// The command line the policy inspects: program, a space, then the arguments joined by spaces.
pub open spec fn command_text(p: CommandProposal) -> Seq<char> {
    p.program@ + seq![' '] + join_spaces(strs(p.args@))
}

/// The substrings that block a command outright (matched against the lowercased command line).
pub open spec fn is_blocked_spec(s: Seq<char>) -> bool {
    ||| seq_contains(s, "rm -rf /"@)
    ||| seq_contains(s, "rm -rf /*"@)
    ||| seq_contains(s, "mkfs"@)
    ||| seq_contains(s, "dd if="@)
    ||| seq_contains(s, ":(){"@)
    ||| seq_contains(s, "chmod -r 777"@)
    ||| seq_contains(s, "chmod 777 -r"@)
    ||| seq_contains(s, "> /dev/sd"@)
    ||| seq_contains(s, "format "@)
    ||| seq_contains(s, "diskpart"@)
}

/// Whether `s` contains one of the high-risk patterns.
pub fn is_blocked_pattern(s: &str) -> (r: bool)
    ensures
        r == is_blocked_spec(s@),
        seq_contains(s@, "rm -rf /"@)
            || seq_contains(s@, "mkfs"@)
            || seq_contains(s@, "dd if="@)
            || seq_contains(s@, ":(){"@)
            || seq_contains(s@, "chmod -r 777"@)
            || seq_contains(s@, "chmod 777 -r"@)
            || seq_contains(s@, "> /dev/sd"@)
            || seq_contains(s@, "format "@)
            || seq_contains(s@, "diskpart"@) ==> r,
        r ==> seq_contains(s@, "rm -rf /"@)
            || seq_contains(s@, "mkfs"@)
            || seq_contains(s@, "dd if="@)
            || seq_contains(s@, ":(){"@)
            || seq_contains(s@, "chmod -r 777"@)
            || seq_contains(s@, "chmod 777 -r"@)
            || seq_contains(s@, "> /dev/sd"@)
            || seq_contains(s@, "format "@)
            || seq_contains(s@, "diskpart"@),
{
    let r = contains(s, "rm -rf /") || contains(s, "rm -rf /*") || contains(s, "mkfs") || contains(
        s,
        "dd if=",
    ) || contains(s, ":(){") || contains(s, "chmod -r 777") || contains(s, "chmod 777 -r")
        || contains(s, "> /dev/sd") || contains(s, "format ") || contains(s, "diskpart");
    proof {
        lemma_blocked_spec_patterns(s@);
    }
    r
}

/// `rm -rf /*` needs no pattern of its own: every text that contains it contains `rm -rf /`.
proof fn lemma_blocked_spec_patterns(s: Seq<char>)
    ensures
        seq_contains(s, "rm -rf /*"@) ==> seq_contains(s, "rm -rf /"@),
{
    reveal_strlit("rm -rf /*");
    reveal_strlit("rm -rf /");
    if seq_contains(s, "rm -rf /*"@) {
        assert("rm -rf /*"@.subrange(0, 8) =~= "rm -rf /"@);
        lemma_contains_prefix(s, "rm -rf /"@, "rm -rf /*"@);
    }
}

/// The tier a program (lowercased) and its full command line (lowercased) fall into, if any.
pub open spec fn sensitive_tier_spec(program: Seq<char>, full: Seq<char>) -> Option<RiskTier> {
    if program == "rm"@ || program == "shred"@ || program == "mkfs"@ || program == "dd"@ {
        Some(RiskTier::Destructive)
    } else if seq_contains(full, "rm -rf"@) || (seq_contains(full, "curl"@) && seq_contains(
        full,
        "|"@,
    )) {
        Some(RiskTier::Destructive)
    } else if program == "sudo"@ || program == "su"@ || program == "chmod"@ || program
        == "chown"@ || program == "diskutil"@ || program == "fdisk"@ || program == "mount"@ {
        Some(RiskTier::Sensitive)
    } else if program == "ls"@ || program == "cat"@ || program == "head"@ || program == "tail"@
        || program == "less"@ || program == "find"@ || program == "grep"@ || program
        == "which"@ || program == "pwd"@ {
        Some(RiskTier::ReadOnly)
    } else {
        None
    }
}

/// Classify a lowercased program name and command line.
pub fn sensitive_tier(program: &str, full: &str) -> (r: Option<RiskTier>)
    ensures
        r == sensitive_tier_spec(program@, full@),
{
    if str_eq(program, "rm") || str_eq(program, "shred") || str_eq(program, "mkfs") || str_eq(
        program,
        "dd",
    ) {
        return Some(RiskTier::Destructive);
    }
    if contains(full, "rm -rf") || (contains(full, "curl") && contains(full, "|")) {
        return Some(RiskTier::Destructive);
    }
    if str_eq(program, "sudo") || str_eq(program, "su") || str_eq(program, "chmod") || str_eq(
        program,
        "chown",
    ) || str_eq(program, "diskutil") || str_eq(program, "fdisk") || str_eq(program, "mount") {
        return Some(RiskTier::Sensitive);
    }
    if str_eq(program, "ls") || str_eq(program, "cat") || str_eq(program, "head") || str_eq(
        program,
        "tail",
    ) || str_eq(program, "less") || str_eq(program, "find") || str_eq(program, "grep")
        || str_eq(program, "which") || str_eq(program, "pwd") {
        return Some(RiskTier::ReadOnly);
    }
    None
}

/// A working directory stays inside the jail: its lexically normalized components begin with the
/// jail root's components.
pub open spec fn within_jail(cwd: Seq<char>, jail_root: Seq<char>) -> bool {
    parts_start_with(
        normalize_parts(spec_path_components(cwd)),
        spec_path_components(jail_root),
    )
}

/// Message when a proposal's working directory leaves the jail.
pub open spec fn jail_message(cwd: Seq<char>, jail_root: Seq<char>) -> Seq<char> {
    "cwd "@ + cwd + " escapes jail root "@ + jail_root
}

/// The decision as plain values: tier, whether confirmation is needed, whether blocked, reason.
pub open spec fn decision_view(d: PolicyDecision) -> (RiskTier, bool, bool, Option<Seq<char>>) {
    (d.tier, d.requires_confirmation, d.blocked, opt_str(d.reason))
}

/// The program is listed in the allowlist, compared without ASCII case.
pub open spec fn allowlisted(bins: Seq<Seq<char>>, program: Seq<char>) -> bool {
    exists|i: int| 0 <= i < bins.len() && eq_ignore_ascii_case_spec(#[trigger] bins[i], program)
}

/// What the policy decides for `p`, checked in order: allowlist, blocklist, working-directory
/// jail, program/command tiers (read-only programs need no extra confirmation), shell request.
pub open spec fn decide(
    jail_root: Seq<char>,
    strict_allowlist: bool,
    bins: Seq<Seq<char>>,
    p: CommandProposal,
) -> (RiskTier, bool, bool, Option<Seq<char>>) {
    let program_lower = spec_to_lowercase(p.program@);
    let joined = spec_to_lowercase(command_text(p));
    if strict_allowlist && bins.len() > 0 && !allowlisted(bins, p.program@) {
        (RiskTier::Destructive, true, true, Some("program not in allowlist"@))
    } else if is_blocked_spec(joined) {
        (RiskTier::Destructive, true, true, Some("matches high-risk blocklist"@))
    } else if p.cwd is Some && !within_jail(p.cwd->0@, jail_root) {
        (RiskTier::Sensitive, true, true, Some(jail_message(p.cwd->0@, jail_root)))
    } else if sensitive_tier_spec(program_lower, joined) is Some {
        let t = sensitive_tier_spec(program_lower, joined)->0;
        (t, t != RiskTier::ReadOnly, t == RiskTier::Destructive, None)
    } else if p.needs_shell {
        (RiskTier::Sensitive, true, false, Some("shell execution requested"@))
    } else {
        (RiskTier::Standard, false, false, None)
    }
}


/// Every command line whose lowercased text contains one of the high-risk patterns (`rm -rf /`,
/// `mkfs`, `dd if=`, `:(){`, `chmod -r 777`, `chmod 777 -r`, `> /dev/sd`, `format `, `diskpart`)
/// is blocked as destructive and needs confirmation; unless the allowlist rejected the program
/// first, the reason given is "matches high-risk blocklist". A command line with none of them is
/// never blocked for that reason.
pub proof fn lemma_blocklist_blocks(
    jail_root: Seq<char>,
    strict_allowlist: bool,
    bins: Seq<Seq<char>>,
    p: CommandProposal,
)
    ensures
        ({
            let line = spec_to_lowercase(command_text(p));
            let d = decide(jail_root, strict_allowlist, bins, p);
            &&& (seq_contains(line, "rm -rf /"@)
                || seq_contains(line, "mkfs"@)
                || seq_contains(line, "dd if="@)
                || seq_contains(line, ":(){"@)
                || seq_contains(line, "chmod -r 777"@)
                || seq_contains(line, "chmod 777 -r"@)
                || seq_contains(line, "> /dev/sd"@)
                || seq_contains(line, "format "@)
                || seq_contains(line, "diskpart"@)) ==> d.0 == RiskTier::Destructive && d.1 && d.2
            &&& (seq_contains(line, "rm -rf /"@)
                || seq_contains(line, "mkfs"@)
                || seq_contains(line, "dd if="@)
                || seq_contains(line, ":(){"@)
                || seq_contains(line, "chmod -r 777"@)
                || seq_contains(line, "chmod 777 -r"@)
                || seq_contains(line, "> /dev/sd"@)
                || seq_contains(line, "format "@)
                || seq_contains(line, "diskpart"@)) && !(strict_allowlist && bins.len() > 0 && !allowlisted(bins, p.program@))
                ==> d.3 == Some("matches high-risk blocklist"@)
            &&& d.3 == Some("matches high-risk blocklist"@) ==> (seq_contains(line, "rm -rf /"@)
                || seq_contains(line, "mkfs"@)
                || seq_contains(line, "dd if="@)
                || seq_contains(line, ":(){"@)
                || seq_contains(line, "chmod -r 777"@)
                || seq_contains(line, "chmod 777 -r"@)
                || seq_contains(line, "> /dev/sd"@)
                || seq_contains(line, "format "@)
                || seq_contains(line, "diskpart"@))
        }),
{
    let line = spec_to_lowercase(command_text(p));
    reveal_strlit("matches high-risk blocklist");
    reveal_strlit("program not in allowlist");
    reveal_strlit("shell execution requested");
    reveal_strlit("cwd ");
    lemma_blocked_spec_patterns(line);
    if p.cwd is Some {
        let m = jail_message(p.cwd->0@, jail_root);
        assert(m[0] == 'c');
        assert("matches high-risk blocklist"@[0] == 'm');
        assert(m != "matches high-risk blocklist"@);
    }
    assert("program not in allowlist"@ != "matches high-risk blocklist"@) by {
        assert("program not in allowlist"@[0] != "matches high-risk blocklist"@[0]);
    }
    assert("shell execution requested"@ != "matches high-risk blocklist"@) by {
        assert("shell execution requested"@[0] != "matches high-risk blocklist"@[0]);
    }
}

/// A text that contains `longer` contains every prefix of it.
proof fn lemma_contains_prefix(s: Seq<char>, shorter: Seq<char>, longer: Seq<char>)
    requires
        seq_contains(s, longer),
        shorter.len() <= longer.len(),
        longer.subrange(0, shorter.len() as int) == shorter,
    ensures
        seq_contains(s, shorter),
{
    let i = choose|i: int| 0 <= i && i + longer.len() <= s.len() && #[trigger] s.subrange(i, i + longer.len()) == longer;
    assert(s.subrange(i, i + shorter.len()) =~= longer.subrange(0, shorter.len() as int));
}

/// Builds `program + " " + args.join(" ")`.
fn command_line_text(p: &CommandProposal) -> (r: String)
    ensures
        r@ == command_text(*p),
{
    let mut out = to_owned_string(p.program.as_str());
    push_char(&mut out, ' ');
    let ghost base = out@;
    let mut i: usize = 0;
    while i < p.args.len()
        invariant
            i <= p.args.len(),
            base == p.program@ + seq![' '],
            out@ == base + join_spaces(strs(p.args@.subrange(0, i as int))),
        decreases p.args.len() - i,
    {
        let ghost prev = strs(p.args@.subrange(0, i as int));
        if i > 0 {
            push_char(&mut out, ' ');
        }
        out.append(p.args[i].as_str());
        proof {
            let next = strs(p.args@.subrange(0, i + 1));
            assert(next.drop_last() =~= prev);
            assert(next.last() == p.args@[i as int]@);
            if i == 0 {
                assert(prev =~= seq![]);
                assert(next.len() == 1);
            }
        }
        i = i + 1;
        assert(out@ =~= base + join_spaces(strs(p.args@.subrange(0, i as int))));
    }
    assert(p.args@.subrange(0, i as int) =~= p.args@);
    out
}

impl PolicyEngine {
    pub fn new(jail_root: String, strict_allowlist: bool, allowlist_bins: Vec<String>) -> (r: Self)
        ensures
            r.jail_root == jail_root,
            r.strict_allowlist == strict_allowlist,
            r.allowlist_bins == allowlist_bins,
    {
        Self { jail_root, strict_allowlist, allowlist_bins }
    }

    /// Decide whether `proposal` may run, and with which confirmation.
    pub fn evaluate(&self, proposal: &CommandProposal) -> (d: PolicyDecision)
        ensures
            decision_view(d) == decide(
                self.jail_root@,
                self.strict_allowlist,
                strs(self.allowlist_bins@),
                *proposal,
            ),
            d.blocked ==> d.requires_confirmation,
            d.tier == RiskTier::Destructive ==> d.blocked,
            (seq_contains(spec_to_lowercase(command_text(*proposal)), "rm -rf /"@)
                || seq_contains(spec_to_lowercase(command_text(*proposal)), "mkfs"@)
                || seq_contains(spec_to_lowercase(command_text(*proposal)), "dd if="@)
                || seq_contains(spec_to_lowercase(command_text(*proposal)), ":(){"@)
                || seq_contains(spec_to_lowercase(command_text(*proposal)), "chmod -r 777"@)
                || seq_contains(spec_to_lowercase(command_text(*proposal)), "chmod 777 -r"@)
                || seq_contains(spec_to_lowercase(command_text(*proposal)), "> /dev/sd"@)
                || seq_contains(spec_to_lowercase(command_text(*proposal)), "format "@)
                || seq_contains(spec_to_lowercase(command_text(*proposal)), "diskpart"@)) ==> d.blocked && d.tier == RiskTier::Destructive && d.requires_confirmation
                && (!(self.strict_allowlist && self.allowlist_bins@.len() > 0 && !allowlisted(
                strs(self.allowlist_bins@),
                proposal.program@,
            )) ==> opt_str(d.reason) == Some("matches high-risk blocklist"@)),
            d.tier == RiskTier::ReadOnly ==> !d.requires_confirmation && !d.blocked,
            !d.requires_confirmation ==> (d.tier == RiskTier::Standard || d.tier == RiskTier::ReadOnly)
                && !d.blocked,
    {
        let program_lower = to_lowercase(proposal.program.as_str());
        let line = command_line_text(proposal);
        let joined = to_lowercase(line.as_str());
        if self.strict_allowlist && self.allowlist_bins.len() > 0 {
            let ok = self.program_allowlisted(proposal.program.as_str());
            if !ok {
                return PolicyDecision {
                    tier: RiskTier::Destructive,
                    requires_confirmation: true,
                    blocked: true,
                    reason: Some(to_owned_string("program not in allowlist")),
                };
            }
        }
        if is_blocked_pattern(joined.as_str()) {
            return PolicyDecision {
                tier: RiskTier::Destructive,
                requires_confirmation: true,
                blocked: true,
                reason: Some(to_owned_string("matches high-risk blocklist")),
            };
        }
        if let Err(reason) = self.check_cwd_jail(proposal) {
            return PolicyDecision {
                tier: RiskTier::Sensitive,
                requires_confirmation: true,
                blocked: true,
                reason: Some(reason),
            };
        }
        if let Some(tier) = sensitive_tier(program_lower.as_str(), joined.as_str()) {
            let destructive = tier == RiskTier::Destructive;
            let read_only = tier == RiskTier::ReadOnly;
            return PolicyDecision { tier, requires_confirmation: !read_only, blocked: destructive, reason: None };
        }
        if proposal.needs_shell {
            return PolicyDecision {
                tier: RiskTier::Sensitive,
                requires_confirmation: true,
                blocked: false,
                reason: Some(to_owned_string("shell execution requested")),
            };
        }
        PolicyDecision {
            tier: RiskTier::Standard,
            requires_confirmation: false,
            blocked: false,
            reason: None,
        }
    }

    fn program_allowlisted(&self, program: &str) -> (r: bool)
        ensures
            r == allowlisted(strs(self.allowlist_bins@), program@),
    {
        let mut i: usize = 0;
        while i < self.allowlist_bins.len()
            invariant
                i <= self.allowlist_bins.len(),
                forall|t: int|
                    0 <= t < i ==> !eq_ignore_ascii_case_spec(
                        #[trigger] strs(self.allowlist_bins@)[t],
                        program@,
                    ),
            decreases self.allowlist_bins.len() - i,
        {
            if eq_ignore_ascii_case(self.allowlist_bins[i].as_str(), program) {
                assert(strs(self.allowlist_bins@)[i as int] == self.allowlist_bins@[i as int]@);
                return true;
            }
            i = i + 1;
        }
        false
    }

    /// `Ok` when the proposal has no working directory or one inside the jail root; otherwise
    /// the message explaining the escape.
    pub fn check_cwd_jail(&self, proposal: &CommandProposal) -> (r: Result<(), String>)
        ensures
            match proposal.cwd {
                None => r is Ok,
                Some(c) => match r {
                    Ok(_) => within_jail(c@, self.jail_root@),
                    Err(m) => !within_jail(c@, self.jail_root@) && m@ == jail_message(
                        c@,
                        self.jail_root@,
                    ),
                },
            },
    {
        match &proposal.cwd {
            None => Ok(()),
            Some(cwd) => {
                let parts = path_components(cwd.as_str());
                let normalized = normalize_parts_exec(&parts);
                let jail = path_components(self.jail_root.as_str());
                if !parts_starts_with(&normalized, &jail) {
                    let mut m = to_owned_string("cwd ");
                    m.append(cwd.as_str());
                    m.append(" escapes jail root ");
                    m.append(self.jail_root.as_str());
                    return Err(m);
                }
                Ok(())
            },
        }
    }
}

} // verus!
