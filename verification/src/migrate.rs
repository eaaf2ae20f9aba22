//! Config migrations keyed by `config_version`.

use vstd::prelude::*;

use crate::config::{AppConfig, CONFIG_VERSION_LATEST};
use crate::text::{decimal, push_decimal, to_owned_string};

verus! {

/// One plan line per step from `from` up to the latest version.
pub open spec fn migration_steps(from: nat) -> Seq<char>
    decreases CONFIG_VERSION_LATEST - from,
{
    if from >= CONFIG_VERSION_LATEST {
        seq![]
    } else {
        seq!['\n'] + "would migrate "@ + decimal(from) + " -> "@ + decimal(from + 1)
            + migration_steps(from + 1)
    }
}

/// The migration plan shown by `clai migrate dry-run` for a config at version `v`.
pub open spec fn dry_run_plan(v: nat) -> Seq<char> {
    "current config_version: "@ + decimal(v) + if v >= CONFIG_VERSION_LATEST {
        seq!['\n'] + "no migration needed."@
    } else {
        migration_steps(v)
    }
}

/// The migration plan for a config at version `config_version` (nothing is changed).
pub fn dry_run(config_version: u32) -> (r: String)
    ensures
        r@ == dry_run_plan(config_version as nat),
{
    let mut out = to_owned_string("current config_version: ");
    push_decimal(&mut out, config_version as u64);
    if config_version >= CONFIG_VERSION_LATEST {
        out.append("\n");
        out.append("no migration needed.");
        proof {
            reveal_strlit("\n");
        }
        assert(out@ =~= dry_run_plan(config_version as nat));
        return out;
    }
    let ghost start = out@;
    let mut v: u32 = config_version;
    while v < CONFIG_VERSION_LATEST
        invariant
            config_version <= v <= CONFIG_VERSION_LATEST,
            start + migration_steps(config_version as nat) == out@ + migration_steps(v as nat),
        decreases CONFIG_VERSION_LATEST - v,
    {
        let next = v + 1;
        let ghost before = out@;
        out.append("\n");
        out.append("would migrate ");
        push_decimal(&mut out, v as u64);
        out.append(" -> ");
        push_decimal(&mut out, next as u64);
        proof {
            reveal_strlit("\n");
        }
        assert(before + migration_steps(v as nat) =~= out@ + migration_steps(next as nat));
        v = next;
    }
    assert(out@ + migration_steps(v as nat) =~= out@);
    out
}

/// One migration step to version `target`.
fn apply_step(c: &mut AppConfig, target: u32)
    ensures
        *final(c) == (AppConfig { config_version: target, ..*old(c) }),
{
    c.config_version = target;
}

/// Bring a config up to the latest version; nothing else changes.
pub fn apply(c: &mut AppConfig)
    ensures
        *final(c) == (AppConfig {
            config_version: if old(c).config_version < CONFIG_VERSION_LATEST {
                CONFIG_VERSION_LATEST
            } else {
                old(c).config_version
            },
            ..*old(c)
        }),
{
    while c.config_version < CONFIG_VERSION_LATEST
        invariant
            *c == (AppConfig {
                config_version: c.config_version,
                ..*old(c)
            }),
            old(c).config_version <= c.config_version,
            old(c).config_version < CONFIG_VERSION_LATEST ==> c.config_version
                <= CONFIG_VERSION_LATEST,
            old(c).config_version >= CONFIG_VERSION_LATEST ==> c.config_version == old(
                c,
            ).config_version,
        decreases CONFIG_VERSION_LATEST - c.config_version,
    {
        let next = c.config_version + 1;
        apply_step(c, next);
    }
}

} // verus!
