//! Schema migrations: the ordered list of steps and the selection rules for
//! applying and rolling back. Executing the selected statements against the
//! store is the shell's job.

use vstd::prelude::*;

verus! {

/// One schema migration step.
#[derive(Debug, Clone)]
pub struct Migration {
    pub version: u32,
    pub name: String,
    pub up: String,
    pub down: String,
}

/// The migrations this service knows, in ascending version order.
pub fn builtin_migrations() -> (r: Vec<Migration>)
    ensures
        r@.len() == 2,
        r@[0].version == 1,
        r@[1].version == 2,
        spec_versions_ascending(r@),
{
    let first = Migration {
        version: 1,
        name: "add_embedding_fields".to_owned(),
        up:
            "DEFINE FIELD IF NOT EXISTS embedding ON TABLE repo TYPE option<array<float>>;\nDEFINE FIELD IF NOT EXISTS embedding_generated_at ON TABLE repo TYPE option<datetime>;"
                .to_owned(),
        down:
            "REMOVE FIELD embedding ON TABLE repo;\nREMOVE FIELD embedding_generated_at ON TABLE repo;"
                .to_owned(),
    };
    let second = Migration {
        version: 2,
        name: "add_embedding_indexes".to_owned(),
        up:
            "DEFINE INDEX IF NOT EXISTS idx_repo_embedding_generated_at ON TABLE repo COLUMNS embedding_generated_at;"
                .to_owned(),
        down: "REMOVE INDEX idx_repo_embedding_generated_at ON TABLE repo;".to_owned(),
    };
    let mut out: Vec<Migration> = Vec::new();
    out.push(first);
    out.push(second);
    out
}

/// Versions strictly increase along the list.
pub open spec fn spec_versions_ascending(s: Seq<Migration>) -> bool {
    forall|i: int, j: int|
        0 <= i < j < s.len() ==> (#[trigger] s[i]).version < (#[trigger] s[j]).version
}

/// The migrations that still have to run on a store at `current_version`:
/// exactly those with a later version, in their original order.
pub fn pending_migrations(migrations: Vec<Migration>, current_version: u32) -> (r: Vec<Migration>)
    ensures
        r@ == spec_later_than(migrations@, current_version),
{
    let ghost orig = migrations@;
    let mut out: Vec<Migration> = Vec::new();
    let mut source = migrations;
    let ghost mut consumed: int = 0;
    loop
        invariant
            orig == migrations@,
            0 <= consumed <= orig.len(),
            source@ =~= orig.subrange(consumed, orig.len() as int),
            out@ =~= spec_later_than(orig.subrange(0, consumed), current_version),
        decreases orig.len() - consumed + 1,
    {
        proof {
            if consumed < orig.len() {
                assert(orig.subrange(0, consumed + 1).drop_last() =~= orig.subrange(0, consumed));
                assert(orig.subrange(0, consumed + 1).last() == orig[consumed]);
            }
        }
        if source.len() == 0 {
            proof {
                assert(orig.subrange(0, consumed) =~= orig);
            }
            return out;
        }
        let m = source.remove(0);
        proof {
            assert(m == orig[consumed]);
            assert(source@ =~= orig.subrange(consumed + 1, orig.len() as int));
        }
        if m.version > current_version {
            out.push(m);
        }
        proof {
            consumed = consumed + 1;
        }
    }
}

/// The subsequence with versions above `current_version`, in order.
pub open spec fn spec_later_than(s: Seq<Migration>, current_version: u32) -> Seq<Migration>
    decreases s.len(),
{
    if s.len() == 0 {
        Seq::empty()
    } else {
        let head = spec_later_than(s.drop_last(), current_version);
        if s.last().version > current_version {
            head.push(s.last())
        } else {
            head
        }
    }
}

/// The migrations to undo when rolling back from `current_version` to
/// `target_version`: those with versions in between, newest first.
pub fn rollback_selection(migrations: Vec<Migration>, target_version: u32, current_version: u32) -> (r:
    Vec<Migration>)
    ensures
        r@ == spec_rollback_of(migrations@, target_version, current_version),
{
    let ghost orig = migrations@;
    let mut out: Vec<Migration> = Vec::new();
    let mut source = migrations;
    let ghost mut consumed: int = 0;
    loop
        invariant
            orig == migrations@,
            0 <= consumed <= orig.len(),
            source@ =~= orig.subrange(consumed, orig.len() as int),
            out@ =~= spec_rollback_of(orig.subrange(0, consumed), target_version, current_version),
        decreases orig.len() - consumed + 1,
    {
        proof {
            if consumed < orig.len() {
                assert(orig.subrange(0, consumed + 1).drop_last() =~= orig.subrange(0, consumed));
                assert(orig.subrange(0, consumed + 1).last() == orig[consumed]);
            }
        }
        if source.len() == 0 {
            proof {
                assert(orig.subrange(0, consumed) =~= orig);
            }
            return out;
        }
        let m = source.remove(0);
        proof {
            assert(m == orig[consumed]);
            assert(source@ =~= orig.subrange(consumed + 1, orig.len() as int));
        }
        if m.version > target_version && m.version <= current_version {
            out.insert(0, m);
        }
        proof {
            consumed = consumed + 1;
        }
    }
}

/// The migrations with versions in `(target, current]`, reversed so the
/// newest is undone first.
pub open spec fn spec_rollback_of(
    s: Seq<Migration>,
    target_version: u32,
    current_version: u32,
) -> Seq<Migration>
    decreases s.len(),
{
    if s.len() == 0 {
        Seq::empty()
    } else {
        let tail = spec_rollback_of(s.drop_last(), target_version, current_version);
        if s.last().version > target_version && s.last().version <= current_version {
            seq![s.last()] + tail
        } else {
            tail
        }
    }
}

} // verus!
