//! The version step of a spec migration.

use vstd::prelude::*;
use crate::error::SpecError;
use crate::text::{owned, str_eq};

verus! {

/// What migrating a spec of version `current` to `target` does: nothing
/// when the versions agree (`Ok(None)`), a move to the new version
/// (`Ok(Some(version))`) from `1.0` to `2.0`, and a version mismatch for
/// anything else.
pub open spec fn migration(current: Seq<char>, target: Seq<char>) -> Result<Option<Seq<char>>, (Seq<char>, Seq<char>)> {
    if current == target {
        Ok(None)
    } else if current == "1.0"@ && target == "2.0"@ {
        Ok(Some("2.0"@))
    } else {
        Err(("1.0"@, current))
    }
}

/// The new version of a spec of version `current` migrated to `target`,
/// `None` when nothing changes.
pub fn migration_step(current: &str, target: &str) -> (r: Result<Option<String>, SpecError>)
    ensures
        match r {
            Ok(None) => migration(current@, target@) == Ok::<Option<Seq<char>>, (Seq<char>, Seq<char>)>(None),
            Ok(Some(v)) => migration(current@, target@) == Ok::<Option<Seq<char>>, (Seq<char>, Seq<char>)>(Some(v@)),
            Err(SpecError::VersionMismatch { expected, found }) => migration(current@, target@)
                == Err::<Option<Seq<char>>, (Seq<char>, Seq<char>)>((expected@, found@)),
            Err(_) => false,
        },
{
    if str_eq(current, target) {
        return Ok(None);
    }
    if str_eq(current, "1.0") && str_eq(target, "2.0") {
        return Ok(Some(owned("2.0")));
    }
    Err(SpecError::VersionMismatch { expected: owned("1.0"), found: owned(current) })
}

/// A migration lands on its target: migrating the result again to the same
/// target changes nothing.
pub proof fn law_migration_settles(current: Seq<char>, target: Seq<char>, v: Seq<char>)
    requires
        migration(current, target) == Ok::<Option<Seq<char>>, (Seq<char>, Seq<char>)>(Some(v)),
    ensures
        v == target,
        migration(v, target) == Ok::<Option<Seq<char>>, (Seq<char>, Seq<char>)>(None),
{
}

} // verus!
