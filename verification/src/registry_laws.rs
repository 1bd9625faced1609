//! What holds of the merge of the bundled catalog with the user's overrides.
use crate::registry::{
    distinct_identities, first_key, identities, lemma_first_key_from, lookup_model, merge_entry,
    position_of, resolve_model,
};
use crate::storage::ApplicationModel;
use vstd::prelude::*;

verus! {

/// Whether some entry of `entries` has the given process name.
pub open spec fn mentions(entries: Seq<ApplicationModel>, identity: Seq<char>) -> bool {
    exists|k: int| 0 <= k < entries.len() && (#[trigger] entries[k]).process_name == identity
}

/// The last of the entries with the given process name.
pub open spec fn last_mention(entries: Seq<ApplicationModel>, identity: Seq<char>) -> Option<
    ApplicationModel,
>
    decreases entries.len(),
{
    if entries.len() == 0 {
        None
    } else if entries.last().process_name == identity {
        Some(entries.last())
    } else {
        last_mention(entries.drop_last(), identity)
    }
}

/// `position_of` gives the least index whose entry has the process name, and
/// nothing only where no entry has it.
pub proof fn lemma_position(reg: Seq<ApplicationModel>, identity: Seq<char>)
    ensures
        match position_of(reg, identity) {
            Some(i) => {
                &&& 0 <= i < reg.len()
                &&& reg[i].process_name == identity
                &&& forall|j: int| 0 <= j < i ==> (#[trigger] reg[j]).process_name != identity
            },
            None => forall|j: int|
                0 <= j < reg.len() ==> (#[trigger] reg[j]).process_name != identity,
        },
{
    let keys = identities(reg);
    lemma_first_key_from(keys, identity, 0);
    match position_of(reg, identity) {
        Some(i) => {
            assert(keys[i] == reg[i].process_name);
            assert forall|j: int| 0 <= j < i implies (#[trigger] reg[j]).process_name
                != identity by {
                assert(keys[j] == reg[j].process_name);
            }
        },
        None => {
            assert forall|j: int| 0 <= j < reg.len() implies (#[trigger] reg[j]).process_name
                != identity by {
                assert(keys[j] == reg[j].process_name);
            }
        },
    }
}

/// The least index whose entry has the process name is what `position_of`
/// gives.
pub proof fn lemma_position_is(reg: Seq<ApplicationModel>, identity: Seq<char>, i: int)
    requires
        0 <= i < reg.len(),
        reg[i].process_name == identity,
        forall|j: int| 0 <= j < i ==> (#[trigger] reg[j]).process_name != identity,
    ensures
        position_of(reg, identity) == Some(i),
{
    lemma_position(reg, identity);
    match position_of(reg, identity) {
        Some(k) => {
            if k < i {
                assert(reg[k].process_name != identity);
            }
        },
        None => {
            assert(reg[i].process_name != identity);
        },
    }
}

/// Where no entry has the process name, `position_of` gives nothing.
pub proof fn lemma_position_none(reg: Seq<ApplicationModel>, identity: Seq<char>)
    requires
        forall|j: int| 0 <= j < reg.len() ==> (#[trigger] reg[j]).process_name != identity,
    ensures
        position_of(reg, identity) is None,
{
    lemma_position(reg, identity);
    match position_of(reg, identity) {
        Some(k) => {
            assert(reg[k].process_name != identity);
        },
        None => {},
    }
}

/// Where a process name is found after one entry was merged in: the merged
/// entry's name at the place that the entry took, every other name where it
/// was.
pub proof fn lemma_position_after_merge(
    reg: Seq<ApplicationModel>,
    entry: ApplicationModel,
    identity: Seq<char>,
)
    ensures
        position_of(merge_entry(reg, entry), identity) == if identity == entry.process_name {
            match position_of(reg, identity) {
                Some(i) => Some(i),
                None => Some(reg.len() as int),
            }
        } else {
            position_of(reg, identity)
        },
        merge_entry(reg, entry).len() >= reg.len(),
        forall|j: int|
            0 <= j < reg.len() ==> (#[trigger] merge_entry(reg, entry)[j]).process_name
                == reg[j].process_name,
{
    let merged = merge_entry(reg, entry);
    lemma_position(reg, entry.process_name);
    lemma_position(reg, identity);
    assert forall|j: int| 0 <= j < reg.len() implies (#[trigger] merged[j]).process_name
        == reg[j].process_name by {}
    match position_of(reg, identity) {
        Some(i) => {
            assert forall|j: int| 0 <= j < i implies (#[trigger] merged[j]).process_name
                != identity by {
                assert(reg[j].process_name != identity);
            }
            lemma_position_is(merged, identity, i);
        },
        None => {
            if identity == entry.process_name {
                assert forall|j: int| 0 <= j < reg.len() implies (#[trigger] merged[j]).process_name
                    != identity by {
                    assert(reg[j].process_name != identity);
                }
                lemma_position_is(merged, identity, reg.len() as int);
            } else {
                assert forall|j: int| 0 <= j < merged.len() implies (
                #[trigger] merged[j]).process_name != identity by {
                    if j < reg.len() {
                        assert(reg[j].process_name != identity);
                    }
                }
                lemma_position_none(merged, identity);
            }
        },
    }
}

/// Of two entries with one process name that are merged one after the other,
/// only the second one shows.
pub proof fn lemma_merge_absorbs(
    reg: Seq<ApplicationModel>,
    first: ApplicationModel,
    second: ApplicationModel,
)
    requires
        first.process_name == second.process_name,
    ensures
        merge_entry(merge_entry(reg, first), second) == merge_entry(reg, second),
{
    lemma_position(reg, first.process_name);
    lemma_position_after_merge(reg, first, second.process_name);
    assert(merge_entry(merge_entry(reg, first), second) =~= merge_entry(reg, second));
}

/// Two entries with different process names can be merged in either order,
/// as long as the registry already has an entry for one of them.
pub proof fn lemma_merge_commutes(
    reg: Seq<ApplicationModel>,
    known: ApplicationModel,
    other: ApplicationModel,
)
    requires
        known.process_name != other.process_name,
        position_of(reg, known.process_name) is Some,
    ensures
        merge_entry(merge_entry(reg, known), other) == merge_entry(
            merge_entry(reg, other),
            known,
        ),
{
    lemma_position(reg, known.process_name);
    lemma_position(reg, other.process_name);
    lemma_position_after_merge(reg, known, other.process_name);
    lemma_position_after_merge(reg, other, known.process_name);
    assert(merge_entry(merge_entry(reg, known), other) =~= merge_entry(
        merge_entry(reg, other),
        known,
    ));
}

/// Merging overrides in moves no process name of the starting registry, and
/// leaves an entry for each override's process name.
pub proof fn lemma_resolve_positions(
    start: Seq<ApplicationModel>,
    overrides: Seq<ApplicationModel>,
)
    ensures
        resolve_model(start, overrides).len() >= start.len(),
        forall|j: int|
            0 <= j < start.len() ==> (#[trigger] resolve_model(start, overrides)[j]).process_name
                == start[j].process_name,
        forall|p: Seq<char>|
            position_of(start, p) is Some ==> #[trigger] position_of(
                resolve_model(start, overrides),
                p,
            ) == position_of(start, p),
        forall|k: int|
            0 <= k < overrides.len() ==> position_of(
                resolve_model(start, overrides),
                (#[trigger] overrides[k]).process_name,
            ) is Some,
    decreases overrides.len(),
{
    if overrides.len() > 0 {
        let rest = overrides.drop_last();
        let entry = overrides.last();
        let before = resolve_model(start, rest);
        let after = resolve_model(start, overrides);
        lemma_resolve_positions(start, rest);
        lemma_position_after_merge(before, entry, entry.process_name);
        assert forall|j: int| 0 <= j < start.len() implies (#[trigger] after[j]).process_name
            == start[j].process_name by {
            assert(before[j].process_name == start[j].process_name);
        }
        assert forall|p: Seq<char>| position_of(start, p) is Some implies #[trigger] position_of(
            after,
            p,
        ) == position_of(start, p) by {
            assert(position_of(before, p) == position_of(start, p));
            lemma_position_after_merge(before, entry, p);
        }
        assert forall|k: int| 0 <= k < overrides.len() implies position_of(
            after,
            (#[trigger] overrides[k]).process_name,
        ) is Some by {
            lemma_position_after_merge(before, entry, overrides[k].process_name);
            if k < rest.len() {
                assert(rest[k] == overrides[k]);
            }
        }
    }
}

/// Merging an entry in before the overrides makes no difference once the same
/// entry is merged in after them, where the registry has an entry for each
/// override already.
proof fn lemma_late_merge_decides(
    reg: Seq<ApplicationModel>,
    overrides: Seq<ApplicationModel>,
    entry: ApplicationModel,
)
    requires
        forall|k: int|
            0 <= k < overrides.len() ==> position_of(reg, (#[trigger] overrides[k]).process_name)
                is Some,
    ensures
        merge_entry(resolve_model(merge_entry(reg, entry), overrides), entry) == merge_entry(
            resolve_model(reg, overrides),
            entry,
        ),
    decreases overrides.len(),
{
    if overrides.len() == 0 {
        lemma_merge_absorbs(reg, entry, entry);
    } else {
        let rest = overrides.drop_last();
        let last = overrides.last();
        let with = resolve_model(merge_entry(reg, entry), rest);
        let without = resolve_model(reg, rest);
        assert forall|k: int| 0 <= k < rest.len() implies position_of(
            reg,
            (#[trigger] rest[k]).process_name,
        ) is Some by {
            assert(rest[k] == overrides[k]);
        }
        lemma_late_merge_decides(reg, rest, entry);
        if last.process_name == entry.process_name {
            lemma_merge_absorbs(with, last, entry);
            lemma_merge_absorbs(without, last, entry);
        } else {
            assert(position_of(reg, last.process_name) is Some);
            lemma_position_after_merge(reg, entry, last.process_name);
            lemma_resolve_positions(merge_entry(reg, entry), rest);
            lemma_resolve_positions(reg, rest);
            assert(position_of(with, last.process_name) is Some);
            assert(position_of(without, last.process_name) is Some);
            lemma_merge_commutes(with, last, entry);
            lemma_merge_commutes(without, last, entry);
        }
    }
}

/// The merge is idempotent: merging the same overrides into the effective
/// registry once more gives the effective registry again.
pub proof fn lemma_resolve_idempotent(
    bundled: Seq<ApplicationModel>,
    overrides: Seq<ApplicationModel>,
)
    ensures
        resolve_model(resolve_model(bundled, overrides), overrides) == resolve_model(
            bundled,
            overrides,
        ),
    decreases overrides.len(),
{
    if overrides.len() > 0 {
        let rest = overrides.drop_last();
        let entry = overrides.last();
        let before = resolve_model(bundled, rest);
        lemma_resolve_idempotent(bundled, rest);
        lemma_resolve_positions(bundled, rest);
        lemma_late_merge_decides(before, rest, entry);
    }
}

/// Where a process name first occurs among the overrides once one more
/// override is added at their end.
proof fn lemma_first_key_push(keys: Seq<Seq<char>>, added: Seq<char>, key: Seq<char>)
    ensures
        first_key(keys.push(added), key) == match first_key(keys, key) {
            Some(k) => Some(k),
            None => if added == key {
                Some(keys.len() as int)
            } else {
                None
            },
        },
{
    let longer = keys.push(added);
    lemma_first_key_from(keys, key, 0);
    lemma_first_key_from(longer, key, 0);
    match first_key(keys, key) {
        Some(k) => {
            assert(longer[k] == key);
            match first_key(longer, key) {
                Some(m) => {
                    if m < k {
                        assert(keys[m] == longer[m]);
                    } else if k < m {
                        assert(longer[k] == key);
                    }
                },
                None => {},
            }
        },
        None => {
            match first_key(longer, key) {
                Some(m) => {
                    if m < keys.len() {
                        assert(keys[m] == longer[m]);
                    }
                },
                None => {
                    assert(longer[keys.len() as int] == added);
                },
            }
        },
    }
}

/// The merge keeps the bundled catalog's order and puts what is new behind
/// it. Every bundled entry stays at its index with its process name, and
/// stays as it is unless an override has its process name. What follows the
/// bundled entries has process names that the bundled catalog lacks and that
/// the overrides hold, and stands in the order in which these names first
/// occur among the overrides.
pub proof fn lemma_resolve_keeps_order(
    bundled: Seq<ApplicationModel>,
    overrides: Seq<ApplicationModel>,
)
    ensures
        resolve_model(bundled, overrides).len() >= bundled.len(),
        forall|i: int|
            0 <= i < bundled.len() ==> (#[trigger] resolve_model(
                bundled,
                overrides,
            )[i]).process_name == bundled[i].process_name,
        forall|i: int|
            0 <= i < bundled.len() && !mentions(overrides, bundled[i].process_name)
                ==> #[trigger] resolve_model(bundled, overrides)[i] == bundled[i],
        forall|i: int|
            bundled.len() <= i < resolve_model(bundled, overrides).len() ==> {
                &&& position_of(
                    bundled,
                    (#[trigger] resolve_model(bundled, overrides)[i]).process_name,
                ) is None
                &&& first_key(
                    identities(overrides),
                    resolve_model(bundled, overrides)[i].process_name,
                ) is Some
            },
        forall|i: int, j: int|
            bundled.len() <= i < j < resolve_model(bundled, overrides).len() ==> first_key(
                identities(overrides),
                (#[trigger] resolve_model(bundled, overrides)[i]).process_name,
            )->0 < first_key(
                identities(overrides),
                (#[trigger] resolve_model(bundled, overrides)[j]).process_name,
            )->0,
    decreases overrides.len(),
{
    let merged = resolve_model(bundled, overrides);
    if overrides.len() > 0 {
        let rest = overrides.drop_last();
        let entry = overrides.last();
        let before = resolve_model(bundled, rest);
        lemma_resolve_keeps_order(bundled, rest);
        lemma_resolve_positions(bundled, rest);
        lemma_position(before, entry.process_name);
        lemma_position_after_merge(before, entry, entry.process_name);
        assert(identities(overrides) =~= identities(rest).push(entry.process_name));
        assert forall|p: Seq<char>|
            first_key(identities(rest), p) is Some implies #[trigger] first_key(
            identities(overrides),
            p,
        ) == first_key(identities(rest), p) by {
            lemma_first_key_push(identities(rest), entry.process_name, p);
        }
        lemma_first_key_push(identities(rest), entry.process_name, entry.process_name);

        assert forall|i: int|
            0 <= i < bundled.len() && !mentions(
                overrides,
                bundled[i].process_name,
            ) implies #[trigger] merged[i] == bundled[i] by {
            assert(overrides[overrides.len() - 1].process_name != bundled[i].process_name);
            assert(before[i].process_name == bundled[i].process_name);
            if mentions(rest, bundled[i].process_name) {
                let k = choose|k: int|
                    0 <= k < rest.len() && (#[trigger] rest[k]).process_name
                        == bundled[i].process_name;
                assert(overrides[k] == rest[k]);
            }
            assert(before[i] == bundled[i]);
        }
        assert forall|i: int| bundled.len() <= i < merged.len() implies {
            &&& position_of(bundled, (#[trigger] merged[i]).process_name) is None
            &&& first_key(identities(overrides), merged[i].process_name) is Some
        } by {
            if i < before.len() {
                assert(merged[i].process_name == before[i].process_name);
            } else {
                assert(merged[i] == entry);
                assert forall|j: int| 0 <= j < bundled.len() implies (
                #[trigger] bundled[j]).process_name != entry.process_name by {
                    assert(before[j].process_name == bundled[j].process_name);
                }
                lemma_position_none(bundled, entry.process_name);
            }
        }
        assert forall|i: int, j: int| bundled.len() <= i < j < merged.len() implies first_key(
            identities(overrides),
            (#[trigger] merged[i]).process_name,
        )->0 < first_key(identities(overrides), (#[trigger] merged[j]).process_name)->0 by {
            assert(merged[i].process_name == before[i].process_name);
            if j < before.len() {
                assert(merged[j].process_name == before[j].process_name);
            } else {
                assert(merged[j] == entry);
                lemma_first_key_from(identities(rest), before[i].process_name, 0);
                if first_key(identities(rest), entry.process_name) is Some {
                    lemma_first_key_from(identities(rest), entry.process_name, 0);
                    let k = first_key(identities(rest), entry.process_name)->0;
                    assert(rest[k].process_name == identities(rest)[k]);
                    assert(position_of(before, rest[k].process_name) is Some);
                }
            }
        }
    }
}

/// The last override wins: a lookup in the effective registry gives the last
/// override with the process name, and what the bundled catalog gives where
/// no override has that name.
pub proof fn lemma_last_override_wins(
    bundled: Seq<ApplicationModel>,
    overrides: Seq<ApplicationModel>,
    identity: Seq<char>,
)
    ensures
        lookup_model(resolve_model(bundled, overrides), identity) == match last_mention(
            overrides,
            identity,
        ) {
            Some(entry) => Some(entry),
            None => lookup_model(bundled, identity),
        },
    decreases overrides.len(),
{
    if overrides.len() > 0 {
        let rest = overrides.drop_last();
        let entry = overrides.last();
        let before = resolve_model(bundled, rest);
        lemma_last_override_wins(bundled, rest, identity);
        lemma_position(before, identity);
        lemma_position(before, entry.process_name);
        lemma_position_after_merge(before, entry, identity);
    }
}

/// The effective registry holds no process name twice, provided that the
/// bundled catalog holds none twice.
pub proof fn lemma_resolve_distinct(
    bundled: Seq<ApplicationModel>,
    overrides: Seq<ApplicationModel>,
)
    requires
        distinct_identities(bundled),
    ensures
        distinct_identities(resolve_model(bundled, overrides)),
{
    let merged = resolve_model(bundled, overrides);
    lemma_resolve_keeps_order(bundled, overrides);
    assert forall|i: int, j: int| 0 <= i < j < merged.len() implies (
    #[trigger] merged[i]).process_name != (#[trigger] merged[j]).process_name by {
        if j < bundled.len() {
            assert(bundled[i].process_name != bundled[j].process_name);
        } else if i < bundled.len() {
            lemma_position(bundled, merged[j].process_name);
            assert(bundled[i].process_name != merged[j].process_name);
        }
    }
}

} // verus!
