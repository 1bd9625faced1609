//! The application registry: the bundled catalog overlaid with the user's own
//! entries, and the lookup of a process identity in it.
//!
//! Two entries stand for the same application where their process names are
//! equal character by character; case is significant. The merge and the
//! lookup both go by this rule.
use crate::registry_laws::lemma_resolve_distinct;
use crate::storage::{Application, ApplicationModel, ShortcutList, ShortcutListModel};
use crate::text::same_text;
use vstd::prelude::*;

verus! {

/// The models of a sequence of applications.
pub open spec fn models(apps: Seq<Application>) -> Seq<ApplicationModel> {
    Seq::new(apps.len(), |i: int| apps[i]@)
}

/// The models of a sequence of shortcut lists.
pub open spec fn list_models(lists: Seq<ShortcutList>) -> Seq<ShortcutListModel> {
    Seq::new(lists.len(), |i: int| lists[i]@)
}

/// The process names of a registry, in its order.
pub open spec fn identities(reg: Seq<ApplicationModel>) -> Seq<Seq<char>> {
    Seq::new(reg.len(), |i: int| reg[i].process_name)
}

/// The ids of a sequence of applications, in its order.
pub open spec fn application_ids(apps: Seq<ApplicationModel>) -> Seq<Seq<char>> {
    Seq::new(apps.len(), |i: int| apps[i].id)
}

/// The ids of a sequence of shortcut lists, in its order.
pub open spec fn list_ids(lists: Seq<ShortcutListModel>) -> Seq<Seq<char>> {
    Seq::new(lists.len(), |i: int| lists[i].id)
}

/// The index, at or after `start`, of the first occurrence of `key`.
pub open spec fn first_key_from(keys: Seq<Seq<char>>, key: Seq<char>, start: int) -> Option<int>
    decreases keys.len() - start,
{
    if start >= keys.len() {
        None
    } else if keys[start] == key {
        Some(start)
    } else {
        first_key_from(keys, key, start + 1)
    }
}

/// The index of the first occurrence of `key`.
pub open spec fn first_key(keys: Seq<Seq<char>>, key: Seq<char>) -> Option<int> {
    first_key_from(keys, key, 0)
}

/// The index of the first entry of the registry with the given process name.
pub open spec fn position_of(reg: Seq<ApplicationModel>, identity: Seq<char>) -> Option<int> {
    first_key(identities(reg), identity)
}

/// Puts `value` in the place of the entry at `at`, or behind all entries
/// where there is no such place.
pub open spec fn placed<T>(items: Seq<T>, at: Option<int>, value: T) -> Seq<T> {
    match at {
        Some(i) => items.update(i, value),
        None => items.push(value),
    }
}

/// The registry with one entry merged in: it takes the place of the first
/// entry with its process name, or goes to the end where there is none.
pub open spec fn merge_entry(reg: Seq<ApplicationModel>, entry: ApplicationModel) -> Seq<
    ApplicationModel,
> {
    placed(reg, position_of(reg, entry.process_name), entry)
}

/// The effective registry: the bundled catalog with the overrides merged in,
/// one after the other in their order.
pub open spec fn resolve_model(
    bundled: Seq<ApplicationModel>,
    overrides: Seq<ApplicationModel>,
) -> Seq<ApplicationModel>
    decreases overrides.len(),
{
    if overrides.len() == 0 {
        bundled
    } else {
        merge_entry(resolve_model(bundled, overrides.drop_last()), overrides.last())
    }
}

/// Whether no two entries of the registry share a process name.
pub open spec fn distinct_identities(reg: Seq<ApplicationModel>) -> bool {
    forall|i: int, j: int|
        0 <= i < j < reg.len() ==> (#[trigger] reg[i]).process_name != (
        #[trigger] reg[j]).process_name
}

/// The first entry of the registry with the given process name.
pub open spec fn lookup_model(reg: Seq<ApplicationModel>, identity: Seq<char>) -> Option<
    ApplicationModel,
> {
    match position_of(reg, identity) {
        Some(i) => Some(reg[i]),
        None => None,
    }
}

/// The name to show for a process: the registered application's name, or the
/// process name itself where the registry does not know it.
pub open spec fn display_name_model(reg: Seq<ApplicationModel>, identity: Seq<char>) -> Seq<char> {
    match lookup_model(reg, identity) {
        Some(entry) => entry.name,
        None => identity,
    }
}

/// The applications with one stored: it takes the place of the first
/// application with its id, or goes to the end where there is none.
pub open spec fn with_application(apps: Seq<ApplicationModel>, app: ApplicationModel) -> Seq<
    ApplicationModel,
> {
    placed(apps, first_key(application_ids(apps), app.id), app)
}

/// The lists with one stored: it takes the place of the first list with its
/// id, or goes to the end where there is none.
pub open spec fn with_list(lists: Seq<ShortcutListModel>, list: ShortcutListModel) -> Seq<
    ShortcutListModel,
> {
    placed(lists, first_key(list_ids(lists), list.id), list)
}

/// The lists without those that have the given id.
pub open spec fn without_list(lists: Seq<ShortcutListModel>, id: Seq<char>) -> Seq<
    ShortcutListModel,
> {
    lists.filter(|l: ShortcutListModel| l.id != id)
}

/// What `first_key_from` returns is the least index at or after `start` that
/// holds `key`, and it returns nothing only where no index from `start` on
/// holds it.
pub proof fn lemma_first_key_from(keys: Seq<Seq<char>>, key: Seq<char>, start: int)
    requires
        0 <= start,
    ensures
        match first_key_from(keys, key, start) {
            Some(i) => {
                &&& start <= i < keys.len()
                &&& keys[i] == key
                &&& forall|j: int| start <= j < i ==> #[trigger] keys[j] != key
            },
            None => forall|j: int| start <= j < keys.len() ==> #[trigger] keys[j] != key,
        },
    decreases keys.len() - start,
{
    if start < keys.len() && keys[start] != key {
        lemma_first_key_from(keys, key, start + 1);
    }
}

/// Finds the first entry of the registry with the given process name.
pub fn find_position(registry: &Vec<Application>, process_identity: &str) -> (r: Option<usize>)
    ensures
        match r {
            Some(i) => i < registry.len() && position_of(models(registry@), process_identity@)
                == Some(i as int),
            None => position_of(models(registry@), process_identity@) is None,
        },
{
    let ghost keys = identities(models(registry@));
    let mut i: usize = 0;
    while i < registry.len()
        invariant
            i <= registry.len(),
            keys == identities(models(registry@)),
            first_key_from(keys, process_identity@, 0) == first_key_from(
                keys,
                process_identity@,
                i as int,
            ),
        decreases registry.len() - i,
    {
        if same_text(registry[i].process_name.as_str(), process_identity) {
            return Some(i);
        }
        i += 1;
    }
    None
}

/// Merges one entry into the registry.
pub fn merge_into(registry: &mut Vec<Application>, entry: Application)
    ensures
        models(final(registry)@) == merge_entry(models(old(registry)@), entry@),
{
    match find_position(registry, entry.process_name.as_str()) {
        Some(i) => {
            registry.set(i, entry);
            assert(models(registry@) =~= models(old(registry)@).update(i as int, entry@));
        },
        None => {
            registry.push(entry);
            assert(models(registry@) =~= models(old(registry)@).push(entry@));
        },
    }
}

/// Copies a sequence of applications.
pub fn copy_applications(apps: &Vec<Application>) -> (r: Vec<Application>)
    ensures
        models(r@) == models(apps@),
{
    let mut out: Vec<Application> = Vec::new();
    let mut i: usize = 0;
    while i < apps.len()
        invariant
            i <= apps.len(),
            out@.len() == i,
            forall|j: int| 0 <= j < i ==> out@[j]@ == apps@[j]@,
        decreases apps.len() - i,
    {
        out.push(apps[i].clone());
        i += 1;
    }
    assert(models(out@) =~= models(apps@));
    out
}

/// Builds the effective registry from the bundled catalog and the user's
/// overrides. An override takes the place of the bundled entry with the same
/// process name; one with a new process name goes to the end. Where several
/// overrides share a process name, the last of them stays. The result holds
/// no process name twice unless the bundled catalog does.
pub fn resolve(bundled: &Vec<Application>, overrides: &Vec<Application>) -> (r: Vec<Application>)
    ensures
        models(r@) == resolve_model(models(bundled@), models(overrides@)),
        distinct_identities(models(bundled@)) ==> distinct_identities(models(r@)),
{
    let mut registry = copy_applications(bundled);
    let ghost all = models(overrides@);
    let mut k: usize = 0;
    while k < overrides.len()
        invariant
            k <= overrides.len(),
            all == models(overrides@),
            models(registry@) == resolve_model(models(bundled@), all.take(k as int)),
        decreases overrides.len() - k,
    {
        proof {
            assert(all.take(k + 1).drop_last() =~= all.take(k as int));
        }
        merge_into(&mut registry, overrides[k].clone());
        k += 1;
    }
    proof {
        assert(all.take(k as int) =~= all);
        if distinct_identities(models(bundled@)) {
            lemma_resolve_distinct(models(bundled@), all);
        }
    }
    registry
}

/// Looks a process name up in the registry.
pub fn lookup<'a>(registry: &'a Vec<Application>, process_identity: &str) -> (r: Option<
    &'a Application,
>)
    ensures
        match r {
            Some(entry) => lookup_model(models(registry@), process_identity@) == Some(entry@),
            None => lookup_model(models(registry@), process_identity@) is None,
        },
{
    match find_position(registry, process_identity) {
        Some(i) => Some(&registry[i]),
        None => None,
    }
}

/// The name to announce for a process: that of its registry entry, or the
/// process name as it is where the registry has no entry for it.
pub fn display_name(registry: &Vec<Application>, process_identity: &str) -> (r: String)
    ensures
        r@ == display_name_model(models(registry@), process_identity@),
{
    match lookup(registry, process_identity) {
        Some(entry) => entry.name.clone(),
        None => process_identity.to_string(),
    }
}

/// Stores an application among the user's own: it replaces the first one with
/// the same id, or is added at the end.
pub fn upsert_application(apps: &mut Vec<Application>, app: Application)
    ensures
        models(final(apps)@) == with_application(models(old(apps)@), app@),
{
    let ghost keys = application_ids(models(apps@));
    let mut i: usize = 0;
    while i < apps.len()
        invariant
            i <= apps.len(),
            *apps == *old(apps),
            keys == application_ids(models(apps@)),
            first_key_from(keys, app.id@, 0) == first_key_from(keys, app.id@, i as int),
        decreases apps.len() - i,
    {
        if same_text(apps[i].id.as_str(), app.id.as_str()) {
            apps.set(i, app);
            assert(models(apps@) =~= models(old(apps)@).update(i as int, app@));
            return ;
        }
        i += 1;
    }
    apps.push(app);
    assert(models(apps@) =~= models(old(apps)@).push(app@));
}

/// Stores a shortcut list: it replaces the first list with the same id, or is
/// added at the end.
pub fn upsert_list(lists: &mut Vec<ShortcutList>, list: ShortcutList)
    ensures
        list_models(final(lists)@) == with_list(list_models(old(lists)@), list@),
{
    let ghost keys = list_ids(list_models(lists@));
    let mut i: usize = 0;
    while i < lists.len()
        invariant
            i <= lists.len(),
            *lists == *old(lists),
            keys == list_ids(list_models(lists@)),
            first_key_from(keys, list.id@, 0) == first_key_from(keys, list.id@, i as int),
        decreases lists.len() - i,
    {
        if same_text(lists[i].id.as_str(), list.id.as_str()) {
            lists.set(i, list);
            assert(list_models(lists@) =~= list_models(old(lists)@).update(i as int, list@));
            return ;
        }
        i += 1;
    }
    lists.push(list);
    assert(list_models(lists@) =~= list_models(old(lists)@).push(list@));
}

/// Deletes every shortcut list with the given id, and keeps the others in
/// their order.
pub fn remove_list(lists: &mut Vec<ShortcutList>, list_id: &str)
    ensures
        list_models(final(lists)@) == without_list(list_models(old(lists)@), list_id@),
{
    let ghost all = list_models(lists@);
    let ghost kept = |l: ShortcutListModel| l.id != list_id@;
    let ghost mut seen: int = 0;
    let mut i: usize = 0;
    proof {
        reveal(Seq::filter);
        assert(all.take(0).filter(kept) =~= list_models(lists@).take(0));
        assert(all.skip(0) =~= list_models(lists@).skip(0));
    }
    while i < lists.len()
        invariant
            i <= lists.len(),
            0 <= seen <= all.len(),
            lists.len() - i == all.len() - seen,
            kept == |l: ShortcutListModel| l.id != list_id@,
            list_models(lists@).take(i as int) == all.take(seen).filter(kept),
            list_models(lists@).skip(i as int) == all.skip(seen),
        decreases lists.len() - i,
    {
        let ghost before = list_models(lists@);
        proof {
            reveal(Seq::filter);
            assert(before.skip(i as int)[0] == all.skip(seen)[0]);
            assert(all.take(seen + 1).drop_last() =~= all.take(seen));
            assert(all.take(seen + 1).last() == all[seen]);
        }
        if same_text(lists[i].id.as_str(), list_id) {
            let _removed = lists.remove(i);
            proof {
                let after = list_models(lists@);
                assert(after =~= before.remove(i as int));
                assert(after.take(i as int) =~= before.take(i as int));
                assert(after.skip(i as int) =~= before.skip(i as int).skip(1));
                assert(all.skip(seen + 1) =~= all.skip(seen).skip(1));
            }
        } else {
            i += 1;
            proof {
                assert(before.take(i as int) =~= before.take(i - 1).push(before[i - 1]));
                assert(before.skip(i as int) =~= before.skip(i - 1).skip(1));
                assert(all.skip(seen + 1) =~= all.skip(seen).skip(1));
            }
        }
        proof {
            seen = seen + 1;
        }
    }
    proof {
        assert(list_models(lists@).take(i as int) =~= list_models(lists@));
        assert(all.take(seen) =~= all);
    }
}

} // verus!
