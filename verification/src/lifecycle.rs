//! The life of a container as the in-memory commander keeps it: the table
//! of containers, what each operation makes of it, and what holds of the
//! operations whatever the table.

use crate::lxc::LxcErrorView;
use vstd::prelude::*;

verus! {

/// Where a container stands in its life.
#[derive(Debug, Clone, Copy, PartialEq, Eq, Structural)]
pub enum ContainerState {
    Created,
    Running,
    Stopped,
    Deleted,
}

/// The table of containers as a sequence of names with their states, in the
/// order of creation.
pub type Entries = Seq<(Seq<char>, ContainerState)>;

/// No name stands in the table twice.
pub open spec fn distinct_names(entries: Entries) -> bool {
    forall|i: int, j: int| 0 <= i < j < entries.len() ==> entries[i].0 != entries[j].0
}

/// The state under which `name` stands in the table, if it stands there.
pub open spec fn state_of(entries: Entries, name: Seq<char>) -> Option<ContainerState>
    decreases entries.len(),
{
    if entries.len() == 0 {
        None
    } else if entries.last().0 == name {
        Some(entries.last().1)
    } else {
        state_of(entries.drop_last(), name)
    }
}

/// The table with `name` moved to `state`; every other entry is kept.
pub open spec fn with_state(entries: Entries, name: Seq<char>, state: ContainerState) -> Entries {
    entries.map_values(
        |entry: (Seq<char>, ContainerState)|
            if entry.0 == name {
                (entry.0, state)
            } else {
                entry
            },
    )
}

/// The table without `name`; every other entry is kept, in its place.
pub open spec fn without(entries: Entries, name: Seq<char>) -> Entries {
    entries.filter(|entry: (Seq<char>, ContainerState)| entry.0 != name)
}

/// Whether creating `name` succeeds: only a name that is not in the table
/// can be created.
pub open spec fn create_outcome(before: Entries, name: Seq<char>) -> Result<(), LxcErrorView> {
    if state_of(before, name) is Some {
        Err(LxcErrorView::AlreadyExists { name })
    } else {
        Ok(())
    }
}

/// The table after an attempt to create `name`.
pub open spec fn after_create(before: Entries, name: Seq<char>) -> Entries {
    if create_outcome(before, name) is Ok {
        before.push((name, ContainerState::Created))
    } else {
        before
    }
}

/// Whether starting `name` succeeds: a container that was created or
/// stopped can be started, a running one cannot be started again, and any
/// other name counts as unknown.
pub open spec fn start_outcome(before: Entries, name: Seq<char>) -> Result<(), LxcErrorView> {
    match state_of(before, name) {
        Some(ContainerState::Created) | Some(ContainerState::Stopped) => Ok(()),
        Some(ContainerState::Running) => Err(LxcErrorView::AlreadyRunning { name }),
        _ => Err(LxcErrorView::DoesNotExist { name }),
    }
}

/// The table after an attempt to start `name`.
pub open spec fn after_start(before: Entries, name: Seq<char>) -> Entries {
    if start_outcome(before, name) is Ok {
        with_state(before, name, ContainerState::Running)
    } else {
        before
    }
}

/// Whether stopping `name` succeeds: only a running container can be
/// stopped.
pub open spec fn stop_outcome(before: Entries, name: Seq<char>) -> Result<(), LxcErrorView> {
    match state_of(before, name) {
        Some(ContainerState::Running) => Ok(()),
        Some(ContainerState::Stopped) => Err(LxcErrorView::AlreadyStopped { name }),
        _ => Err(LxcErrorView::NotRunning { name }),
    }
}

/// The table after an attempt to stop `name`.
pub open spec fn after_stop(before: Entries, name: Seq<char>) -> Entries {
    if stop_outcome(before, name) is Ok {
        with_state(before, name, ContainerState::Stopped)
    } else {
        before
    }
}

/// Whether deleting `name` succeeds: a container that was created or stopped
/// can be deleted, a running one has to be stopped first, and any other name
/// counts as unknown.
pub open spec fn delete_outcome(before: Entries, name: Seq<char>) -> Result<(), LxcErrorView> {
    match state_of(before, name) {
        Some(ContainerState::Created) | Some(ContainerState::Stopped) => Ok(()),
        Some(ContainerState::Running) => Err(LxcErrorView::IsRunning { name }),
        _ => Err(LxcErrorView::DoesNotExist { name }),
    }
}

/// The table after an attempt to delete `name`.
pub open spec fn after_delete(before: Entries, name: Seq<char>) -> Entries {
    if delete_outcome(before, name) is Ok {
        without(before, name)
    } else {
        before
    }
}

/// Shutting down is stopping.
pub open spec fn shutdown_outcome(before: Entries, name: Seq<char>) -> Result<(), LxcErrorView> {
    stop_outcome(before, name)
}

/// The table after an attempt to shut `name` down.
pub open spec fn after_shutdown(before: Entries, name: Seq<char>) -> Entries {
    after_stop(before, name)
}

/// How a state is written in a listing.
pub open spec fn state_text(state: ContainerState) -> Seq<char> {
    match state {
        ContainerState::Created => "Created"@,
        ContainerState::Running => "Running"@,
        ContainerState::Stopped => "Stopped"@,
        ContainerState::Deleted => "Deleted"@,
    }
}

/// The line of one container in a listing: `<name> <state>`.
pub open spec fn line_of(entry: (Seq<char>, ContainerState)) -> Seq<char> {
    entry.0 + " "@ + state_text(entry.1)
}

/// Whether an entry is shown in a listing: deleted containers are not.
pub open spec fn is_listed(entry: (Seq<char>, ContainerState)) -> bool {
    entry.1 != ContainerState::Deleted
}

/// The entries that a listing shows, in the order of the table.
pub open spec fn listed(entries: Entries) -> Entries {
    entries.filter(|entry: (Seq<char>, ContainerState)| is_listed(entry))
}

/// `lines` with `separator` between each two neighbours.
pub open spec fn joined(lines: Seq<Seq<char>>, separator: Seq<char>) -> Seq<char>
    decreases lines.len(),
{
    if lines.len() == 0 {
        Seq::empty()
    } else if lines.len() == 1 {
        lines[0]
    } else {
        joined(lines.drop_last(), separator) + separator + lines.last()
    }
}

/// The listing of the table: one line for each entry shown, separated by
/// newlines.
pub open spec fn listing(entries: Entries) -> Seq<char> {
    joined(listed(entries).map_values(|entry: (Seq<char>, ContainerState)| line_of(entry)), "\n"@)
}

/// An entry at `index` decides the state of its name.
pub proof fn state_at(entries: Entries, index: int)
    requires
        distinct_names(entries),
        0 <= index < entries.len(),
    ensures
        state_of(entries, entries[index].0) == Some(entries[index].1),
    decreases entries.len(),
{
    if index < entries.len() - 1 {
        state_at(entries.drop_last(), index);
    }
}

/// A name that no entry bears has no state.
pub proof fn state_of_absent(entries: Entries, name: Seq<char>)
    requires
        forall|i: int| 0 <= i < entries.len() ==> entries[i].0 != name,
    ensures
        state_of(entries, name) is None,
    decreases entries.len(),
{
    if entries.len() > 0 {
        state_of_absent(entries.drop_last(), name);
    }
}

/// A name without a state is borne by no entry.
pub proof fn absent_everywhere(entries: Entries, name: Seq<char>)
    requires
        state_of(entries, name) is None,
    ensures
        forall|i: int| 0 <= i < entries.len() ==> entries[i].0 != name,
    decreases entries.len(),
{
    if entries.len() > 0 {
        absent_everywhere(entries.drop_last(), name);
        assert forall|i: int| 0 <= i < entries.len() implies entries[i].0 != name by {
            if i < entries.len() - 1 {
                assert(entries.drop_last()[i] == entries[i]);
            }
        }
    }
}

/// Filtering a name out of a table that does not hold it changes nothing.
pub proof fn without_absent(entries: Entries, name: Seq<char>)
    requires
        forall|i: int| 0 <= i < entries.len() ==> entries[i].0 != name,
    ensures
        without(entries, name) == entries,
    decreases entries.len(),
{
    reveal(Seq::filter);
    if entries.len() > 0 {
        without_absent(entries.drop_last(), name);
    }
}

/// Filtering a name out removes the one entry that bears it.
pub proof fn without_is_remove(entries: Entries, index: int)
    requires
        distinct_names(entries),
        0 <= index < entries.len(),
    ensures
        without(entries, entries[index].0) == entries.remove(index),
    decreases entries.len(),
{
    reveal(Seq::filter);
    let name = entries[index].0;
    let rest = entries.drop_last();
    if index == entries.len() - 1 {
        without_absent(rest, name);
    } else {
        without_is_remove(rest, index);
    }
}

/// How the listing grows with the table: an entry that is shown adds its
/// line, after a newline if it is not the first, and any other adds nothing.
pub proof fn listing_push(entries: Entries, entry: (Seq<char>, ContainerState))
    ensures
        listed(entries.push(entry)) == if is_listed(entry) {
            listed(entries).push(entry)
        } else {
            listed(entries)
        },
        listing(entries.push(entry)) == if !is_listed(entry) {
            listing(entries)
        } else if listed(entries).len() == 0 {
            line_of(entry)
        } else {
            listing(entries) + "\n"@ + line_of(entry)
        },
{
    entries.lemma_filter_push(entry, |entry: (Seq<char>, ContainerState)| is_listed(entry));
    if is_listed(entry) {
        let lines = listed(entries).map_values(|entry: (Seq<char>, ContainerState)| line_of(entry));
        assert(listed(entries.push(entry)).map_values(
            |entry: (Seq<char>, ContainerState)| line_of(entry),
        ) =~= lines.push(line_of(entry)));
        assert(lines.push(line_of(entry)).drop_last() =~= lines);
    }
}

/// The state of a name after one more entry was added.
pub proof fn state_of_push(entries: Entries, entry: (Seq<char>, ContainerState), name: Seq<char>)
    ensures
        state_of(entries.push(entry), name) == if entry.0 == name {
            Some(entry.1)
        } else {
            state_of(entries, name)
        },
{
    assert(entries.push(entry).drop_last() =~= entries);
}

/// A name with a state is borne by an entry that holds that state.
pub proof fn present_somewhere(entries: Entries, name: Seq<char>) -> (index: int)
    requires
        state_of(entries, name) is Some,
    ensures
        0 <= index < entries.len(),
        entries[index] == (name, state_of(entries, name)->Some_0),
    decreases entries.len(),
{
    if entries.last().0 == name {
        entries.len() - 1
    } else {
        present_somewhere(entries.drop_last(), name)
    }
}

/// Moving `name` to a state gives it that state, if it is in the table, and
/// leaves every other name as it was.
pub proof fn state_of_with_state(
    entries: Entries,
    name: Seq<char>,
    state: ContainerState,
    other: Seq<char>,
)
    ensures
        state_of(with_state(entries, name, state), other) == if other == name && state_of(
            entries,
            name,
        ) is Some {
            Some(state)
        } else {
            state_of(entries, other)
        },
    decreases entries.len(),
{
    if entries.len() > 0 {
        state_of_with_state(entries.drop_last(), name, state, other);
        assert(with_state(entries, name, state).drop_last() =~= with_state(
            entries.drop_last(),
            name,
            state,
        ));
    }
}

/// Taking `name` out leaves it without a state and every other name as it
/// was.
pub proof fn state_of_without(entries: Entries, name: Seq<char>, other: Seq<char>)
    ensures
        state_of(without(entries, name), other) == if other == name {
            None
        } else {
            state_of(entries, other)
        },
    decreases entries.len(),
{
    reveal(Seq::filter);
    if entries.len() > 0 {
        state_of_without(entries.drop_last(), name, other);
        if entries.last().0 != name {
            state_of_push(without(entries.drop_last(), name), entries.last(), other);
        }
    }
}

/// Taking a name out of a table of distinct names leaves the names distinct.
pub proof fn without_keeps_distinct(entries: Entries, name: Seq<char>)
    requires
        distinct_names(entries),
    ensures
        distinct_names(without(entries, name)),
{
    if state_of(entries, name) is Some {
        let index = present_somewhere(entries, name);
        without_is_remove(entries, index);
    } else {
        absent_everywhere(entries, name);
        without_absent(entries, name);
    }
}

/// Creating a name that is not in the table succeeds and enters it as
/// created. Whatever the first attempt came to, creating the same name again
/// is refused, because it exists already, and changes nothing. No other name
/// is touched, and the names stay distinct.
pub proof fn create_succeeds_once(before: Entries, name: Seq<char>)
    requires
        distinct_names(before),
    ensures
        state_of(before, name) is None ==> create_outcome(before, name) is Ok && state_of(
            after_create(before, name),
            name,
        ) == Some(ContainerState::Created),
        create_outcome(after_create(before, name), name) == Err::<(), LxcErrorView>(
            LxcErrorView::AlreadyExists { name },
        ),
        after_create(after_create(before, name), name) == after_create(before, name),
        forall|other: Seq<char>|
            other != name ==> #[trigger] state_of(after_create(before, name), other) == state_of(
                before,
                other,
            ),
        distinct_names(after_create(before, name)),
{
    let entry = (name, ContainerState::Created);
    state_of_push(before, entry, name);
    assert forall|other: Seq<char>| other != name implies #[trigger] state_of(
        after_create(before, name),
        other,
    ) == state_of(before, other) by {
        state_of_push(before, entry, other);
    }
    if state_of(before, name) is None {
        absent_everywhere(before, name);
    }
}

/// Starting a container that was created or stopped succeeds and leaves it
/// running. Starting a running container is refused, and so is starting a
/// name that is unknown or deleted; a refusal changes nothing. No other name
/// is touched, and the names stay distinct.
pub proof fn start_moves_to_running(before: Entries, name: Seq<char>)
    requires
        distinct_names(before),
    ensures
        match state_of(before, name) {
            Some(ContainerState::Created) | Some(ContainerState::Stopped) => start_outcome(
                before,
                name,
            ) is Ok && state_of(after_start(before, name), name) == Some(ContainerState::Running),
            Some(ContainerState::Running) => start_outcome(before, name) == Err::<
                (),
                LxcErrorView,
            >(LxcErrorView::AlreadyRunning { name }) && after_start(before, name) == before,
            _ => start_outcome(before, name) == Err::<(), LxcErrorView>(
                LxcErrorView::DoesNotExist { name },
            ) && after_start(before, name) == before,
        },
        forall|other: Seq<char>|
            other != name ==> #[trigger] state_of(after_start(before, name), other) == state_of(
                before,
                other,
            ),
        distinct_names(after_start(before, name)),
{
    state_of_with_state(before, name, ContainerState::Running, name);
    assert forall|other: Seq<char>| other != name implies #[trigger] state_of(
        after_start(before, name),
        other,
    ) == state_of(before, other) by {
        state_of_with_state(before, name, ContainerState::Running, other);
    }
}

/// Stopping a running container succeeds and leaves it stopped. Stopping a
/// stopped container is refused, and so is stopping a name that is unknown
/// or was never started; a refusal changes nothing. No other name is
/// touched, and the names stay distinct.
pub proof fn stop_moves_to_stopped(before: Entries, name: Seq<char>)
    requires
        distinct_names(before),
    ensures
        match state_of(before, name) {
            Some(ContainerState::Running) => stop_outcome(before, name) is Ok && state_of(
                after_stop(before, name),
                name,
            ) == Some(ContainerState::Stopped),
            Some(ContainerState::Stopped) => stop_outcome(before, name) == Err::<
                (),
                LxcErrorView,
            >(LxcErrorView::AlreadyStopped { name }) && after_stop(before, name) == before,
            _ => stop_outcome(before, name) == Err::<(), LxcErrorView>(
                LxcErrorView::NotRunning { name },
            ) && after_stop(before, name) == before,
        },
        forall|other: Seq<char>|
            other != name ==> #[trigger] state_of(after_stop(before, name), other) == state_of(
                before,
                other,
            ),
        distinct_names(after_stop(before, name)),
{
    state_of_with_state(before, name, ContainerState::Stopped, name);
    assert forall|other: Seq<char>| other != name implies #[trigger] state_of(
        after_stop(before, name),
        other,
    ) == state_of(before, other) by {
        state_of_with_state(before, name, ContainerState::Stopped, other);
    }
}

/// Deleting a container that was created or stopped succeeds and removes it
/// from the table. Deleting a running container is refused, and so is
/// deleting a name that is unknown or deleted; a refusal changes nothing. No
/// other name is touched, and the names stay distinct.
pub proof fn delete_removes(before: Entries, name: Seq<char>)
    requires
        distinct_names(before),
    ensures
        match state_of(before, name) {
            Some(ContainerState::Created) | Some(ContainerState::Stopped) => delete_outcome(
                before,
                name,
            ) is Ok && state_of(after_delete(before, name), name) is None,
            Some(ContainerState::Running) => delete_outcome(before, name) == Err::<
                (),
                LxcErrorView,
            >(LxcErrorView::IsRunning { name }) && after_delete(before, name) == before,
            _ => delete_outcome(before, name) == Err::<(), LxcErrorView>(
                LxcErrorView::DoesNotExist { name },
            ) && after_delete(before, name) == before,
        },
        forall|other: Seq<char>|
            other != name ==> #[trigger] state_of(after_delete(before, name), other) == state_of(
                before,
                other,
            ),
        distinct_names(after_delete(before, name)),
{
    state_of_without(before, name, name);
    assert forall|other: Seq<char>| other != name implies #[trigger] state_of(
        after_delete(before, name),
        other,
    ) == state_of(before, other) by {
        state_of_without(before, name, other);
    }
    without_keeps_distinct(before, name);
}

/// Shutting a container down is stopping it: on every table and every name
/// the two succeed or fail alike and leave the same table.
pub proof fn shutdown_is_stop(before: Entries, name: Seq<char>)
    ensures
        shutdown_outcome(before, name) == stop_outcome(before, name),
        after_shutdown(before, name) == after_stop(before, name),
{
}

/// A listing shows a container under a state exactly if the table holds it
/// under that state and the state is not deleted.
pub proof fn listing_shows_what_is_not_deleted(
    entries: Entries,
    name: Seq<char>,
    state: ContainerState,
)
    requires
        distinct_names(entries),
    ensures
        listed(entries).contains((name, state)) <==> state_of(entries, name) == Some(state)
            && state != ContainerState::Deleted,
{
    let shown = |entry: (Seq<char>, ContainerState)| is_listed(entry);
    if listed(entries).contains((name, state)) {
        entries.lemma_filter_contains_rev(shown, (name, state));
        let index = choose|i: int| 0 <= i < entries.len() && entries[i] == (name, state);
        state_at(entries, index);
        let place = choose|i: int|
            0 <= i < listed(entries).len() && listed(entries)[i] == (name, state);
        entries.lemma_filter_pred(shown, place);
    }
    if state_of(entries, name) == Some(state) && state != ContainerState::Deleted {
        let index = present_somewhere(entries, name);
        entries.lemma_filter_contains(shown, index);
    }
}

/// Once a container was deleted no listing shows it, under any state, and
/// every other container is listed as before.
pub proof fn deleted_is_not_listed(before: Entries, name: Seq<char>)
    requires
        distinct_names(before),
        delete_outcome(before, name) is Ok,
    ensures
        forall|state: ContainerState|
            !(#[trigger] listed(after_delete(before, name)).contains((name, state))),
        forall|other: Seq<char>, state: ContainerState|
            other != name ==> (#[trigger] listed(after_delete(before, name)).contains(
                (other, state),
            ) <==> listed(before).contains((other, state))),
{
    let after = after_delete(before, name);
    without_keeps_distinct(before, name);
    assert forall|state: ContainerState| !(#[trigger] listed(after).contains((name, state))) by {
        listing_shows_what_is_not_deleted(after, name, state);
        state_of_without(before, name, name);
    }
    assert forall|other: Seq<char>, state: ContainerState| other != name implies (
    #[trigger] listed(after).contains((other, state)) <==> listed(before).contains(
        (other, state),
    )) by {
        listing_shows_what_is_not_deleted(after, other, state);
        listing_shows_what_is_not_deleted(before, other, state);
        state_of_without(before, name, other);
    }
}

} // verus!
