//! An in-memory commander: containers are entries of a table, and the
//! operations move them between states as the toolset would.

use crate::lifecycle::{
    absent_everywhere, after_create, after_delete, after_shutdown, after_start, after_stop,
    create_outcome, delete_outcome, distinct_names, listed, listing, listing_push,
    shutdown_outcome, start_outcome, state_at, state_of, state_of_absent, state_text, stop_outcome,
    with_state, without_is_remove, ContainerState, Entries,
};
use crate::lxc::{outcome, LxcCommander, LxcError};
use vstd::prelude::*;
use vstd::string::*;

verus! {

struct Container {
    name: String,
    state: ContainerState,
}

/// A commander that keeps its containers in memory.
pub struct MockLxcCommander {
    containers: Vec<Container>,
}

/// The entries that a vector of containers stands for.
spec fn entries_of(containers: Seq<Container>) -> Entries {
    containers.map_values(|container: Container| (container.name@, container.state))
}

impl View for MockLxcCommander {
    type V = Entries;

    closed spec fn view(&self) -> Entries {
        entries_of(self.containers@)
    }
}

impl MockLxcCommander {
    #[verifier::type_invariant]
    spec fn well_formed(self) -> bool {
        distinct_names(self@)
    }

    /// A commander that knows no container.
    pub fn new() -> (commander: Self)
        ensures
            commander@ == Seq::<(Seq<char>, ContainerState)>::empty(),
    {
        MockLxcCommander { containers: Vec::new() }
    }

    /// The place of `name` in the table.
    fn find(&self, name: &String) -> (found: Option<usize>)
        ensures
            distinct_names(self@),
            match found {
                Some(index) => index < self@.len() && self@[index as int].0 == name@
                    && state_of(self@, name@) == Some(self@[index as int].1)
                    && self.containers@[index as int].state == self@[index as int].1,
                None => state_of(self@, name@) is None,
            },
    {
        proof {
            use_type_invariant(self);
        }
        let mut index: usize = 0;
        while index < self.containers.len()
            invariant
                index <= self.containers.len(),
                self@.len() == self.containers.len(),
                forall|i: int| 0 <= i < index ==> self@[i].0 != name@,
                distinct_names(self@),
            decreases self.containers.len() - index,
        {
            if self.containers[index].name == *name {
                proof {
                    state_at(self@, index as int);
                }
                return Some(index);
            }
            index += 1;
        }
        proof {
            state_of_absent(self@, name@);
        }
        None
    }

    /// Moves the container at `index`, whose name is `name`, to `state`.
    fn move_to(&mut self, index: usize, name: String, state: ContainerState)
        requires
            index < old(self)@.len(),
            old(self)@[index as int].0 == name@,
        ensures
            final(self)@ == with_state(old(self)@, name@, state),
    {
        proof {
            use_type_invariant(&*self);
        }
        let mut containers: Vec<Container> = Vec::new();
        std::mem::swap(&mut containers, &mut self.containers);
        containers.set(index, Container { name, state });
        proof {
            let after = entries_of(containers@);
            assert forall|i: int| 0 <= i < after.len() implies after[i].0 == old(self)@[i].0 by {}
        }
        self.containers = containers;
    }
}

impl Default for MockLxcCommander {
    /// A commander that knows no container.
    fn default() -> (commander: Self)
        ensures
            commander@ == Seq::<(Seq<char>, ContainerState)>::empty(),
    {
        MockLxcCommander::new()
    }
}

/// The name of a state, as listings write it.
fn state_name(state: ContainerState) -> (text: &'static str)
    ensures
        text@ == state_text(state),
{
    match state {
        ContainerState::Created => "Created",
        ContainerState::Running => "Running",
        ContainerState::Stopped => "Stopped",
        ContainerState::Deleted => "Deleted",
    }
}

impl LxcCommander for MockLxcCommander {
    /// Enters `name` into the table as created; the template plays no part.
    /// A name that is in the table already is refused.
    fn create(&mut self, name: &str, template: &str) -> (result: Result<(), LxcError>)
        ensures
            outcome(result) == create_outcome(old(self)@, name@),
            final(self)@ == after_create(old(self)@, name@),
            distinct_names(final(self)@),
    {
        let wanted = String::from_str(name);
        match self.find(&wanted) {
            Some(_) => Err(LxcError::AlreadyExists { name: wanted }),
            None => {
                proof {
                    absent_everywhere(self@, name@);
                }
                let mut containers: Vec<Container> = Vec::new();
                std::mem::swap(&mut containers, &mut self.containers);
                containers.push(Container { name: wanted, state: ContainerState::Created });
                proof {
                    let after = entries_of(containers@);
                    assert(after =~= old(self)@.push((name@, ContainerState::Created)));
                }
                self.containers = containers;
                Ok(())
            },
        }
    }

    /// Moves a created or stopped container to running.
    fn start(&mut self, name: &str) -> (result: Result<(), LxcError>)
        ensures
            outcome(result) == start_outcome(old(self)@, name@),
            final(self)@ == after_start(old(self)@, name@),
            distinct_names(final(self)@),
    {
        let wanted = String::from_str(name);
        match self.find(&wanted) {
            Some(index) => match self.containers[index].state {
                ContainerState::Created | ContainerState::Stopped => {
                    self.move_to(index, wanted, ContainerState::Running);
                    Ok(())
                },
                ContainerState::Running => Err(LxcError::AlreadyRunning { name: wanted }),
                ContainerState::Deleted => Err(LxcError::DoesNotExist { name: wanted }),
            },
            None => Err(LxcError::DoesNotExist { name: wanted }),
        }
    }

    /// Moves a running container to stopped.
    fn stop(&mut self, name: &str) -> (result: Result<(), LxcError>)
        ensures
            outcome(result) == stop_outcome(old(self)@, name@),
            final(self)@ == after_stop(old(self)@, name@),
            distinct_names(final(self)@),
    {
        let wanted = String::from_str(name);
        match self.find(&wanted) {
            Some(index) => match self.containers[index].state {
                ContainerState::Running => {
                    self.move_to(index, wanted, ContainerState::Stopped);
                    Ok(())
                },
                ContainerState::Stopped => Err(LxcError::AlreadyStopped { name: wanted }),
                _ => Err(LxcError::NotRunning { name: wanted }),
            },
            None => Err(LxcError::NotRunning { name: wanted }),
        }
    }

    /// Takes a created or stopped container out of the table.
    fn delete(&mut self, name: &str) -> (result: Result<(), LxcError>)
        ensures
            outcome(result) == delete_outcome(old(self)@, name@),
            final(self)@ == after_delete(old(self)@, name@),
            distinct_names(final(self)@),
    {
        let wanted = String::from_str(name);
        match self.find(&wanted) {
            Some(index) => match self.containers[index].state {
                ContainerState::Created | ContainerState::Stopped => {
                    proof {
                        without_is_remove(self@, index as int);
                    }
                    let mut containers: Vec<Container> = Vec::new();
                    std::mem::swap(&mut containers, &mut self.containers);
                    containers.remove(index);
                    proof {
                        let after = entries_of(containers@);
                        assert(after =~= old(self)@.remove(index as int));
                    }
                    self.containers = containers;
                    Ok(())
                },
                ContainerState::Running => Err(LxcError::IsRunning { name: wanted }),
                ContainerState::Deleted => Err(LxcError::DoesNotExist { name: wanted }),
            },
            None => Err(LxcError::DoesNotExist { name: wanted }),
        }
    }

    /// Lists the containers that are not deleted, one line each.
    fn list(&self) -> (result: Result<String, LxcError>)
        ensures
            result matches Ok(text) && text@ == listing(self@),
    {
        let mut text = String::new();
        let mut any = false;
        let mut index: usize = 0;
        while index < self.containers.len()
            invariant
                index <= self.containers.len(),
                self@.len() == self.containers.len(),
                text@ == listing(self@.take(index as int)),
                any == (listed(self@.take(index as int)).len() > 0),
            decreases self.containers.len() - index,
        {
            let container = &self.containers[index];
            proof {
                assert(self@.take(index + 1) =~= self@.take(index as int).push(self@[index as int]));
                listing_push(self@.take(index as int), self@[index as int]);
            }
            match container.state {
                ContainerState::Deleted => {},
                state => {
                    if any {
                        text.append("\n");
                    }
                    text.append(container.name.as_str());
                    text.append(" ");
                    text.append(state_name(state));
                    any = true;
                    assert(text@ =~= listing(self@.take(index + 1)));
                },
            }
            index += 1;
        }
        assert(self@.take(index as int) =~= self@);
        Ok(text)
    }

    /// Shuts a container down, which is stopping it.
    fn shutdown(&mut self, name: &str) -> (result: Result<(), LxcError>)
        ensures
            outcome(result) == shutdown_outcome(old(self)@, name@),
            final(self)@ == after_shutdown(old(self)@, name@),
            distinct_names(final(self)@),
    {
        self.stop(name)
    }
}

} // verus!
