//! Which names are taken, and by which worker.
use crate::text::{self, cat5, usize_text};
use crate::worker::WorkerId;
use vstd::hash_map::StringHashMap;
use vstd::prelude::*;

verus! {

/// A name that is taken.
#[derive(Debug)]
pub enum NameConflictError {
    /// The name, and the worker that has it.
    AlreadyExists(String, WorkerId),
}

impl NameConflictError {
    /// The text of an error.
    pub open spec fn text(self) -> Seq<char> {
        match self {
            NameConflictError::AlreadyExists(name, id) => "Worker name '"@ + name@
                + "' is already in use by worker WorkerId("@ + text::decimal(id.0 as nat) + ")"@,
        }
    }

    /// Returns the text of an error.
    pub fn message(&self) -> (r: String)
        ensures
            r@ == self.text(),
    {
        match self {
            NameConflictError::AlreadyExists(name, id) => cat5(
                "Worker name '",
                name.as_str(),
                "' is already in use by worker WorkerId(",
                usize_text(id.0).as_str(),
                ")",
            ),
        }
    }
}

/// The names that are taken.
pub struct NameRegistry {
    name_to_id: StringHashMap<WorkerId>,
}

impl View for NameRegistry {
    type V = Map<Seq<char>, WorkerId>;

    closed spec fn view(&self) -> Map<Seq<char>, WorkerId> {
        self.name_to_id@
    }
}

/// Whether a worker may take a name: it is free, or the worker has it already.
pub open spec fn may_take(names: Map<Seq<char>, WorkerId>, name: Seq<char>, id: WorkerId) -> bool {
    !names.contains_key(name) || names[name] == id
}

/// The names after a worker has given up one for another.
pub open spec fn renamed(
    names: Map<Seq<char>, WorkerId>,
    old_name: Seq<char>,
    new_name: Seq<char>,
    id: WorkerId,
) -> Map<Seq<char>, WorkerId> {
    names.remove(old_name).insert(new_name, id)
}

impl NameRegistry {
    /// Returns a registry in which no name is taken.
    pub fn new() -> (r: Self)
        ensures
            r@ == Map::<Seq<char>, WorkerId>::empty(),
    {
        NameRegistry { name_to_id: StringHashMap::new() }
    }

    /// Takes a name for a worker, unless the name is taken.
    pub fn register(&mut self, name: String, id: WorkerId) -> (r: Result<(), NameConflictError>)
        ensures
            match r {
                Ok(()) => !old(self)@.contains_key(name@) && final(self)@ == old(self)@.insert(
                    name@,
                    id,
                ),
                Err(NameConflictError::AlreadyExists(taken, holder)) => old(self)@.contains_key(
                    name@,
                ) && taken@ == name@ && holder == old(self)@[name@] && final(self)@ == old(self)@,
            },
    {
        if let Some(holder) = self.name_to_id.get(name.as_str()) {
            return Err(NameConflictError::AlreadyExists(name, *holder));
        }
        self.name_to_id.insert(name, id);
        Ok(())
    }

    /// Gives up a name.
    pub fn unregister(&mut self, name: &str)
        ensures
            final(self)@ == old(self)@.remove(name@),
    {
        self.name_to_id.remove(name);
    }

    /// Gives up a name of a worker for another, unless another worker has that one.
    pub fn rename(&mut self, old_name: &str, new_name: String, id: WorkerId) -> (r: Result<
        (),
        NameConflictError,
    >)
        ensures
            match r {
                Ok(()) => may_take(old(self)@, new_name@, id) && final(self)@ == renamed(
                    old(self)@,
                    old_name@,
                    new_name@,
                    id,
                ),
                Err(NameConflictError::AlreadyExists(taken, holder)) => !may_take(
                    old(self)@,
                    new_name@,
                    id,
                ) && taken@ == new_name@ && holder == old(self)@[new_name@] && final(self)@
                    == old(self)@,
            },
    {
        if let Some(holder) = self.name_to_id.get(new_name.as_str()) {
            if holder.0 != id.0 {
                return Err(NameConflictError::AlreadyExists(new_name, *holder));
            }
        }
        self.name_to_id.remove(old_name);
        self.name_to_id.insert(new_name, id);
        Ok(())
    }

    /// Whether a name is free.
    pub fn is_available(&self, name: &str) -> (r: bool)
        ensures
            r == !self@.contains_key(name@),
    {
        !self.name_to_id.contains_key(name)
    }

    /// Returns the worker that has a name.
    pub fn get_id(&self, name: &str) -> (r: Option<WorkerId>)
        ensures
            r == (if self@.contains_key(name@) {
                Some(self@[name@])
            } else {
                None
            }),
    {
        match self.name_to_id.get(name) {
            Some(id) => Some(*id),
            None => None,
        }
    }
}

impl Default for NameRegistry {
    fn default() -> (r: Self)
        ensures
            r@ == Map::<Seq<char>, WorkerId>::empty(),
    {
        NameRegistry::new()
    }
}

/// A rename that is taken back leaves the names as they were.
pub proof fn rename_can_be_undone(
    names: Map<Seq<char>, WorkerId>,
    old_name: Seq<char>,
    new_name: Seq<char>,
    id: WorkerId,
)
    requires
        names.contains_key(old_name),
        names[old_name] == id,
        !names.contains_key(new_name),
    ensures
        may_take(renamed(names, old_name, new_name, id), old_name, id),
        renamed(renamed(names, old_name, new_name, id), new_name, old_name, id) == names,
{
    assert(renamed(renamed(names, old_name, new_name, id), new_name, old_name, id) =~= names);
}

/// A name that is taken and given up again leaves the names as they were.
pub proof fn register_can_be_undone(
    names: Map<Seq<char>, WorkerId>,
    name: Seq<char>,
    id: WorkerId,
)
    requires
        !names.contains_key(name),
    ensures
        names.insert(name, id).remove(name) == names,
{
    assert(names.insert(name, id).remove(name) =~= names);
}

/// A rename frees the old name, gives the new one to the worker and touches no other.
pub proof fn rename_moves_one_name(
    names: Map<Seq<char>, WorkerId>,
    old_name: Seq<char>,
    new_name: Seq<char>,
    id: WorkerId,
    other: Seq<char>,
)
    requires
        old_name != new_name,
        other != old_name,
        other != new_name,
    ensures
        !renamed(names, old_name, new_name, id).contains_key(old_name),
        renamed(names, old_name, new_name, id)[new_name] == id,
        renamed(names, old_name, new_name, id).contains_key(other) == names.contains_key(other),
        names.contains_key(other) ==> renamed(names, old_name, new_name, id)[other]
            == names[other],
{
}

/// A free name may be taken by every worker, a taken one only by the worker that has it.
pub proof fn taken_names_stay_with_their_worker(
    names: Map<Seq<char>, WorkerId>,
    name: Seq<char>,
    holder: WorkerId,
    id: WorkerId,
)
    ensures
        !names.contains_key(name) ==> may_take(names, name, id),
        names.contains_key(name) && names[name] == holder ==> (may_take(names, name, id) <==> id
            == holder),
        renamed(names, name, name, id)[name] == id,
{
}

} // verus!
