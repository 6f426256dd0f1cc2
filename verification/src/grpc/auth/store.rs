//! What the server keeps in memory: the signatures of the registered users,
//! the verifiers of the proofs under way, and the open sessions.

use crate::crypto::verification::VerifierView;
use crate::grpc::auth::messages::Signature;
use crate::grpc::auth::messages::SignatureView;
use crate::zkp::verification::Verifier;
use std::collections::HashMap;
use std::collections::HashSet;
use vstd::prelude::*;

verus! {

/// Whether the `i`-th of `names` is the first that equals `name`.
spec fn first_at(names: Seq<Seq<char>>, name: Seq<char>, i: int) -> bool {
    &&& 0 <= i < names.len()
    &&& names[i] == name
    &&& forall|j: int| 0 <= j < i ==> #[trigger] names[j] != name
}

/// Where `name` stands at place `j`, it stands first at some place.
proof fn lemma_first_exists(names: Seq<Seq<char>>, name: Seq<char>, j: int)
    requires
        0 <= j < names.len(),
        names[j] == name,
    ensures
        exists|i: int| first_at(names, name, i),
    decreases j,
{
    if exists|h: int| 0 <= h < j && names[h] == name {
        let h = choose|h: int| 0 <= h < j && names[h] == name;
        lemma_first_exists(names, name, h);
    } else {
        assert(first_at(names, name, j));
    }
}

/// A name stands first at one place at most.
proof fn lemma_first_is_unique(names: Seq<Seq<char>>, name: Seq<char>, i: int, j: int)
    requires
        first_at(names, name, i),
        first_at(names, name, j),
    ensures
        i == j,
{
}

/// What appending a name that does not occur does to the first places.
proof fn lemma_first_after_push(names: Seq<Seq<char>>, name: Seq<char>)
    requires
        forall|i: int| !first_at(names, name, i),
    ensures
        first_at(names.push(name), name, names.len() as int),
        forall|key: Seq<char>, i: int|
            key != name ==> #[trigger] first_at(names.push(name), key, i) == first_at(
                names,
                key,
                i,
            ),
{
    let longer = names.push(name);
    assert forall|j: int| 0 <= j < names.len() implies #[trigger] longer[j] != name by {
        if names[j] == name {
            lemma_first_exists(names, name, j);
        }
    }
    assert forall|key: Seq<char>, i: int| key != name implies #[trigger] first_at(longer, key, i)
        == first_at(names, key, i) by {
        if first_at(longer, key, i) {
            assert(i < names.len());
            assert(longer[i] == names[i]);
            assert forall|j: int| 0 <= j < i implies #[trigger] names[j] != key by {
                assert(longer[j] == names[j]);
            }
        }
        if first_at(names, key, i) {
            assert(longer[i] == names[i]);
            assert forall|j: int| 0 <= j < i implies #[trigger] longer[j] != key by {
                assert(longer[j] == names[j]);
            }
        }
    }
}

/// The signatures of the registered users, by username.
pub struct SignatureRegistry {
    entries: Vec<(String, Signature)>,
}

impl SignatureRegistry {
    /// The usernames in the order of their registration.
    spec fn names(self) -> Seq<Seq<char>> {
        Seq::new(self.entries.len() as nat, |i: int| self.entries[i].0@)
    }

    /// The signatures by username.
    pub closed spec fn view(&self) -> Map<Seq<char>, SignatureView> {
        Map::new(
            |username: Seq<char>| exists|i: int| first_at(self.names(), username, i),
            |username: Seq<char>|
                self.entries[choose|i: int| first_at(self.names(), username, i)].1@,
        )
    }

    /// A registry without users.
    pub fn new() -> (registry: Self)
        ensures
            registry@ == Map::<Seq<char>, SignatureView>::empty(),
    {
        let registry = SignatureRegistry { entries: Vec::new() };
        assert(registry@ =~= Map::<Seq<char>, SignatureView>::empty());
        registry
    }

    /// The place of `username` among the entries, if it is registered.
    fn find(&self, username: &String) -> (place: Option<usize>)
        ensures
            match place {
                Some(i) => first_at(self.names(), username@, i as int),
                None => forall|i: int| !first_at(self.names(), username@, i),
            },
    {
        let mut i: usize = 0;
        while i < self.entries.len()
            invariant
                i <= self.entries.len(),
                forall|j: int| 0 <= j < i ==> #[trigger] self.names()[j] != username@,
            decreases self.entries.len() - i,
        {
            if self.entries[i].0 == *username {
                return Some(i);
            }
            i = i + 1;
        }
        None
    }

    /// The signature that is registered under `username`, if there is one.
    pub fn get(&self, username: &String) -> (signature: Option<Signature>)
        ensures
            match signature {
                Some(s) => self@.contains_key(username@) && s@ == self@[username@],
                None => !self@.contains_key(username@),
            },
    {
        match self.find(username) {
            Some(i) => {
                proof {
                    let chosen = choose|j: int| first_at(self.names(), username@, j);
                    lemma_first_is_unique(self.names(), username@, chosen, i as int);
                }
                Some(self.entries[i].1.clone())
            },
            None => None,
        }
    }

    /// Registers `signature` under `username` unless the username is taken,
    /// in one step. It tells whether it did.
    pub fn register(&mut self, username: String, signature: Signature) -> (done: bool)
        ensures
            done == !old(self)@.contains_key(username@),
            done ==> final(self)@ == old(self)@.insert(username@, signature@),
            !done ==> final(self)@ == old(self)@,
    {
        if self.find(&username).is_some() {
            return false;
        }
        let ghost before = *self;
        let ghost name = username@;
        let ghost added = signature@;
        self.entries.push((username, signature));
        proof {
            let after = *self;
            let last = before.entries.len() as int;
            assert(after.names() =~= before.names().push(name));
            lemma_first_after_push(before.names(), name);
            let wanted = before@.insert(name, added);
            assert forall|key: Seq<char>| after@.contains_key(key) == wanted.contains_key(
                key,
            ) by {
                if key == name {
                    assert(first_at(after.names(), key, last));
                } else {
                    if before@.contains_key(key) {
                        let j = choose|j: int| first_at(before.names(), key, j);
                        assert(first_at(after.names(), key, j));
                    }
                    if after@.contains_key(key) {
                        let i = choose|i: int| first_at(after.names(), key, i);
                        assert(first_at(before.names(), key, i));
                    }
                }
            }
            assert forall|key: Seq<char>| after@.contains_key(key) implies after@[key]
                == wanted[key] by {
                let i = choose|i: int| first_at(after.names(), key, i);
                assert(first_at(after.names(), key, i));
                if key == name {
                    lemma_first_is_unique(after.names(), key, i, last);
                } else {
                    assert(first_at(before.names(), key, i));
                    let j = choose|j: int| first_at(before.names(), key, j);
                    lemma_first_is_unique(before.names(), key, i, j);
                    assert(after.entries[i] == before.entries[i]);
                }
            }
            assert(after@ =~= wanted);
        }
        true
    }
}

/// The verifiers of the proofs under way, by identifier.
pub struct PendingVerifiers {
    verifiers: HashMap<u128, Verifier>,
}

impl PendingVerifiers {
    /// The verifiers by identifier.
    pub closed spec fn view(&self) -> Map<u128, VerifierView> {
        self.verifiers@.map_values(|verifier: Verifier| verifier@)
    }

    /// No verifiers.
    pub fn new() -> (pending: Self)
        ensures
            pending@ == Map::<u128, VerifierView>::empty(),
    {
        let pending = PendingVerifiers { verifiers: HashMap::new() };
        assert(pending@ =~= Map::<u128, VerifierView>::empty());
        pending
    }

    /// Stores `verifier` under `id`, in place of what was there.
    pub fn insert(&mut self, id: u128, verifier: Verifier)
        ensures
            final(self)@ == old(self)@.insert(id, verifier@),
    {
        let ghost added = verifier@;
        self.verifiers.insert(id, verifier);
        assert(self@ =~= old(self)@.insert(id, added));
    }

    /// Takes the verifier out that is stored under `id`, in one step.
    pub fn take(&mut self, id: u128) -> (verifier: Option<Verifier>)
        ensures
            match verifier {
                Some(v) => old(self)@.contains_key(id) && v@ == old(self)@[id],
                None => !old(self)@.contains_key(id),
            },
            final(self)@ == old(self)@.remove(id),
    {
        let verifier = self.verifiers.remove(&id);
        assert(self@ =~= old(self)@.remove(id));
        verifier
    }
}

/// The identifiers of the open sessions.
pub struct ActiveSessions {
    sessions: HashSet<u128>,
}

impl ActiveSessions {
    /// The identifiers.
    pub closed spec fn view(&self) -> Set<u128> {
        self.sessions@
    }

    /// No sessions.
    pub fn new() -> (active: Self)
        ensures
            active@ == Set::<u128>::empty(),
    {
        ActiveSessions { sessions: HashSet::new() }
    }

    /// Opens the session `id`.
    pub fn insert(&mut self, id: u128)
        ensures
            final(self)@ == old(self)@.insert(id),
    {
        self.sessions.insert(id);
    }

    /// Whether the session `id` is open.
    pub fn contains(&self, id: u128) -> (open: bool)
        ensures
            open == self@.contains(id),
    {
        self.sessions.contains(&id)
    }

    /// Closes the session `id`. It tells whether the session was open.
    pub fn remove(&mut self, id: u128) -> (was_open: bool)
        ensures
            was_open == old(self)@.contains(id),
            final(self)@ == old(self)@.remove(id),
    {
        self.sessions.remove(&id)
    }
}

} // verus!
