//! The engine configuration catalog: which validated configurations exist, in
//! what order, and which one is active.
//!
//! The catalog is data-driven: every configuration is parsed and validated
//! before it is listed here, and list, active-ID and select-by-ID all go
//! through this one interface whether one engine ships or many.

use vstd::prelude::*;
use vstd::string::StringExecFns;

use crate::error::{unknown_id_message, ErrorCode, SimError};
use crate::provenance::texts;

verus! {

/// The index of the first ID, counting within the first `n`, that repeats an
/// earlier one.
pub open spec fn first_repeat(ids: Seq<Seq<char>>, n: nat) -> Option<nat>
    decreases n,
{
    if n == 0 {
        None
    } else {
        match first_repeat(ids, (n - 1) as nat) {
            Some(i) => Some(i),
            None => if ids.take(n - 1).contains(ids[n - 1]) {
                Some((n - 1) as nat)
            } else {
                None
            },
        }
    }
}

/// The message for a repeated configuration ID.
pub open spec fn duplicate_id_message(id: Seq<char>) -> Seq<char> {
    "duplicate configuration id `"@ + id + "`"@
}

/// The validated configurations' IDs, in catalog order, with one selected.
#[derive(Debug)]
pub struct Catalog {
    ids: Vec<String>,
    active: usize,
}

impl Clone for Catalog {
    fn clone(&self) -> (copy: Self)
        ensures
            copy.id_list() == self.id_list(),
            copy.active_position() == self.active_position(),
    {
        proof {
            use_type_invariant(self);
        }
        let ids = self.list_ids();
        Catalog { ids, active: self.active }
    }
}

impl Catalog {
    /// The configuration IDs in catalog order.
    pub closed spec fn id_list(&self) -> Seq<Seq<char>> {
        texts(self.ids@)
    }

    /// Position of the active configuration.
    pub closed spec fn active_position(&self) -> nat {
        self.active as nat
    }

    /// At least one configuration, no ID twice, and the selection in range.
    pub open spec fn wf(&self) -> bool {
        &&& self.id_list().len() >= 1
        &&& self.id_list().no_duplicates()
        &&& self.active_position() < self.id_list().len()
    }

    /// Every catalog is well formed.
    #[verifier::type_invariant]
    closed spec fn catalog_invariant(&self) -> bool {
        self.wf()
    }

    /// Build the catalog from the IDs of configurations that have already been
    /// validated, in order. The first becomes active.
    pub fn from_ids(ids: Vec<String>) -> (result: Result<Self, SimError>)
        ensures
            match result {
                Ok(catalog) => {
                    &&& catalog.wf()
                    &&& catalog.id_list() == texts(ids@)
                    &&& catalog.active_position() == 0
                },
                Err(e) => {
                    &&& e.code == ErrorCode::InvalidConfig
                    &&& ids@.len() == 0 ==> e.message@
                        == "a catalog needs at least one configuration"@
                    &&& ids@.len() > 0 ==> {
                        &&& first_repeat(texts(ids@), ids@.len()) matches Some(i)
                        &&& e.message@ == duplicate_id_message(texts(ids@)[i as int])
                    }
                },
            },
    {
        let ghost t = texts(ids@);
        if ids.len() == 0 {
            return Err(SimError::invalid_config("a catalog needs at least one configuration"));
        }
        let n = ids.len();
        let mut i: usize = 0;
        while i < n
            invariant
                n == ids@.len(),
                t == texts(ids@),
                i <= n,
                first_repeat(t, i as nat) is None,
                forall|a: int, b: int| 0 <= a < b < i ==> t[a] != t[b],
            decreases n - i,
        {
            let mut j: usize = 0;
            while j < i
                invariant
                    n == ids@.len(),
                    t == texts(ids@),
                    j <= i < n,
                    first_repeat(t, i as nat) is None,
                    forall|a: int| 0 <= a < j ==> t[a] != t[i as int],
                decreases i - j,
            {
                if ids[j] == ids[i] {
                    proof {
                        assert(t.take(i as int)[j as int] == t[i as int]);
                        assert(t.take(i as int).contains(t[i as int]));
                        assert(first_repeat(t, (i + 1) as nat) == Some(i as nat));
                        lemma_first_repeat_persists(t, (i + 1) as nat, n as nat);
                    }
                    let mut message = String::from_str("duplicate configuration id `");
                    message.append(ids[i].as_str());
                    message.append("`");
                    return Err(SimError { code: ErrorCode::InvalidConfig, message });
                }
                j = j + 1;
            }
            proof {
                assert(!t.take(i as int).contains(t[i as int])) by {
                    if t.take(i as int).contains(t[i as int]) {
                        let a = choose|a: int|
                            0 <= a < t.take(i as int).len() && t.take(i as int)[a] == t[i as int];
                        assert(t[a] == t[i as int]);
                    }
                }
            }
            i = i + 1;
        }
        let catalog = Catalog { ids, active: 0 };
        proof {
            assert(catalog.id_list() == t);
        }
        Ok(catalog)
    }

    /// Number of configurations.
    pub fn len(&self) -> (n: usize)
        ensures
            n as nat == self.id_list().len(),
    {
        self.ids.len()
    }

    /// The configuration IDs in catalog order.
    pub fn list_ids(&self) -> (ids: Vec<String>)
        ensures
            texts(ids@) == self.id_list(),
    {
        let n = self.ids.len();
        let mut out: Vec<String> = Vec::new();
        let mut i: usize = 0;
        while i < n
            invariant
                n == self.ids@.len(),
                i <= n,
                out@.len() == i,
                forall|j: int| 0 <= j < i ==> #[trigger] out@[j]@ == self.ids@[j]@,
            decreases n - i,
        {
            out.push(self.ids[i].clone());
            i = i + 1;
        }
        assert(texts(out@) =~= self.id_list());
        out
    }

    /// Position of the active configuration in catalog order.
    pub fn active_index(&self) -> (i: usize)
        ensures
            i as nat == self.active_position(),
    {
        self.active
    }

    /// ID of the active configuration.
    pub fn active_id(&self) -> (id: &str)
        ensures
            id@ == self.id_list()[self.active_position() as int],
    {
        proof {
            use_type_invariant(self);
        }
        self.ids[self.active].as_str()
    }

    /// Position of `id` in catalog order, if the catalog holds it.
    pub fn position(&self, id: &str) -> (found: Option<usize>)
        ensures
            match found {
                Some(i) => i < self.id_list().len() && self.id_list()[i as int] == id@,
                None => !self.id_list().contains(id@),
            },
    {
        let target = String::from_str(id);
        let n = self.ids.len();
        let mut i: usize = 0;
        while i < n
            invariant
                n == self.ids@.len(),
                i <= n,
                target@ == id@,
                forall|j: int| 0 <= j < i ==> self.ids@[j]@ != id@,
            decreases n - i,
        {
            if self.ids[i] == target {
                return Some(i);
            }
            i = i + 1;
        }
        proof {
            if self.id_list().contains(id@) {
                let j = choose|j: int| 0 <= j < self.id_list().len() && self.id_list()[j] == id@;
                assert(self.ids@[j]@ == id@);
            }
        }
        None
    }

    /// Whether an ID exists in the catalog.
    pub fn contains(&self, id: &str) -> (b: bool)
        ensures
            b == self.id_list().contains(id@),
    {
        match self.position(id) {
            Some(_) => true,
            None => false,
        }
    }

    /// Select a configuration by stable ID.
    ///
    /// An unknown ID is refused and leaves the selection unchanged. Callers
    /// follow a successful selection with a deterministic reset.
    pub fn select(&mut self, id: &str) -> (result: Result<(), SimError>)
        ensures
            final(self).wf(),
            final(self).id_list() == old(self).id_list(),
            match result {
                Ok(()) => {
                    &&& old(self).id_list().contains(id@)
                    &&& final(self).id_list()[final(self).active_position() as int] == id@
                },
                Err(e) => {
                    &&& !old(self).id_list().contains(id@)
                    &&& final(self).active_position() == old(self).active_position()
                    &&& e.code == ErrorCode::UnknownConfigId
                    &&& e.message@ == unknown_id_message(id@)
                },
            },
    {
        proof {
            use_type_invariant(&*self);
        }
        match self.position(id) {
            Some(index) => {
                self.active = index;
                Ok(())
            },
            None => Err(SimError::unknown_config_id(id)),
        }
    }
}

/// Once some ID repeats, every longer prefix reports that same repeat.
proof fn lemma_first_repeat_persists(ids: Seq<Seq<char>>, i: nat, n: nat)
    requires
        i <= n,
        first_repeat(ids, i) is Some,
    ensures
        first_repeat(ids, n) == first_repeat(ids, i),
    decreases n - i,
{
    if i < n {
        lemma_first_repeat_persists(ids, i, (n - 1) as nat);
    }
}

/// Selection is by ID alone: in a well-formed catalog, an ID names exactly one
/// position, so after a successful selection the active position is that
/// position, whatever was active before. In particular selecting the active
/// ID changes nothing.
pub proof fn lemma_id_names_one_position(catalog: &Catalog, id: Seq<char>, a: int, b: int)
    requires
        catalog.wf(),
        0 <= a < catalog.id_list().len(),
        0 <= b < catalog.id_list().len(),
        catalog.id_list()[a] == id,
        catalog.id_list()[b] == id,
    ensures
        a == b,
{
}

} // verus!
