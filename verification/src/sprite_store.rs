//! Named sprites: the store a renderer looks sprites up in, with the error
//! it answers for a name it does not hold.
use vstd::prelude::*;
use vstd::string::StringExecFns;
use crate::text::str_eq;

verus! {

/// The sprite stored last under `name` among `entries`, if any.
pub open spec fn lookup<S>(entries: Seq<(String, S)>, name: Seq<char>) -> Option<S>
    decreases entries.len(),
{
    if entries.len() == 0 {
        None
    } else if entries.last().0@ == name {
        Some(entries.last().1)
    } else {
        lookup(entries.drop_last(), name)
    }
}

/// The index of the last entry named `name` among `entries`, or -1.
pub open spec fn last_named<S>(entries: Seq<(String, S)>, name: Seq<char>) -> int
    decreases entries.len(),
{
    if entries.len() == 0 {
        -1
    } else if entries.last().0@ == name {
        entries.len() - 1
    } else {
        last_named(entries.drop_last(), name)
    }
}

proof fn lemma_last_named<S>(entries: Seq<(String, S)>, name: Seq<char>)
    ensures
        -1 <= last_named(entries, name) < entries.len(),
        last_named(entries, name) == -1 <==> lookup(entries, name) is None,
        last_named(entries, name) >= 0 ==> entries[last_named(entries, name)].0@ == name
            && lookup(entries, name) == Some(entries[last_named(entries, name)].1),
        forall|j: int| last_named(entries, name) < j < entries.len() ==> entries[j].0@ != name,
    decreases entries.len(),
{
    if entries.len() > 0 {
        let d = entries.drop_last();
        lemma_last_named(d, name);
        assert forall|j: int| last_named(entries, name) < j < entries.len() implies entries[j].0@ != name by {
            if j < entries.len() - 1 {
                assert(entries[j] == d[j]);
            }
        }
    }
}

/// Replacing the last entry named `e.0` by `e` stores `e.1` under that
/// name and changes no other name's sprite.
proof fn lemma_lookup_replace<S>(entries: Seq<(String, S)>, e: (String, S), m: Seq<char>)
    requires
        last_named(entries, e.0@) >= 0,
    ensures
        lookup(entries.update(last_named(entries, e.0@), e), m) == if m == e.0@ {
            Some(e.1)
        } else {
            lookup(entries, m)
        },
    decreases entries.len(),
{
    let k = last_named(entries, e.0@);
    let u = entries.update(k, e);
    let d = entries.drop_last();
    lemma_last_named(entries, e.0@);
    if k == entries.len() - 1 {
        assert(u.drop_last() =~= d);
    } else {
        lemma_last_named(d, e.0@);
        assert(k == last_named(d, e.0@));
        lemma_lookup_replace(d, e, m);
        assert(u.drop_last() =~= d.update(k, e));
        assert(u.last() == entries.last());
    }
}

/// Sprites of type `S` by name; storing under a name already held replaces
/// that sprite.
pub struct SpriteStore<S> {
    entries: Vec<(String, S)>,
}

impl<S> SpriteStore<S> {
    /// The sprite held under `name`, if any.
    pub closed spec fn get_spec(&self, name: Seq<char>) -> Option<S> {
        lookup(self.entries@, name)
    }

    /// An empty store.
    pub fn new() -> (r: Self)
        ensures
            forall|name: Seq<char>| #[trigger] r.get_spec(name) is None,
    {
        SpriteStore { entries: Vec::new() }
    }

    /// Index of the last entry named `name`.
    fn find(&self, name: &str) -> (r: Option<usize>)
        ensures
            match r {
                Some(k) => k as int == last_named(self.entries@, name@),
                None => last_named(self.entries@, name@) == -1,
            },
    {
        let mut found: Option<usize> = None;
        let mut i: usize = 0;
        while i < self.entries.len()
            invariant
                i <= self.entries@.len(),
                match found {
                    Some(k) => k as int == last_named(self.entries@.take(i as int), name@),
                    None => last_named(self.entries@.take(i as int), name@) == -1,
                },
            decreases self.entries@.len() - i,
        {
            assert(self.entries@.take(i + 1).drop_last() =~= self.entries@.take(i as int));
            if str_eq(self.entries[i].0.as_str(), name) {
                found = Some(i);
            }
            i = i + 1;
        }
        assert(self.entries@.take(i as int) =~= self.entries@);
        found
    }

    /// Store `sprite` under `name`, replacing any sprite held under it.
    pub fn insert(&mut self, name: String, sprite: S)
        ensures
            final(self).get_spec(name@) == Some(sprite),
            forall|m: Seq<char>| m != name@ ==> #[trigger] final(self).get_spec(m) == old(self).get_spec(m),
    {
        let found = self.find(name.as_str());
        proof {
            lemma_last_named(self.entries@, name@);
        }
        let ghost e = (name, sprite);
        match found {
            Some(k) => {
                self.entries.set(k, (name, sprite));
                proof {
                    assert forall|m: Seq<char>| true implies #[trigger] lookup(self.entries@, m) == if m == e.0@ {
                        Some(e.1)
                    } else {
                        lookup(old(self).entries@, m)
                    } by {
                        lemma_lookup_replace(old(self).entries@, e, m);
                    }
                }
            },
            None => {
                self.entries.push((name, sprite));
                proof {
                    assert(self.entries@.drop_last() =~= old(self).entries@);
                }
            },
        }
    }

    /// The sprite held under `name`, or the error `Sprite not found: <name>`.
    pub fn get(&self, name: &str) -> (r: Result<&S, String>)
        ensures
            match r {
                Ok(s) => self.get_spec(name@) == Some(*s),
                Err(msg) => self.get_spec(name@) is None && msg@ == "Sprite not found: "@ + name@,
            },
    {
        let found = self.find(name);
        proof {
            lemma_last_named(self.entries@, name@);
        }
        match found {
            Some(k) => Ok(&self.entries[k].1),
            None => {
                let mut msg = String::from_str("Sprite not found: ");
                msg.append(name);
                Err(msg)
            },
        }
    }
}

} // verus!
