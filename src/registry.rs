//! The set of live streaming sessions, keyed by the client's full address.
use vstd::prelude::*;

verus! {

/// The map that a sequence of (key, value) entries stands for; later entries
/// overwrite earlier ones.
pub open spec fn entries_map<C>(s: Seq<(Seq<char>, C)>) -> Map<Seq<char>, C>
    decreases s.len(),
{
    if s.len() == 0 {
        Map::empty()
    } else {
        entries_map(s.drop_last()).insert(s.last().0, s.last().1)
    }
}

/// No key occurs twice.
pub open spec fn keys_distinct<C>(s: Seq<(Seq<char>, C)>) -> bool {
    forall|i: int, j: int| 0 <= i < j < s.len() ==> s[i].0 != s[j].0
}

pub(crate) proof fn lemma_entries_map_dom<C>(s: Seq<(Seq<char>, C)>)
    ensures
        entries_map(s).dom().finite(),
        forall|k: Seq<char>| #[trigger] entries_map(s).contains_key(k)
            <==> exists|i: int| 0 <= i < s.len() && s[i].0 == k,
        keys_distinct(s) ==> entries_map(s).dom().len() == s.len(),
        keys_distinct(s) ==> forall|i: int| 0 <= i < s.len() ==> entries_map(s)[#[trigger] s[i].0] == s[i].1,
    decreases s.len(),
{
    if s.len() > 0 {
        let p = s.drop_last();
        lemma_entries_map_dom(p);
        assert forall|k: Seq<char>| #[trigger] entries_map(s).contains_key(k)
            <==> exists|i: int| 0 <= i < s.len() && s[i].0 == k by {
            if entries_map(s).contains_key(k) && k != s.last().0 {
                let i = choose|i: int| 0 <= i < p.len() && p[i].0 == k;
                assert(s[i].0 == k);
            }
            if exists|i: int| 0 <= i < s.len() && s[i].0 == k {
                let i = choose|i: int| 0 <= i < s.len() && s[i].0 == k;
                if i < p.len() {
                    assert(p[i].0 == k);
                }
            }
        }
        if keys_distinct(s) {
            assert(keys_distinct(p));
            assert(!entries_map(p).contains_key(s.last().0)) by {
                if entries_map(p).contains_key(s.last().0) {
                    let i = choose|i: int| 0 <= i < p.len() && p[i].0 == s.last().0;
                    assert(s[i].0 == s[s.len() - 1].0);
                }
            }
            assert forall|i: int| 0 <= i < s.len() implies entries_map(s)[#[trigger] s[i].0] == s[i].1 by {
                if i < p.len() {
                    assert(p[i] == s[i]);
                }
            }
        }
    }
}

proof fn lemma_entries_map_remove<C>(s: Seq<(Seq<char>, C)>, i: int)
    requires
        keys_distinct(s),
        0 <= i < s.len(),
    ensures
        entries_map(s.remove(i)) =~= entries_map(s).remove(s[i].0),
        keys_distinct(s.remove(i)),
    decreases s.len(),
{
    let p = s.drop_last();
    let k = s[i].0;
    lemma_entries_map_dom(p);
    if i == s.len() - 1 {
        assert(s.remove(i) =~= p);
        assert(!entries_map(p).contains_key(k)) by {
            if entries_map(p).contains_key(k) {
                let j = choose|j: int| 0 <= j < p.len() && p[j].0 == k;
                assert(s[j].0 == s[i].0);
            }
        }
    } else {
        assert(keys_distinct(p));
        lemma_entries_map_remove(p, i);
        assert(p[i] == s[i]);
        assert(s.remove(i) =~= p.remove(i).push(s.last()));
        assert(s.remove(i).drop_last() =~= p.remove(i));
        assert(k != s.last().0);
    }
}

/// The live sessions: at most one entry per client address.
pub struct SessionRegistry<C> {
    entries: Vec<(String, C)>,
}

impl<C> SessionRegistry<C> {
    /// The entries as plain values.
    pub closed spec fn entries(&self) -> Seq<(Seq<char>, C)> {
        self.entries@.map_values(|e: (String, C)| (e.0@, e.1))
    }

    /// The registry as a map from client address to channel.
    pub open spec fn view(&self) -> Map<Seq<char>, C> {
        entries_map(self.entries())
    }

    /// Every address occurs once.
    pub open spec fn wf(&self) -> bool {
        keys_distinct(self.entries())
    }

    /// An empty registry.
    pub fn new() -> (r: Self)
        ensures
            r.wf(),
            r@ == Map::<Seq<char>, C>::empty(),
    {
        let r = SessionRegistry { entries: Vec::new() };
        assert(r.entries() =~= Seq::<(Seq<char>, C)>::empty());
        r
    }

    /// The number of live sessions.
    pub fn len(&self) -> (r: usize)
        requires
            self.wf(),
        ensures
            r == self@.len(),
            self@.dom().finite(),
    {
        proof {
            lemma_entries_map_dom(self.entries());
        }
        self.entries.len()
    }

    /// Where `addr` stands among the entries, if it does.
    fn find(&self, addr: &String) -> (r: Option<usize>)
        ensures
            r is None ==> forall|i: int| 0 <= i < self.entries().len() ==> self.entries()[i].0 != addr@,
            r matches Some(i) ==> i < self.entries().len() && self.entries()[i as int].0 == addr@,
    {
        let mut i: usize = 0;
        while i < self.entries.len()
            invariant
                i <= self.entries@.len(),
                forall|j: int| 0 <= j < i ==> self.entries()[j].0 != addr@,
            decreases self.entries@.len() - i,
        {
            if self.entries[i].0 == *addr {
                return Some(i);
            }
            i = i + 1;
        }
        None
    }

    /// Whether a session is registered for `addr`.
    pub fn contains(&self, addr: &String) -> (r: bool)
        ensures
            r == self@.contains_key(addr@),
    {
        proof {
            lemma_entries_map_dom(self.entries());
        }
        let found = self.find(addr);
        proof {
            if let Some(i) = found {
                assert(self.entries()[i as int].0 == addr@);
            }
        }
        found.is_some()
    }

    /// Registers a session for an address that has none.
    pub fn insert(&mut self, addr: String, channel: C)
        requires
            old(self).wf(),
            !old(self)@.contains_key(addr@),
            old(self)@.len() < usize::MAX,
        ensures
            final(self).wf(),
            final(self)@ == old(self)@.insert(addr@, channel),
            final(self)@.len() == old(self)@.len() + 1,
    {
        proof {
            lemma_entries_map_dom(self.entries());
        }
        let ghost key = addr@;
        self.entries.push((addr, channel));
        proof {
            let old_e = old(self).entries();
            assert(self.entries() =~= old_e.push((key, channel)));
            assert(self.entries().drop_last() =~= old_e);
            assert forall|i: int, j: int| 0 <= i < j < self.entries().len()
                implies self.entries()[i].0 != self.entries()[j].0 by {
                if j == old_e.len() {
                    if old_e[i].0 == key {
                        assert(old(self)@.contains_key(key));
                    }
                }
            }
            lemma_entries_map_dom(self.entries());
        }
    }

    /// Unregisters the session of `addr` and hands back its channel.
    pub fn remove(&mut self, addr: &String) -> (r: Option<C>)
        requires
            old(self).wf(),
        ensures
            final(self).wf(),
            final(self)@ == old(self)@.remove(addr@),
            r == (if old(self)@.contains_key(addr@) { Some(old(self)@[addr@]) } else { None::<C> }),
            old(self)@.contains_key(addr@) ==> final(self)@.len() == old(self)@.len() - 1,
            !old(self)@.contains_key(addr@) ==> final(self)@.len() == old(self)@.len(),
    {
        proof {
            lemma_entries_map_dom(self.entries());
        }
        match self.find(addr) {
            None => {
                proof {
                    assert(old(self)@.remove(addr@) =~= old(self)@);
                }
                None
            },
            Some(i) => {
                let ghost old_e = self.entries();
                let (_, ch) = self.entries.remove(i);
                proof {
                    assert(self.entries() =~= old_e.remove(i as int));
                    lemma_entries_map_remove(old_e, i as int);
                    lemma_entries_map_dom(self.entries());
                }
                Some(ch)
            },
        }
    }
}

} // verus!
