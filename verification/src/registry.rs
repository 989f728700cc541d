//! The handler registry: a flat binding of message types to handler
//! descriptors, owned by the host.  Registration is last-writer-wins;
//! lookup is read-only.

use vstd::prelude::*;
use crate::opcodes::MessageType;

verus! {

/// The bindings of a sequence of entries, read left to right: a later
/// entry for the same key wins.
pub open spec fn map_of<H>(s: Seq<(MessageType, H)>) -> Map<MessageType, H>
    decreases s.len(),
{
    if s.len() == 0 {
        Map::empty()
    } else {
        map_of(s.drop_last()).insert(s.last().0, s.last().1)
    }
}

/// No two entries bind the same message type.
pub open spec fn keys_unique<H>(s: Seq<(MessageType, H)>) -> bool {
    forall|i: int, j: int| 0 <= i < j < s.len() ==> s[i].0 != s[j].0
}

/// A key is bound exactly when some entry carries it.
proof fn lemma_map_of_contains<H>(s: Seq<(MessageType, H)>, k: MessageType)
    ensures
        map_of(s).contains_key(k) <==> exists|i: int| 0 <= i < s.len() && s[i].0 == k,
    decreases s.len(),
{
    if s.len() > 0 {
        lemma_map_of_contains(s.drop_last(), k);
        if s.last().0 == k {
            assert(s[s.len() - 1].0 == k);
        } else if map_of(s).contains_key(k) {
            let i = choose|i: int| 0 <= i < s.drop_last().len() && s.drop_last()[i].0 == k;
            assert(s[i].0 == k);
        } else if exists|i: int| 0 <= i < s.len() && s[i].0 == k {
            let i = choose|i: int| 0 <= i < s.len() && s[i].0 == k;
            assert(s.drop_last()[i].0 == k);
        }
    }
}

/// Under unique keys, the bound value is the carrying entry's value.
proof fn lemma_map_of_index<H>(s: Seq<(MessageType, H)>, i: int)
    requires
        keys_unique(s),
        0 <= i < s.len(),
    ensures
        map_of(s).contains_key(s[i].0),
        map_of(s)[s[i].0] == s[i].1,
    decreases s.len(),
{
    lemma_map_of_contains(s, s[i].0);
    if i < s.len() - 1 {
        assert(s.drop_last()[i] == s[i]);
        lemma_map_of_index(s.drop_last(), i);
        assert(s[i].0 != s.last().0);
    }
}

/// Under unique keys, removing the entry that carries a key unbinds
/// exactly that key.
proof fn lemma_map_of_remove<H>(s: Seq<(MessageType, H)>, i: int)
    requires
        keys_unique(s),
        0 <= i < s.len(),
    ensures
        map_of(s.remove(i)) =~= map_of(s).remove(s[i].0),
    decreases s.len(),
{
    let k = s[i].0;
    lemma_map_of_contains(s.drop_last(), k);
    if i == s.len() - 1 {
        assert(s.remove(i) =~= s.drop_last());
        assert(!map_of(s.drop_last()).contains_key(k));
        assert(map_of(s.drop_last()) =~= map_of(s.drop_last()).insert(k, s[i].1).remove(k));
    } else {
        assert(s.drop_last()[i] == s[i]);
        lemma_map_of_remove(s.drop_last(), i);
        assert(s.remove(i).drop_last() =~= s.drop_last().remove(i));
        assert(s.remove(i).last() == s.last());
        assert(k != s.last().0);
    }
}

/// Replacing the one entry that carries a key keeps keys unique.
proof fn lemma_unique_after_remove_push<H>(s: Seq<(MessageType, H)>, i: int, p: (MessageType, H))
    requires
        keys_unique(s),
        0 <= i < s.len(),
        s[i].0 == p.0,
    ensures
        keys_unique(s.remove(i).push(p)),
{
    let t = s.remove(i).push(p);
    assert forall|a: int, b: int| 0 <= a < b < t.len() implies t[a].0 != t[b].0 by {
        if b < s.len() - 1 {
            let sa: int = if a < i {
                a
            } else {
                a + 1
            };
            let sb: int = if b < i {
                b
            } else {
                b + 1
            };
            assert(t[a] == s[sa] && t[b] == s[sb]);
        } else {
            let sa: int = if a < i {
                a
            } else {
                a + 1
            };
            assert(t[a] == s[sa] && t[b].0 == p.0);
            assert(sa != i);
        }
    }
}

/// A flat key/value registry binding each message type to at most one
/// handler descriptor.
pub struct MessageTypeRegistry<H> {
    entries: Vec<(MessageType, H)>,
}

impl<H> MessageTypeRegistry<H> {
    #[verifier::type_invariant]
    spec fn inv(self) -> bool {
        keys_unique(self.entries@)
    }
}

impl<H> View for MessageTypeRegistry<H> {
    type V = Map<MessageType, H>;

    closed spec fn view(&self) -> Map<MessageType, H> {
        map_of(self.entries@)
    }
}

impl<H> MessageTypeRegistry<H> {
    /// An empty registry.
    pub fn new() -> (r: MessageTypeRegistry<H>)
        ensures
            r@ == Map::<MessageType, H>::empty(),
    {
        MessageTypeRegistry { entries: Vec::new() }
    }

    /// Bind `handler` to `message_type`.  An existing binding is
    /// replaced — the last writer wins — and handed back.
    pub fn register(&mut self, message_type: MessageType, handler: H) -> (prev: Option<H>)
        ensures
            final(self)@ == old(self)@.insert(message_type, handler),
            (match prev {
                Some(h) => old(self)@.contains_key(message_type) && h == old(self)@[message_type],
                None => !old(self)@.contains_key(message_type),
            }),
    {
        proof {
            use_type_invariant(&*self);
            lemma_map_of_contains(self.entries@, message_type);
        }
        let ghost s0 = self.entries@;
        let mut entries: Vec<(MessageType, H)> = Vec::new();
        core::mem::swap(&mut entries, &mut self.entries);
        let n = entries.len();
        let mut idx: usize = n;
        let mut i: usize = 0;
        while i < n
            invariant
                i <= n,
                n == s0.len(),
                entries@ == s0,
                keys_unique(s0),
                idx == n || (idx < i && s0[idx as int].0 == message_type),
                idx == n ==> forall|j: int| 0 <= j < i ==> s0[j].0 != message_type,
            decreases n - i,
        {
            if idx == n && entries[i].0 == message_type {
                idx = i;
            }
            i = i + 1;
        }
        let prev: Option<H>;
        if idx < n {
            proof {
                lemma_map_of_index(s0, idx as int);
                lemma_map_of_remove(s0, idx as int);
            }
            let prev_entry = entries.remove(idx);
            prev = Some(prev_entry.1);
        } else {
            prev = None;
        }
        entries.push((message_type, handler));
        proof {
            if idx < n {
                lemma_unique_after_remove_push(s0, idx as int, (message_type, handler));
                assert(entries@.drop_last() =~= s0.remove(idx as int));
                assert(entries@ =~= s0.remove(idx as int).push((message_type, handler)));
                assert(map_of(entries@) =~= map_of(s0).insert(message_type, handler));
            } else {
                assert(entries@.drop_last() =~= s0);
                assert forall|a: int, b: int| 0 <= a < b < entries@.len() implies entries@[a].0
                    != entries@[b].0 by {
                    if b < s0.len() {
                        assert(entries@[a] == s0[a] && entries@[b] == s0[b]);
                    } else {
                        assert(entries@[a] == s0[a] && entries@[b].0 == message_type);
                    }
                }
            }
        }
        core::mem::swap(&mut entries, &mut self.entries);
        prev
    }

    /// Look the handler bound to `message_type` up; absent when none
    /// was registered.
    pub fn lookup(&self, message_type: MessageType) -> (r: Option<&H>)
        ensures
            (match r {
                Some(h) => self@.contains_key(message_type) && *h == self@[message_type],
                None => !self@.contains_key(message_type),
            }),
    {
        proof {
            use_type_invariant(self);
            lemma_map_of_contains(self.entries@, message_type);
        }
        let n = self.entries.len();
        let mut i: usize = 0;
        while i < n
            invariant
                n == self.entries@.len(),
                i <= n,
                keys_unique(self.entries@),
                self@ == map_of(self.entries@),
                forall|j: int| 0 <= j < i ==> self.entries@[j].0 != message_type,
                map_of(self.entries@).contains_key(message_type) <==> exists|jj: int|
                    0 <= jj < self.entries@.len() && self.entries@[jj].0 == message_type,
            decreases n - i,
        {
            if self.entries[i].0 == message_type {
                proof {
                    lemma_map_of_index(self.entries@, i as int);
                }
                return Some(&self.entries[i].1);
            }
            i = i + 1;
        }
        None
    }

}

} // verus!
