//! A map from a pair of strings (an app and its own key for a notification) to the identity
//! of the notification that holds that slot.
use vstd::prelude::*;
use crate::model::NotificationId;
use crate::text::{owned, str_eq};

verus! {

/// One slot: the identity held under `(app, tag)`.
pub struct StackSlot {
    /// The app name.
    pub app: String,
    /// The stack tag.
    pub tag: String,
    /// The identity holding the slot.
    pub guid: NotificationId,
}

/// The key of a coalescing slot.
pub open spec fn slot_key(s: StackSlot) -> (Seq<char>, Seq<char>) {
    (s.app@, s.tag@)
}

/// No two slots share a key.
pub open spec fn keys_unique(s: Seq<StackSlot>) -> bool {
    forall|i: int, j: int|
        0 <= i < s.len() && 0 <= j < s.len() && i != j ==> slot_key(s[i]) != slot_key(s[j])
}

/// The slot index holding key `k`, when there is one.
pub open spec fn slot_index(s: Seq<StackSlot>, k: (Seq<char>, Seq<char>)) -> int {
    choose|i: int| 0 <= i < s.len() && slot_key(s[i]) == k
}

/// The coalescing slots as a map.
pub open spec fn stack_map(s: Seq<StackSlot>) -> Map<(Seq<char>, Seq<char>), NotificationId> {
    Map::new(
        |k: (Seq<char>, Seq<char>)| exists|i: int| 0 <= i < s.len() && slot_key(s[i]) == k,
        |k: (Seq<char>, Seq<char>)| s[slot_index(s, k)].guid,
    )
}

/// With unique keys, the slot at `i` is what the map holds for its key.
proof fn lemma_stack_map_at(s: Seq<StackSlot>, i: int)
    requires
        keys_unique(s),
        0 <= i < s.len(),
    ensures
        stack_map(s).contains_key(slot_key(s[i])),
        stack_map(s)[slot_key(s[i])] == s[i].guid,
{
    let k = slot_key(s[i]);
    assert(exists|j: int| 0 <= j < s.len() && slot_key(s[j]) == k);
    let j = slot_index(s, k);
    assert(j == i);
}

/// `s2` is `s` with the slot for `k` (present at `i`, or appended) holding `g`.
proof fn lemma_stack_map_update(s: Seq<StackSlot>, s2: Seq<StackSlot>, k: (Seq<char>, Seq<char>), g: NotificationId)
    requires
        keys_unique(s),
        keys_unique(s2),
        s2.len() >= s.len(),
        s2.len() <= s.len() + 1,
        forall|i: int| 0 <= i < s.len() && slot_key(s[i]) != k ==> s2[i] == s[i],
        forall|i: int| 0 <= i < s2.len() ==> (slot_key(s2[i]) == k ==> s2[i].guid == g),
        forall|i: int| 0 <= i < s.len() ==> slot_key(s2[i]) == slot_key(s[i]),
        s2.len() == s.len() + 1 ==> slot_key(s2[s.len() as int]) == k,
        s2.len() == s.len() ==> exists|i: int| 0 <= i < s.len() && slot_key(s[i]) == k,
    ensures
        stack_map(s2) == stack_map(s).insert(k, g),
{
    let m = stack_map(s).insert(k, g);
    let m2 = stack_map(s2);
    assert forall|x: (Seq<char>, Seq<char>)| #[trigger] m2.contains_key(x) <==> m.contains_key(x) by {
        if x == k {
            if s2.len() == s.len() + 1 {
                assert(slot_key(s2[s.len() as int]) == k);
            } else {
                let i = choose|i: int| 0 <= i < s.len() && slot_key(s[i]) == k;
                assert(slot_key(s2[i]) == k);
            }
        } else {
            if m2.contains_key(x) {
                let j = choose|j: int| 0 <= j < s2.len() && slot_key(s2[j]) == x;
                assert(j < s.len());
                assert(slot_key(s[j]) == x);
            }
            if m.contains_key(x) {
                let j = choose|j: int| 0 <= j < s.len() && slot_key(s[j]) == x;
                assert(slot_key(s2[j]) == x);
            }
        }
    }
    assert forall|x: (Seq<char>, Seq<char>)| m2.contains_key(x) implies #[trigger] m2[x] == m[x] by {
        let j = choose|j: int| 0 <= j < s2.len() && slot_key(s2[j]) == x;
        lemma_stack_map_at(s2, j);
        if x != k {
            assert(j < s.len());
            assert(slot_key(s[j]) == x);
            lemma_stack_map_at(s, j);
        }
    }
    assert(m2 =~= m);
}

/// Removing the slot at `i` removes its key from the map.
proof fn lemma_stack_map_remove(s: Seq<StackSlot>, i: int)
    requires
        keys_unique(s),
        0 <= i < s.len(),
    ensures
        keys_unique(s.remove(i)),
        stack_map(s.remove(i)) == stack_map(s).remove(slot_key(s[i])),
{
    let s2 = s.remove(i);
    let k = slot_key(s[i]);
    assert forall|a: int, b: int|
        0 <= a < s2.len() && 0 <= b < s2.len() && a != b implies slot_key(s2[a]) != slot_key(s2[b]) by {
        let a0 = if a < i { a } else { a + 1 };
        let b0 = if b < i { b } else { b + 1 };
        assert(s2[a] == s[a0] && s2[b] == s[b0]);
    }
    let m = stack_map(s).remove(k);
    let m2 = stack_map(s2);
    assert forall|x: (Seq<char>, Seq<char>)| #[trigger] m2.contains_key(x) <==> m.contains_key(x) by {
        if m2.contains_key(x) {
            let j = choose|j: int| 0 <= j < s2.len() && slot_key(s2[j]) == x;
            let j0 = if j < i { j } else { j + 1 };
            assert(s2[j] == s[j0]);
            assert(j0 != i);
            assert(x != k);
        }
        if m.contains_key(x) {
            let j = choose|j: int| 0 <= j < s.len() && slot_key(s[j]) == x;
            assert(j != i);
            let j2 = if j < i { j } else { j - 1 };
            assert(s2[j2] == s[j]);
        }
    }
    assert forall|x: (Seq<char>, Seq<char>)| m2.contains_key(x) implies #[trigger] m2[x] == m[x] by {
        let j = choose|j: int| 0 <= j < s2.len() && slot_key(s2[j]) == x;
        let j0 = if j < i { j } else { j + 1 };
        assert(s2[j] == s[j0]);
        lemma_stack_map_at(s2, j);
        lemma_stack_map_at(s, j0);
    }
    assert(m2 =~= m);
}

/// Slots keyed by `(app, key)`, each key held once.
pub struct SlotMap {
    slots: Vec<StackSlot>,
}

impl View for SlotMap {
    type V = Map<(Seq<char>, Seq<char>), NotificationId>;

    closed spec fn view(&self) -> Map<(Seq<char>, Seq<char>), NotificationId> {
        stack_map(self.slots@)
    }
}

impl SlotMap {
    /// Each key is held once.
    pub closed spec fn wf(&self) -> bool {
        keys_unique(self.slots@)
    }

    /// No slots.
    pub fn new() -> (r: SlotMap)
        ensures
            r.wf(),
            r@ == Map::<(Seq<char>, Seq<char>), NotificationId>::empty(),
    {
        let r = SlotMap { slots: Vec::new() };
        assert(r@ =~= Map::empty());
        r
    }

    /// The position of `(app_name, tag)` among the coalescing slots.
    fn find(&self, app_name: &str, tag: &str) -> (r: Option<usize>)
        requires
            self.wf(),
        ensures
            r matches Some(i) ==> i < self.slots@.len() && slot_key(self.slots@[i as int]) == (
            app_name@, tag@),
            r is None ==> !self@.contains_key((app_name@, tag@)),
    {
        let mut i: usize = 0;
        while i < self.slots.len()
            invariant
                i <= self.slots@.len(),
                forall|j: int| 0 <= j < i ==> slot_key(self.slots@[j]) != (app_name@, tag@),
            decreases self.slots@.len() - i,
        {
            if str_eq(self.slots[i].app.as_str(), app_name) && str_eq(
                self.slots[i].tag.as_str(),
                tag,
            ) {
                return Some(i);
            }
            i = i + 1;
        }
        None
    }

    /// The identity holding `app_name`'s `tag` slot, if any.
    pub fn get(&self, app_name: &str, tag: &str) -> (r: Option<NotificationId>)
        requires
            self.wf(),
        ensures
            r == (if self@.contains_key((app_name@, tag@)) {
                Some(self@[(app_name@, tag@)])
            } else {
                None
            }),
    {
        match self.find(app_name, tag) {
            Some(i) => {
                proof {
                    lemma_stack_map_at(self.slots@, i as int);
                }
                Some(self.slots[i].guid)
            },
            None => None,
        }
    }

    /// Records `guid` as the holder of `app_name`'s `tag` slot.
    pub fn insert(&mut self, app_name: &str, tag: &str, guid: NotificationId)
        requires
            old(self).wf(),
        ensures
            final(self).wf(),
            final(self)@ == old(self)@.insert((app_name@, tag@), guid),
    {
        let ghost s = self.slots@;
        let ghost k = (app_name@, tag@);
        let slot = StackSlot { app: owned(app_name), tag: owned(tag), guid };
        match self.find(app_name, tag) {
            Some(i) => {
                self.slots.set(i, slot);
                proof {
                    let s2 = self.slots@;
                    assert forall|a: int, b: int|
                        0 <= a < s2.len() && 0 <= b < s2.len() && a != b implies slot_key(s2[a])
                        != slot_key(s2[b]) by {
                        assert(slot_key(s2[a]) == slot_key(s[a]));
                        assert(slot_key(s2[b]) == slot_key(s[b]));
                    }
                    assert forall|a: int| 0 <= a < s2.len() && slot_key(s2[a]) == k implies s2[a].guid
                        == guid by {
                        if a != i {
                            assert(slot_key(s[a]) == slot_key(s[i as int]));
                        }
                    }
                    lemma_stack_map_update(s, s2, k, guid);
                }
            },
            None => {
                self.slots.push(slot);
                proof {
                    let s2 = self.slots@;
                    assert forall|a: int| 0 <= a < s.len() implies slot_key(s[a]) != k by {
                        if slot_key(s[a]) == k {
                            assert(stack_map(s).contains_key(k));
                        }
                    }
                    assert forall|a: int, b: int|
                        0 <= a < s2.len() && 0 <= b < s2.len() && a != b implies slot_key(s2[a])
                        != slot_key(s2[b]) by {
                        if a < s.len() && b < s.len() {
                            assert(s2[a] == s[a] && s2[b] == s[b]);
                        } else if a < s.len() {
                            assert(s2[a] == s[a]);
                        } else if b < s.len() {
                            assert(s2[b] == s[b]);
                        }
                    }
                    lemma_stack_map_update(s, s2, k, guid);
                }
            },
        }
    }


    /// Removes the slot `(app_name, tag)`, yielding the identity it held.
    pub fn remove(&mut self, app_name: &str, tag: &str) -> (r: Option<NotificationId>)
        requires
            old(self).wf(),
        ensures
            final(self).wf(),
            r == (if old(self)@.contains_key((app_name@, tag@)) {
                Some(old(self)@[(app_name@, tag@)])
            } else {
                None
            }),
            final(self)@ == old(self)@.remove((app_name@, tag@)),
    {
        match self.find(app_name, tag) {
            Some(i) => {
                let ghost s = self.slots@;
                proof {
                    lemma_stack_map_at(s, i as int);
                    lemma_stack_map_remove(s, i as int);
                }
                let slot = self.slots.remove(i);
                Some(slot.guid)
            },
            None => {
                proof {
                    assert(self@ =~= old(self)@.remove((app_name@, tag@)));
                }
                None
            },
        }
    }
}

} // verus!
