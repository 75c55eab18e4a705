use vstd::prelude::*;
use crate::view::same_text;

verus! {

/// Everything that handlers share: the message log, the state of the
/// component being resolved, the key/value store and the running time.
pub struct Events {
    /// Messages sent to central dispatch, in order.
    pub messages: Vec<Vec<String>>,
    /// State named by the most recently resolved state modifier.
    pub state: String,
    /// Key/value pairs; when a key occurs more than once the last entry holds.
    pub keyval: Vec<(String, String)>,
    /// Time since the program started, in milliseconds.
    pub time_elapsed: u64,
}

/// The value the store holds for a key, if any; a later entry wins.
pub open spec fn lookup(kv: Seq<(String, String)>, key: Seq<char>) -> Option<Seq<char>>
    decreases kv.len(),
{
    if kv.len() == 0 {
        None
    } else if kv.last().0@ == key {
        Some(kv.last().1@)
    } else {
        lookup(kv.drop_last(), key)
    }
}

/// The value of a key as handlers read it: the empty text for a missing key.
pub open spec fn value_of(kv: Seq<(String, String)>, key: Seq<char>) -> Seq<char> {
    match lookup(kv, key) {
        Some(v) => v,
        None => Seq::empty(),
    }
}

impl Events {
    /// A fresh context: no messages, empty state and store, no time elapsed.
    pub fn new() -> (r: Events)
        ensures
            r.messages@.len() == 0,
            r.state@.len() == 0,
            r.keyval@.len() == 0,
            r.time_elapsed == 0,
    {
        Events { messages: Vec::new(), state: String::new(), keyval: Vec::new(), time_elapsed: 0 }
    }

    /// Sends a message to central dispatch.
    pub fn message(&mut self, msg: Vec<String>)
        ensures
            final(self).messages@ == old(self).messages@.push(msg),
            final(self).state == old(self).state,
            final(self).keyval == old(self).keyval,
            final(self).time_elapsed == old(self).time_elapsed,
    {
        self.messages.push(msg);
    }

    /// Index of the last entry for a key, if any.
    fn find(&self, key: &str) -> (r: Option<usize>)
        ensures
            match r {
                Some(i) => i < self.keyval@.len() && self.keyval@[i as int].0@ == key@ && forall|
                    j: int,
                | i < j < self.keyval@.len() ==> (#[trigger] self.keyval@[j]).0@ != key@,
                None => forall|j: int|
                    0 <= j < self.keyval@.len() ==> (#[trigger] self.keyval@[j]).0@ != key@,
            },
    {
        let mut i = self.keyval.len();
        while i > 0
            invariant
                i <= self.keyval@.len(),
                forall|j: int| i <= j < self.keyval@.len() ==> (#[trigger] self.keyval@[j]).0@ != key@,
            decreases i,
        {
            if same_text(self.keyval[i - 1].0.as_str(), key) {
                return Some(i - 1);
            }
            i = i - 1;
        }
        None
    }

    /// Sets a key to a value, replacing the value it held.
    pub fn set(&mut self, key: &str, val: &str)
        ensures
            lookup(final(self).keyval@, key@) == Some(val@),
            forall|k: Seq<char>|
                k != key@ ==> lookup(final(self).keyval@, k) == lookup(old(self).keyval@, k),
            final(self).messages == old(self).messages,
            final(self).state == old(self).state,
            final(self).time_elapsed == old(self).time_elapsed,
    {
        let ghost before = self.keyval@;
        match self.find(key) {
            Some(i) => {
                self.keyval[i] = (key.to_owned(), val.to_owned());
                proof {
                    lemma_lookup_replace(before, i as int, self.keyval@, key@);
                }
            },
            None => {
                self.keyval.push((key.to_owned(), val.to_owned()));
                proof {
                    assert(self.keyval@.drop_last() =~= before);
                    assert forall|k: Seq<char>| k != key@ implies lookup(self.keyval@, k) == lookup(
                        before,
                        k,
                    ) by {}
                }
            },
        }
    }

    /// The value of a key, or the empty text when it was never set.
    pub fn get(&mut self, key: &str) -> (r: String)
        ensures
            r@ == value_of(old(self).keyval@, key@),
            *final(self) == *old(self),
    {
        self.value(key)
    }

    /// The value of a key, or the empty text when it was never set.
    pub(crate) fn value(&self, key: &str) -> (r: String)
        ensures
            r@ == value_of(self.keyval@, key@),
    {
        match self.find(key) {
            Some(i) => {
                proof {
                    lemma_lookup_last(self.keyval@, i as int, key@);
                }
                self.keyval[i].1.clone()
            },
            None => {
                proof {
                    lemma_lookup_absent(self.keyval@, key@);
                }
                String::new()
            },
        }
    }
}

proof fn lemma_lookup_absent(kv: Seq<(String, String)>, key: Seq<char>)
    requires
        forall|j: int| 0 <= j < kv.len() ==> (#[trigger] kv[j]).0@ != key,
    ensures
        lookup(kv, key) is None,
    decreases kv.len(),
{
    if kv.len() > 0 {
        lemma_lookup_absent(kv.drop_last(), key);
    }
}

proof fn lemma_lookup_last(kv: Seq<(String, String)>, i: int, key: Seq<char>)
    requires
        0 <= i < kv.len(),
        kv[i].0@ == key,
        forall|j: int| i < j < kv.len() ==> (#[trigger] kv[j]).0@ != key,
    ensures
        lookup(kv, key) == Some(kv[i].1@),
    decreases kv.len(),
{
    if i < kv.len() - 1 {
        lemma_lookup_last(kv.drop_last(), i, key);
    }
}

proof fn lemma_lookup_replace(
    before: Seq<(String, String)>,
    i: int,
    after: Seq<(String, String)>,
    key: Seq<char>,
)
    requires
        0 <= i < before.len(),
        before[i].0@ == key,
        after.len() == before.len(),
        after[i].0@ == key,
        forall|j: int| 0 <= j < before.len() && j != i ==> after[j] == before[j],
        forall|j: int| i < j < before.len() ==> (#[trigger] before[j]).0@ != key,
    ensures
        lookup(after, key) == Some(after[i].1@),
        forall|k: Seq<char>| k != key ==> lookup(after, k) == lookup(before, k),
    decreases before.len(),
{
    lemma_lookup_last(after, i, key);
    assert forall|k: Seq<char>| k != key implies lookup(after, k) == lookup(before, k) by {
        lemma_lookup_other(before, i, after, key, k);
    }
}

proof fn lemma_lookup_other(
    before: Seq<(String, String)>,
    i: int,
    after: Seq<(String, String)>,
    key: Seq<char>,
    k: Seq<char>,
)
    requires
        0 <= i < before.len(),
        before[i].0@ == key,
        after.len() == before.len(),
        after[i].0@ == key,
        forall|j: int| 0 <= j < before.len() && j != i ==> after[j] == before[j],
        k != key,
    ensures
        lookup(after, k) == lookup(before, k),
    decreases before.len(),
{
    if before.len() > 0 {
        let n = before.len() - 1;
        if n != i {
            assert(after[n] == before[n]);
            if before[n].0@ != k {
                lemma_lookup_other(before.drop_last(), i, after.drop_last(), key, k);
            }
        } else {
            assert(after.drop_last() =~= before.drop_last());
        }
    }
}

} // verus!
