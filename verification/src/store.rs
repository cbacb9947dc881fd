//! The presentation state: the options that will be handed to the picker,
//! each a key with an optional value, kept in the order in which the keys
//! were first set and with no key twice. Beside its value an option keeps
//! the text that was last set under its key, so that a text laid over it
//! never hides it.

use crate::text::{joined, opt_text, same_text, texts};
use vstd::prelude::*;

verus! {

/// An option as the contracts see it.
pub struct Entry {
    /// The option's key.
    pub key: Seq<char>,
    /// The value that goes to the picker, where the option has one.
    pub value: Option<Seq<char>>,
    /// What was last set under the key. It is the value itself until a text
    /// is laid over it, and stays below every text laid over it.
    pub base: Option<Seq<char>>,
}

/// The entry that setting `key` to `value` leaves.
pub open spec fn plain(key: Seq<char>, value: Option<Seq<char>>) -> Entry {
    Entry { key, value, base: value }
}

/// The position of the first entry of `s` under `key`, or the length of `s`
/// where no entry has that key.
pub open spec fn position(s: Seq<Entry>, key: Seq<char>) -> int
    decreases s.len(),
{
    if s.len() == 0 || s[0].key == key {
        0
    } else {
        1 + position(s.drop_first(), key)
    }
}

/// Whether `s` holds an entry under `key`.
pub open spec fn has_key(s: Seq<Entry>, key: Seq<char>) -> bool {
    position(s, key) < s.len()
}

/// What `s` holds under `key`: `None` without such an entry, else the
/// entry's optional value.
pub open spec fn lookup(s: Seq<Entry>, key: Seq<char>) -> Option<Option<Seq<char>>> {
    if has_key(s, key) {
        Some(s[position(s, key)].value)
    } else {
        None
    }
}

/// What was last set under `key` in `s`: `None` without such an entry, else
/// the optional value that was set.
pub open spec fn base_of(s: Seq<Entry>, key: Seq<char>) -> Option<Option<Seq<char>>> {
    if has_key(s, key) {
        Some(s[position(s, key)].base)
    } else {
        None
    }
}

/// The entries of `s` as a mapping from keys to optional values.
pub open spec fn as_map(s: Seq<Entry>) -> Map<Seq<char>, Option<Seq<char>>> {
    Map::new(|key: Seq<char>| has_key(s, key), |key: Seq<char>| s[position(s, key)].value)
}

/// No key stands in two entries of `s`.
pub open spec fn distinct_keys(s: Seq<Entry>) -> bool {
    forall|i: int, j: int| 0 <= i < j < s.len() ==> s[i].key != s[j].key
}

/// `s` after `key` has been given `value`: the entry under `key` is
/// replaced where it stands, or a new entry is added at the end. Whatever
/// had been laid over the old value is gone with it.
pub open spec fn assigned(s: Seq<Entry>, key: Seq<char>, value: Option<Seq<char>>) -> Seq<Entry> {
    if has_key(s, key) {
        s.update(position(s, key), plain(key, value))
    } else {
        s.push(plain(key, value))
    }
}

/// `s` after `key` has been given `value` unless it was set already.
pub open spec fn assigned_if_absent(
    s: Seq<Entry>,
    key: Seq<char>,
    value: Option<Seq<char>>,
) -> Seq<Entry> {
    if has_key(s, key) {
        s
    } else {
        s.push(plain(key, value))
    }
}

/// A new text laid over a base: the new text, the separator, and the base.
pub open spec fn stacked(new_text: Seq<char>, sep: Seq<char>, base: Seq<char>) -> Seq<char> {
    new_text + sep + base
}

/// `s` after `new_text` has been laid over what was last set under `key`:
/// the value becomes the new text, the separator and that base, whatever
/// had been laid over the base before; the base stays. An absent key and a
/// key that was set without a value leave `s` as it is.
pub open spec fn restacked(
    s: Seq<Entry>,
    key: Seq<char>,
    new_text: Seq<char>,
    sep: Seq<char>,
) -> Seq<Entry> {
    match base_of(s, key) {
        Some(Some(base)) => s.update(
            position(s, key),
            Entry { key, value: Some(stacked(new_text, sep, base)), base: Some(base) },
        ),
        _ => s,
    }
}

/// The command-line tokens of one entry: its key, then its value where it has one.
pub open spec fn entry_tokens(e: Entry) -> Seq<Seq<char>> {
    match e.value {
        Some(v) => seq![e.key, v],
        None => seq![e.key],
    }
}

/// The command-line tokens of all entries of `s`, entry after entry.
pub open spec fn tokens(s: Seq<Entry>) -> Seq<Seq<char>>
    decreases s.len(),
{
    if s.len() == 0 {
        Seq::empty()
    } else {
        tokens(s.drop_last()) + entry_tokens(s.last())
    }
}

/// `position` is within `s`, no entry before it has the key, and where it is
/// not the length, the entry there has the key.
pub proof fn position_bounds(s: Seq<Entry>, key: Seq<char>)
    ensures
        0 <= position(s, key) <= s.len(),
        forall|j: int| 0 <= j < position(s, key) ==> s[j].key != key,
        has_key(s, key) ==> s[position(s, key)].key == key,
    decreases s.len(),
{
    if s.len() == 0 || s[0].key == key {
    } else {
        let t = s.drop_first();
        position_bounds(t, key);
        assert forall|j: int| 0 <= j < position(s, key) implies s[j].key != key by {
            if j > 0 {
                assert(s[j] == t[j - 1]);
            }
        }
        if position(s, key) < s.len() {
            assert(s[position(s, key)] == t[position(t, key)]);
        }
    }
}

/// A position with no entry under `key` before it, which is the end or
/// holds `key`, is `position`.
pub proof fn position_found(s: Seq<Entry>, key: Seq<char>, i: int)
    requires
        0 <= i <= s.len(),
        forall|j: int| 0 <= j < i ==> s[j].key != key,
        i < s.len() ==> s[i].key == key,
    ensures
        position(s, key) == i,
    decreases s.len(),
{
    if i == 0 {
    } else {
        let t = s.drop_first();
        assert(s[0].key != key);
        assert forall|j: int| 0 <= j < i - 1 implies t[j].key != key by {
            assert(t[j] == s[j + 1]);
        }
        position_found(t, key, i - 1);
    }
}

struct Slot {
    key: String,
    value: Option<String>,
    base: Option<String>,
}

fn copy_of(text: &Option<String>) -> (copy: Option<String>)
    ensures
        opt_text(copy) == opt_text(*text),
{
    match text {
        Some(t) => Some(t.clone()),
        None => None,
    }
}

/// The options for the picker.
pub struct ArgStore {
    entries: Vec<Slot>,
}

impl View for ArgStore {
    type V = Seq<Entry>;

    closed spec fn view(&self) -> Seq<Entry> {
        Seq::new(
            self.entries@.len(),
            |i: int|
                Entry {
                    key: self.entries@[i].key@,
                    value: opt_text(self.entries@[i].value),
                    base: opt_text(self.entries@[i].base),
                },
        )
    }
}

impl ArgStore {
    /// A store is well formed when no key stands in two of its entries.
    pub open spec fn wf(&self) -> bool {
        distinct_keys(self@)
    }

    /// A store without entries.
    pub fn new() -> (store: ArgStore)
        ensures
            store@ == Seq::<Entry>::empty(),
            store.wf(),
    {
        let store = ArgStore { entries: Vec::new() };
        assert(store@ =~= Seq::<Entry>::empty());
        store
    }

    /// The number of entries.
    pub fn len(&self) -> (n: usize)
        ensures
            n == self@.len(),
    {
        self.entries.len()
    }

    fn find(&self, key: &str) -> (i: usize)
        ensures
            i == position(self@, key@),
            i <= self.entries@.len(),
    {
        let mut i: usize = 0;
        while i < self.entries.len() && !same_text(self.entries[i].key.as_str(), key)
            invariant
                i <= self.entries@.len(),
                forall|j: int| 0 <= j < i ==> self@[j].key != key@,
            decreases self.entries@.len() - i,
        {
            i += 1;
        }
        proof {
            position_found(self@, key@, i as int);
        }
        i
    }

    /// Whether an entry stands under `key`.
    pub fn contains_key(&self, key: &str) -> (found: bool)
        ensures
            found == has_key(self@, key@),
    {
        self.find(key) < self.entries.len()
    }

    /// What stands under `key`: `None` without such an entry, else a copy
    /// of the entry's optional value.
    pub fn get(&self, key: &str) -> (found: Option<Option<String>>)
        ensures
            match found {
                Some(value) => lookup(self@, key@) == Some(opt_text(value)),
                None => lookup(self@, key@) is None,
            },
    {
        let i = self.find(key);
        if i < self.entries.len() {
            Some(copy_of(&self.entries[i].value))
        } else {
            None
        }
    }

    /// What was last set under `key`: `None` without such an entry, else a
    /// copy of the optional value that was set.
    pub fn get_base(&self, key: &str) -> (found: Option<Option<String>>)
        ensures
            match found {
                Some(base) => base_of(self@, key@) == Some(opt_text(base)),
                None => base_of(self@, key@) is None,
            },
    {
        let i = self.find(key);
        if i < self.entries.len() {
            Some(copy_of(&self.entries[i].base))
        } else {
            None
        }
    }

    /// Gives `key` the value `value`, whatever stood there.
    pub fn set(&mut self, key: &str, value: Option<String>)
        ensures
            final(self)@ == assigned(old(self)@, key@, opt_text(value)),
            old(self).wf() ==> final(self).wf(),
    {
        proof {
            position_bounds(self@, key@);
        }
        let i = self.find(key);
        let ghost before = self@;
        let base = copy_of(&value);
        if i < self.entries.len() {
            self.entries.set(i, Slot { key: key.to_owned(), value, base });
        } else {
            self.entries.push(Slot { key: key.to_owned(), value, base });
        }
        assert(self@ =~= assigned(before, key@, opt_text(value)));
    }

    /// Gives `key` the value `value` unless an entry stands under `key` already.
    pub fn set_if_absent(&mut self, key: &str, value: Option<String>)
        ensures
            final(self)@ == assigned_if_absent(old(self)@, key@, opt_text(value)),
            old(self).wf() ==> final(self).wf(),
    {
        proof {
            position_bounds(self@, key@);
        }
        let i = self.find(key);
        let ghost before = self@;
        if i >= self.entries.len() {
            let base = copy_of(&value);
            self.entries.push(Slot { key: key.to_owned(), value, base });
        }
        assert(self@ =~= assigned_if_absent(before, key@, opt_text(value)));
    }

    /// Lays `new_text` over what was last set under `key`: the value becomes
    /// `new_text`, `separator`, and the text that was set, whatever had been
    /// laid over that text before. Without an entry under `key`, or with
    /// one that was set without a value, nothing changes.
    pub fn update_with_stack_rule(&mut self, key: &str, new_text: &str, separator: &str)
        ensures
            final(self)@ == restacked(old(self)@, key@, new_text@, separator@),
            old(self).wf() ==> final(self).wf(),
    {
        proof {
            position_bounds(self@, key@);
        }
        let i = self.find(key);
        let ghost before = self@;
        if i < self.entries.len() {
            let laid = match &self.entries[i].base {
                Some(base) => {
                    let head = joined(new_text, separator);
                    Some((joined(head.as_str(), base.as_str()), base.clone()))
                },
                None => None,
            };
            match laid {
                Some((text, base)) => {
                    self.entries.set(
                        i,
                        Slot { key: key.to_owned(), value: Some(text), base: Some(base) },
                    );
                },
                None => {},
            }
        }
        assert(self@ =~= restacked(before, key@, new_text@, separator@));
    }

    /// The entries as command-line tokens, entry after entry in the order in
    /// which their keys were first set: for each its key, then its value
    /// where it has one.
    pub fn to_invocation_argument_list(&self) -> (list: Vec<String>)
        ensures
            texts(list@) == tokens(self@),
    {
        let mut list: Vec<String> = Vec::new();
        let mut i: usize = 0;
        assert(texts(list@) =~= tokens(self@.subrange(0, 0)));
        while i < self.entries.len()
            invariant
                i <= self.entries@.len(),
                texts(list@) == tokens(self@.subrange(0, i as int)),
            decreases self.entries@.len() - i,
        {
            let ghost sofar = texts(list@);
            assert(self@.subrange(0, i + 1).drop_last() =~= self@.subrange(0, i as int));
            list.push(self.entries[i].key.clone());
            match &self.entries[i].value {
                Some(v) => {
                    list.push(v.clone());
                },
                None => {},
            }
            assert(texts(list@) =~= sofar + entry_tokens(self@[i as int]));
            i += 1;
        }
        assert(self@.subrange(0, self@.len() as int) =~= self@);
        list
    }
}

} // verus!
