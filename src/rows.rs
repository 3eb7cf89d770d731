use crate::model::{Folder, List, Project, Tag};
use vstd::prelude::*;

verus! {

/// A record kept in a table: it has a key, and copies of it are equal to it.
pub trait Record: View + Sized {
    spec fn key_of(v: Self::V) -> Seq<char>;

    fn key(&self) -> (r: &String)
        ensures
            r@ == Self::key_of(self@),
    ;

    fn copy(&self) -> (r: Self)
        ensures
            r == *self,
    ;
}

impl Record for Folder {
    open spec fn key_of(v: Self::V) -> Seq<char> {
        v.id
    }

    fn key(&self) -> (r: &String) {
        self.id.key_string()
    }

    fn copy(&self) -> (r: Self) {
        self.clone()
    }
}

impl Record for Project {
    open spec fn key_of(v: Self::V) -> Seq<char> {
        v.id
    }

    fn key(&self) -> (r: &String) {
        self.id.key_string()
    }

    fn copy(&self) -> (r: Self) {
        self.clone()
    }
}

impl Record for List {
    open spec fn key_of(v: Self::V) -> Seq<char> {
        v.id
    }

    fn key(&self) -> (r: &String) {
        self.id.key_string()
    }

    fn copy(&self) -> (r: Self) {
        self.clone()
    }
}

impl Record for Tag {
    open spec fn key_of(v: Self::V) -> Seq<char> {
        v.id
    }

    fn key(&self) -> (r: &String) {
        self.id.key_string()
    }

    fn copy(&self) -> (r: Self) {
        self.clone()
    }
}

/// `s` holds exactly the records of `m`, each once, and `m` files each under its key.
pub open spec fn mirrors<T: Record>(s: Seq<T>, m: Map<Seq<char>, T::V>) -> bool {
    &&& forall|i: int|
        0 <= i < s.len() ==> m.contains_key(T::key_of(#[trigger] s[i]@)) && m[T::key_of(
            s[i]@,
        )] == s[i]@
    &&& forall|k: Seq<char>| #[trigger]
        m.contains_key(k) ==> exists|i: int| 0 <= i < s.len() && T::key_of(s[i]@) == k
    &&& forall|k: Seq<char>| #[trigger] m.contains_key(k) ==> T::key_of(m[k]) == k
    &&& forall|i: int, j: int|
        0 <= i < s.len() && 0 <= j < s.len() && i != j ==> T::key_of(#[trigger] s[i]@)
            != T::key_of(#[trigger] s[j]@)
}

/// Records of one kind in insertion order, with the map of them by key beside.
pub struct KeyedRows<T: Record> {
    pub rows: Vec<T>,
    pub index: Ghost<Map<Seq<char>, T::V>>,
}

/// Text of a counter in decimal digits.
fn decimal(n: u64) -> (r: String)
    decreases n,
{
    let digit = match n % 10 {
        0 => "0",
        1 => "1",
        2 => "2",
        3 => "3",
        4 => "4",
        5 => "5",
        6 => "6",
        7 => "7",
        8 => "8",
        _ => "9",
    };
    if n < 10 {
        digit.to_owned()
    } else {
        decimal(n / 10).concat(digit)
    }
}

impl<T: Record> KeyedRows<T> {
    pub open spec fn wf(&self) -> bool {
        mirrors::<T>(self.rows@, self.index@)
    }

    pub open spec fn model(&self) -> Map<Seq<char>, T::V> {
        self.index@
    }

    /// A table holds finitely many records.
    pub proof fn lemma_model_finite(&self)
        requires
            self.wf(),
        ensures
            self.model().dom().finite(),
    {
        let keys = self.rows@.map_values(|row: T| T::key_of(row@));
        vstd::seq_lib::seq_to_set_is_finite(keys);
        assert forall|k: Seq<char>| self.model().dom().contains(k) implies keys.to_set().contains(k) by {
            let i = choose|i: int| 0 <= i < self.rows@.len() && T::key_of(self.rows@[i]@) == k;
            assert(keys[i] == k);
        }
        vstd::set_lib::lemma_len_subset(self.model().dom(), keys.to_set());
    }

    pub fn new() -> (r: Self)
        ensures
            r.wf(),
            r.model() == Map::<Seq<char>, T::V>::empty(),
    {
        KeyedRows { rows: Vec::new(), index: Ghost(Map::empty()) }
    }

    /// Position of the record under `key`.
    pub fn position(&self, key: &String) -> (r: Option<usize>)
        requires
            self.wf(),
        ensures
            match r {
                Some(i) => i < self.rows@.len() && T::key_of(self.rows@[i as int]@) == key@
                    && self.model().contains_key(key@),
                None => !self.model().contains_key(key@),
            },
    {
        let mut i: usize = 0;
        while i < self.rows.len()
            invariant
                self.wf(),
                i <= self.rows@.len(),
                forall|j: int| 0 <= j < i ==> T::key_of(#[trigger] self.rows@[j]@) != key@,
            decreases self.rows@.len() - i,
        {
            if self.rows[i].key().eq(key) {
                return Some(i);
            }
            i = i + 1;
        }
        None
    }

    /// A copy of the record under `key`.
    pub fn lookup(&self, key: &String) -> (r: Option<T>)
        requires
            self.wf(),
        ensures
            match r {
                Some(x) => self.model().contains_key(key@) && x@ == self.model()[key@]
                    && T::key_of(x@) == key@,
                None => !self.model().contains_key(key@),
            },
    {
        match self.position(key) {
            Some(i) => Some(self.rows[i].copy()),
            None => None,
        }
    }

    /// A key that no record has; `None` once the counter has run through every value.
    pub fn fresh_key(&self, counter: &mut u64) -> (r: Option<String>)
        requires
            self.wf(),
        ensures
            match r {
                Some(k) => !self.model().contains_key(k@),
                None => *final(counter) == u64::MAX,
            },
    {
        loop
            invariant
                self.wf(),
            decreases u64::MAX - *counter,
        {
            if *counter == u64::MAX {
                return None;
            }
            let candidate = decimal(*counter);
            *counter = *counter + 1;
            if self.position(&candidate).is_none() {
                return Some(candidate);
            }
        }
    }

    /// Adds a record under a key that no record has.
    pub fn add(&mut self, row: T)
        requires
            old(self).wf(),
            !old(self).model().contains_key(T::key_of(row@)),
        ensures
            final(self).wf(),
            final(self).model() == old(self).model().insert(T::key_of(row@), row@),
    {
        let ghost s = self.rows@;
        let ghost m = self.index@;
        let ghost k = T::key_of(row@);
        let ghost v = row@;
        self.rows.push(row);
        self.index = Ghost(self.index@.insert(k, v));
        assert forall|key: Seq<char>| #[trigger]
            self.index@.contains_key(key) implies exists|i: int|
            0 <= i < self.rows@.len() && T::key_of(self.rows@[i]@) == key by {
            if key == k {
                assert(T::key_of(self.rows@[s.len() as int]@) == key);
            } else {
                let i = choose|i: int| 0 <= i < s.len() && T::key_of(s[i]@) == key;
                assert(self.rows@[i] == s[i]);
            }
        }
        assert forall|i: int|
            0 <= i < self.rows@.len() implies self.index@.contains_key(
            T::key_of(#[trigger] self.rows@[i]@),
        ) && self.index@[T::key_of(self.rows@[i]@)] == self.rows@[i]@ by {
            if i < s.len() {
                assert(self.rows@[i] == s[i]);
                assert(m.contains_key(T::key_of(s[i]@)));
            }
        }
        assert forall|i: int, j: int|
            0 <= i < self.rows@.len() && 0 <= j < self.rows@.len() && i != j implies T::key_of(
            #[trigger] self.rows@[i]@,
        ) != T::key_of(#[trigger] self.rows@[j]@) by {
            if i < s.len() {
                assert(self.rows@[i] == s[i]);
                assert(m.contains_key(T::key_of(s[i]@)));
            }
            if j < s.len() {
                assert(self.rows@[j] == s[j]);
                assert(m.contains_key(T::key_of(s[j]@)));
            }
        }
    }

    /// Puts `row` in place of the record at `i`, which has the same key.
    pub fn put(&mut self, i: usize, row: T)
        requires
            old(self).wf(),
            i < old(self).rows@.len(),
            T::key_of(old(self).rows@[i as int]@) == T::key_of(row@),
        ensures
            final(self).wf(),
            final(self).model() == old(self).model().insert(T::key_of(row@), row@),
    {
        let ghost s = self.rows@;
        let ghost m = self.index@;
        let ghost k = T::key_of(row@);
        let ghost v = row@;
        self.rows.set(i, row);
        self.index = Ghost(self.index@.insert(k, v));
        assert forall|key: Seq<char>| #[trigger]
            self.index@.contains_key(key) implies exists|j: int|
            0 <= j < self.rows@.len() && T::key_of(self.rows@[j]@) == key by {
            if key == k {
                assert(T::key_of(self.rows@[i as int]@) == key);
            } else {
                let j = choose|j: int| 0 <= j < s.len() && T::key_of(s[j]@) == key;
                assert(self.rows@[j] == s[j]);
            }
        }
        assert forall|j: int|
            0 <= j < self.rows@.len() implies self.index@.contains_key(
            T::key_of(#[trigger] self.rows@[j]@),
        ) && self.index@[T::key_of(self.rows@[j]@)] == self.rows@[j]@ by {
            if j != i {
                assert(self.rows@[j] == s[j]);
                assert(T::key_of(s[j]@) != T::key_of(s[i as int]@));
            }
        }
        assert forall|a: int, b: int|
            0 <= a < self.rows@.len() && 0 <= b < self.rows@.len() && a != b implies T::key_of(
            #[trigger] self.rows@[a]@,
        ) != T::key_of(#[trigger] self.rows@[b]@) by {
            assert(T::key_of(s[a]@) != T::key_of(s[b]@));
        }
    }

    /// Removes the record at `i`.
    pub fn drop_at(&mut self, i: usize)
        requires
            old(self).wf(),
            i < old(self).rows@.len(),
        ensures
            final(self).wf(),
            final(self).model() == old(self).model().remove(T::key_of(old(self).rows@[i as int]@)),
    {
        let ghost s = self.rows@;
        let ghost m = self.index@;
        let ghost k = T::key_of(s[i as int]@);
        self.rows.remove(i);
        self.index = Ghost(self.index@.remove(k));
        assert forall|key: Seq<char>| #[trigger]
            self.index@.contains_key(key) implies exists|j: int|
            0 <= j < self.rows@.len() && T::key_of(self.rows@[j]@) == key by {
            let j = choose|j: int| 0 <= j < s.len() && T::key_of(s[j]@) == key;
            if j < i {
                assert(self.rows@[j] == s[j]);
            } else {
                assert(j != i);
                assert(self.rows@[j - 1] == s[j]);
            }
        }
        assert forall|j: int|
            0 <= j < self.rows@.len() implies self.index@.contains_key(
            T::key_of(#[trigger] self.rows@[j]@),
        ) && self.index@[T::key_of(self.rows@[j]@)] == self.rows@[j]@ by {
            if j < i {
                assert(self.rows@[j] == s[j]);
                assert(T::key_of(s[j]@) != k);
            } else {
                assert(self.rows@[j] == s[j + 1]);
                assert(T::key_of(s[j + 1]@) != k);
            }
        }
        assert forall|a: int, b: int|
            0 <= a < self.rows@.len() && 0 <= b < self.rows@.len() && a != b implies T::key_of(
            #[trigger] self.rows@[a]@,
        ) != T::key_of(#[trigger] self.rows@[b]@) by {
            let a0 = if a < i { a } else { a + 1 };
            let b0 = if b < i { b } else { b + 1 };
            assert(self.rows@[a] == s[a0]);
            assert(self.rows@[b] == s[b0]);
            assert(T::key_of(s[a0]@) != T::key_of(s[b0]@));
        }
    }
}

} // verus!
