//! Small collections with the promises of a map and of a set: in the map
//! from currencies to credentials no currency occurs twice, and in a set of
//! connector names no name does.

use vstd::prelude::*;

verus! {

/// One entry of a set of credentials kept per currency.
#[derive(Clone, Debug, PartialEq, Eq)]
pub struct CurrencyAuthKey {
    pub currency: String,
    pub auth_key: String,
}

/// Whether no currency occurs twice among the entries.
pub open spec fn currencies_distinct(entries: Seq<CurrencyAuthKey>) -> bool {
    forall|i: int, j: int|
        0 <= i < j < entries.len() ==> (#[trigger] entries[i]).currency@ != (
        #[trigger] entries[j]).currency@
}

/// Whether the entries hold credentials for the currency.
pub open spec fn has_currency(entries: Seq<CurrencyAuthKey>, currency: Seq<char>) -> bool {
    exists|i: int| 0 <= i < entries.len() && (#[trigger] entries[i]).currency@ == currency
}

/// Credentials kept per currency: a map from currencies to credentials, in
/// the order in which the currencies were entered.
#[derive(Clone, Debug, PartialEq, Eq)]
pub struct CurrencyAuthMap {
    entries: Vec<CurrencyAuthKey>,
}

impl CurrencyAuthMap {
    /// The entries of the map, in order.
    pub closed spec fn entries(self) -> Seq<CurrencyAuthKey> {
        self.entries@
    }

    /// The invariant of the map: no currency occurs twice. Every map that
    /// [`Self::new`] and [`Self::insert`] make has it.
    pub open spec fn wf(self) -> bool {
        currencies_distinct(self.entries())
    }

    /// The map without entries.
    pub fn new() -> (map: Self)
        ensures
            map.entries().len() == 0,
            map.wf(),
    {
        CurrencyAuthMap { entries: Vec::new() }
    }

    /// The number of currencies.
    pub fn len(&self) -> (n: usize)
        ensures
            n == self.entries().len(),
    {
        self.entries.len()
    }

    /// Whether the map has no entries.
    pub fn is_empty(&self) -> (empty: bool)
        ensures
            empty == (self.entries().len() == 0),
    {
        self.entries.len() == 0
    }

    /// The entries of the map, in order.
    pub fn into_entries(self) -> (entries: Vec<CurrencyAuthKey>)
        ensures
            entries@ == self.entries(),
    {
        self.entries
    }

    fn find(&self, currency: &String) -> (place: Option<usize>)
        ensures
            match place {
                Some(i) => i < self.entries@.len() && self.entries@[i as int].currency@
                    == currency@,
                None => !has_currency(self.entries@, currency@),
            },
    {
        let mut i: usize = 0;
        while i < self.entries.len()
            invariant
                i <= self.entries@.len(),
                forall|j: int| 0 <= j < i ==> (#[trigger] self.entries@[j]).currency@ != currency@,
            decreases self.entries@.len() - i,
        {
            if self.entries[i].currency == *currency {
                return Some(i);
            }
            i += 1;
        }
        None
    }

    /// The credentials kept for a currency, if any.
    pub fn get(&self, currency: &String) -> (found: Option<&String>)
        ensures
            match found {
                Some(auth_key) => exists|i: int|
                    0 <= i < self.entries().len() && (#[trigger] self.entries()[i]).currency@
                        == currency@ && self.entries()[i].auth_key == *auth_key,
                None => !has_currency(self.entries(), currency@),
            },
    {
        match self.find(currency) {
            Some(i) => {
                assert(self.entries()[i as int].currency@ == currency@);
                Some(&self.entries[i].auth_key)
            },
            None => None,
        }
    }

    /// Enters credentials for a currency. Credentials that the map kept for
    /// the currency are replaced, in their place, and handed back; a new
    /// currency goes to the end. No currency comes to occur twice that did
    /// not before.
    pub fn insert(&mut self, currency: String, auth_key: String) -> (replaced: Option<String>)
        ensures
            old(self).wf() ==> final(self).wf(),
            match replaced {
                Some(before) => exists|i: int|
                    0 <= i < old(self).entries().len() && (
                    #[trigger] old(self).entries()[i]).currency@ == currency@ && old(
                        self,
                    ).entries()[i].auth_key == before && final(self).entries() == old(
                        self,
                    ).entries().update(i, CurrencyAuthKey { currency, auth_key }),
                None => {
                    &&& !has_currency(old(self).entries(), currency@)
                    &&& final(self).entries() == old(self).entries().push(
                        CurrencyAuthKey { currency, auth_key },
                    )
                },
            },
    {
        match self.find(&currency) {
            Some(i) => {
                let before = self.entries[i].auth_key.clone();
                self.entries.set(i, CurrencyAuthKey { currency, auth_key });
                assert(old(self).entries()[i as int].currency@ == currency@);
                Some(before)
            },
            None => {
                self.entries.push(CurrencyAuthKey { currency, auth_key });
                None
            },
        }
    }
}

/// Whether no name occurs twice.
pub open spec fn names_distinct(names: Seq<String>) -> bool {
    forall|i: int, j: int|
        0 <= i < j < names.len() ==> (#[trigger] names[i])@ != (#[trigger] names[j])@
}

/// Whether a list of names holds the name.
pub open spec fn names_contain(names: Seq<String>, name: Seq<char>) -> bool {
    exists|i: int| 0 <= i < names.len() && (#[trigger] names[i])@ == name
}

/// A set of connector names.
#[derive(Clone, Debug, PartialEq, Eq)]
pub struct ConnectorNames {
    names: Vec<String>,
}

impl ConnectorNames {
    /// The names of the set, in the order in which they were entered.
    pub closed spec fn names(self) -> Seq<String> {
        self.names@
    }

    /// Whether the set holds the name.
    pub open spec fn holds(self, name: Seq<char>) -> bool {
        names_contain(self.names(), name)
    }

    /// The invariant of the set: no name occurs twice. Every set that
    /// [`Self::new`], [`Self::insert`] and [`Self::from_names`] make has it.
    pub open spec fn wf(self) -> bool {
        names_distinct(self.names())
    }

    /// The set without names.
    pub fn new() -> (set: Self)
        ensures
            set.names().len() == 0,
            set.wf(),
    {
        ConnectorNames { names: Vec::new() }
    }

    /// The names of the set, in the order in which they were entered.
    pub fn into_names(self) -> (names: Vec<String>)
        ensures
            names@ == self.names(),
    {
        self.names
    }

    /// Whether the set holds the name.
    pub fn contains(&self, name: &String) -> (found: bool)
        ensures
            found == self.holds(name@),
    {
        let mut i: usize = 0;
        while i < self.names.len()
            invariant
                i <= self.names@.len(),
                forall|j: int| 0 <= j < i ==> (#[trigger] self.names@[j])@ != name@,
            decreases self.names@.len() - i,
        {
            if self.names[i] == *name {
                return true;
            }
            i += 1;
        }
        false
    }

    /// Enters a name, unless the set holds it, and says whether the name
    /// is new to the set.
    pub fn insert(&mut self, name: String) -> (added: bool)
        ensures
            old(self).wf() ==> final(self).wf(),
            added == !old(self).holds(name@),
            final(self).names() == (if added {
                old(self).names().push(name)
            } else {
                old(self).names()
            }),
    {
        if self.contains(&name) {
            false
        } else {
            self.names.push(name);
            true
        }
    }

    /// The set of the names of a list: each name once, in the order of its
    /// first occurrence.
    pub fn from_names(list: Vec<String>) -> (set: Self)
        ensures
            set.wf(),
            forall|name: Seq<char>| set.holds(name) <==> names_contain(list@, name),
    {
        let mut set = ConnectorNames::new();
        let mut i: usize = 0;
        while i < list.len()
            invariant
                i <= list@.len(),
                set.wf(),
                forall|name: Seq<char>|
                    set.holds(name) <==> names_contain(list@.take(i as int), name),
            decreases list@.len() - i,
        {
            let ghost before = set;
            let name = list[i].clone();
            set.insert(name);
            proof {
                let taken = list@.take(i as int);
                let longer = list@.take(i + 1);
                assert(longer =~= taken.push(list@[i as int]));
                assert forall|n: Seq<char>| set.holds(n) <==> names_contain(longer, n) by {
                    if names_contain(longer, n) {
                        let k = choose|k: int|
                            0 <= k < longer.len() && (#[trigger] longer[k])@ == n;
                        if k < i {
                            assert(taken[k]@ == n);
                            assert(before.holds(n));
                            let m = choose|m: int|
                                0 <= m < before.names().len() && (#[trigger] before.names()[m])@
                                    == n;
                            assert(set.names()[m]@ == n);
                        } else {
                            assert(n == name@);
                            if before.holds(n) {
                                let m = choose|m: int|
                                    0 <= m < before.names().len() && (
                                    #[trigger] before.names()[m])@ == n;
                                assert(set.names()[m]@ == n);
                            } else {
                                assert(set.names()[before.names().len() as int]@ == n);
                            }
                        }
                    }
                    if set.holds(n) {
                        let m = choose|m: int|
                            0 <= m < set.names().len() && (#[trigger] set.names()[m])@ == n;
                        if m < before.names().len() {
                            assert(before.names()[m]@ == n);
                            assert(before.holds(n));
                            let k = choose|k: int|
                                0 <= k < taken.len() && (#[trigger] taken[k])@ == n;
                            assert(longer[k]@ == n);
                        } else {
                            assert(longer[i as int]@ == n);
                        }
                    }
                }
            }
            i += 1;
        }
        assert(list@.take(list@.len() as int) =~= list@);
        set
    }
}

} // verus!
