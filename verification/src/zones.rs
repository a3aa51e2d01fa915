//! Identities of the car's actor-backed assemblies, with a set and a table keyed by them.
use vstd::prelude::*;

verus! {

/// An assembly zone that the brain coordinates with.
#[derive(Clone, Copy, Debug, PartialEq, Eq, Structural)]
pub enum ZoneId {
    Headlamp,
    Wiper,
}

/// A set of zones.
#[derive(Clone, Copy, Debug, PartialEq, Eq, Structural)]
pub struct ZoneSet {
    pub headlamp: bool,
    pub wiper: bool,
}

impl View for ZoneSet {
    type V = Set<ZoneId>;

    open spec fn view(&self) -> Set<ZoneId> {
        Set::new(
            |z: ZoneId|
                match z {
                    ZoneId::Headlamp => self.headlamp,
                    ZoneId::Wiper => self.wiper,
                },
        )
    }
}

impl ZoneSet {
    /// The set of zones without any.
    pub fn empty() -> (set: ZoneSet)
        ensures
            set@ == Set::<ZoneId>::empty(),
    {
        let set = ZoneSet { headlamp: false, wiper: false };
        assert(set@ =~= Set::<ZoneId>::empty());
        set
    }

    /// The set of just one zone.
    pub fn only(zone: ZoneId) -> (set: ZoneSet)
        ensures
            set@ == Set::<ZoneId>::empty().insert(zone),
    {
        let set = match zone {
            ZoneId::Headlamp => ZoneSet { headlamp: true, wiper: false },
            ZoneId::Wiper => ZoneSet { headlamp: false, wiper: true },
        };
        assert(set@ =~= Set::<ZoneId>::empty().insert(zone));
        set
    }

    pub fn contains(&self, zone: ZoneId) -> (r: bool)
        ensures
            r == self@.contains(zone),
    {
        match zone {
            ZoneId::Headlamp => self.headlamp,
            ZoneId::Wiper => self.wiper,
        }
    }

    /// This set with `zone` in it.
    pub fn with(&self, zone: ZoneId) -> (set: ZoneSet)
        ensures
            set@ == self@.insert(zone),
    {
        let set = match zone {
            ZoneId::Headlamp => ZoneSet { headlamp: true, wiper: self.wiper },
            ZoneId::Wiper => ZoneSet { headlamp: self.headlamp, wiper: true },
        };
        assert(set@ =~= self@.insert(zone));
        set
    }

    /// This set without `zone`.
    pub open spec fn minus(self, zone: ZoneId) -> ZoneSet {
        match zone {
            ZoneId::Headlamp => ZoneSet { headlamp: false, ..self },
            ZoneId::Wiper => ZoneSet { wiper: false, ..self },
        }
    }

    /// This set without `zone`.
    pub fn without(&self, zone: ZoneId) -> (set: ZoneSet)
        ensures
            set@ == self@.remove(zone),
            set == self.minus(zone),
    {
        let set = match zone {
            ZoneId::Headlamp => ZoneSet { headlamp: false, wiper: self.wiper },
            ZoneId::Wiper => ZoneSet { headlamp: self.headlamp, wiper: false },
        };
        assert(set@ =~= self@.remove(zone));
        set
    }

    pub fn is_empty(&self) -> (r: bool)
        ensures
            r <==> self@ == Set::<ZoneId>::empty(),
    {
        let r = !self.headlamp && !self.wiper;
        proof {
            if r {
                assert(self@ =~= Set::<ZoneId>::empty());
            } else {
                assert(self.headlamp ==> self@.contains(ZoneId::Headlamp));
                assert(self.wiper ==> self@.contains(ZoneId::Wiper));
            }
        }
        r
    }
}

/// Two sets of zones with the same members are the same value.
pub proof fn zone_set_is_its_members(a: ZoneSet, b: ZoneSet)
    ensures
        a@ == b@ <==> a == b,
{
    if a@ == b@ {
        assert(a@.contains(ZoneId::Headlamp) == b@.contains(ZoneId::Headlamp));
        assert(a@.contains(ZoneId::Wiper) == b@.contains(ZoneId::Wiper));
    }
}

/// At most one value for each zone.
#[derive(Debug, PartialEq)]
pub struct ZoneTable<T> {
    pub headlamp: Option<T>,
    pub wiper: Option<T>,
}

impl<T> View for ZoneTable<T> {
    type V = Map<ZoneId, T>;

    open spec fn view(&self) -> Map<ZoneId, T> {
        Map::new(
            |z: ZoneId| self.slot(z) is Some,
            |z: ZoneId| self.slot(z)->0,
        )
    }
}

impl<T> ZoneTable<T> {
    /// What the table holds for a zone.
    pub open spec fn slot(&self, zone: ZoneId) -> Option<T> {
        match zone {
            ZoneId::Headlamp => self.headlamp,
            ZoneId::Wiper => self.wiper,
        }
    }

    /// The table without entries.
    pub fn empty() -> (table: ZoneTable<T>)
        ensures
            table@ == Map::<ZoneId, T>::empty(),
    {
        let table = ZoneTable { headlamp: None, wiper: None };
        assert(table@ =~= Map::<ZoneId, T>::empty());
        table
    }

    /// Sets the entry of `zone`, dropping the one it had.
    pub fn insert(&mut self, zone: ZoneId, value: T)
        ensures
            final(self)@ == old(self)@.insert(zone, value),
    {
        match zone {
            ZoneId::Headlamp => {
                self.headlamp = Some(value);
            },
            ZoneId::Wiper => {
                self.wiper = Some(value);
            },
        }
        assert(self@ =~= old(self)@.insert(zone, value));
    }

    /// Takes the entry of `zone` out of the table.
    pub fn remove(&mut self, zone: ZoneId) -> (value: Option<T>)
        ensures
            final(self)@ == old(self)@.remove(zone),
            value is Some <==> old(self)@.dom().contains(zone),
            value matches Some(v) ==> v == old(self)@[zone],
    {
        let value = match zone {
            ZoneId::Headlamp => self.headlamp.take(),
            ZoneId::Wiper => self.wiper.take(),
        };
        assert(self@ =~= old(self)@.remove(zone));
        value
    }

    /// The entry of `zone`.
    pub fn get(&self, zone: ZoneId) -> (value: Option<&T>)
        ensures
            value is Some <==> self@.dom().contains(zone),
            value matches Some(v) ==> *v == self@[zone],
    {
        match zone {
            ZoneId::Headlamp => self.headlamp.as_ref(),
            ZoneId::Wiper => self.wiper.as_ref(),
        }
    }
}

} // verus!
