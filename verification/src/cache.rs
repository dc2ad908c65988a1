//! Versioned value sharing: a value paired with a counter that bumps on
//! every write, so readers can cheaply tell whether anything changed since
//! they last looked, and a broadcast variant whose receivers each track what
//! they have consumed.
//!
//! Readers hold only their last-seen version and ask the source directly;
//! callers that share a source across threads put it behind their own lock.

use vstd::prelude::*;

verus! {

/// A value whose every change bumps a version counter.
pub struct VersionCache<T> {
    pub value: T,
    pub version: u64,
}

/// A reader that keeps its own clone of the value, refreshed on demand.
pub struct Getter<T> {
    pub cache: T,
    pub version: u64,
}

/// A reader that borrows the value only when it changed.
pub struct Observer {
    pub version: u64,
}

impl<T> VersionCache<T> {
    /// A fresh cache at version one.
    pub fn new(value: T) -> (r: VersionCache<T>)
        ensures
            r.value == value,
            r.version == 1,
    {
        VersionCache { value, version: 1 }
    }

    /// Replaces the whole value and bumps the version.
    pub fn replace(&mut self, incomming: T)
        requires
            old(self).version < u64::MAX,
        ensures
            final(self).value == incomming,
            final(self).version == old(self).version + 1,
    {
        self.value = incomming;
        self.version = self.version + 1;
    }

    /// Updates part of the value through `f` and bumps the version.
    pub fn update<F: FnOnce(&T) -> T>(&mut self, f: F)
        requires
            old(self).version < u64::MAX,
            call_requires(f, (&old(self).value,)),
        ensures
            call_ensures(f, (&old(self).value,), final(self).value),
            final(self).version == old(self).version + 1,
    {
        let new_value = f(&self.value);
        self.value = new_value;
        self.version = self.version + 1;
    }

    /// A reader that starts caught up with the current version.
    pub fn observer(&self) -> (r: Observer)
        ensures
            r.version == self.version,
    {
        Observer { version: self.version }
    }
}

impl<T: Clone> VersionCache<T> {
    /// A reader holding a clone of the current value.
    pub fn getter(&self) -> (r: Getter<T>)
        ensures
            cloned(self.value, r.cache),
            r.version == self.version,
    {
        Getter { cache: self.value.clone(), version: self.version }
    }
}

impl Observer {
    /// Observes the source's value without cloning it: borrows it when there
    /// is something newer than last observed, and remembers having seen it.
    pub fn observe<'a, T>(&mut self, source: &'a VersionCache<T>) -> (r: Option<&'a T>)
        ensures
            r is Some <==> old(self).version < source.version,
            r matches Some(v) ==> v == &source.value && final(self).version == source.version,
            r is None ==> *final(self) == *old(self),
    {
        if self.version < source.version {
            self.version = source.version;
            Some(&source.value)
        } else {
            None
        }
    }
}

impl<T: Clone> Getter<T> {
    /// Refreshes the cached clone to the source's value when there is
    /// something newer; true means there was.
    pub fn refresh(&mut self, source: &VersionCache<T>) -> (r: bool)
        ensures
            r == (old(self).version < source.version),
            r ==> cloned(source.value, final(self).cache) && final(self).version == source.version,
            !r ==> *final(self) == *old(self),
    {
        if self.version < source.version {
            self.version = source.version;
            self.cache = source.value.clone();
            true
        } else {
            false
        }
    }

    /// The cached value.
    pub fn value(&self) -> (r: &T)
        ensures
            r == &self.cache,
    {
        &self.cache
    }
}

/// A value writers broadcast and receivers consume at their own pace.
pub struct Broacast<T> {
    pub value: T,
    pub version: u64,
}

/// One consumer of a broadcast value: remembers the version it received.
pub struct Receiver {
    pub recved: u64,
}

impl<T> Broacast<T> {
    /// A fresh broadcast source at version one.
    pub fn new(value: T) -> (r: Broacast<T>)
        ensures
            r.value == value,
            r.version == 1,
    {
        Broacast { value, version: 1 }
    }

    /// Broadcasts a new value: replaces the old one and bumps the version.
    pub fn broacast(&mut self, incomming: T)
        requires
            old(self).version < u64::MAX,
        ensures
            final(self).value == incomming,
            final(self).version == old(self).version + 1,
    {
        self.value = incomming;
        self.version = self.version + 1;
    }

    /// A receiver that has consumed nothing yet: its first ask returns the
    /// current value.
    pub fn add_recv(&self) -> (r: Receiver)
        ensures
            r.recved == 0,
    {
        Receiver { recved: 0 }
    }
}

impl Receiver {
    /// Takes a clone of the broadcast value when anything was broadcast
    /// since this receiver last took one.
    pub fn any_new<T: Clone>(&mut self, source: &Broacast<T>) -> (r: Option<T>)
        ensures
            r is Some <==> old(self).recved < source.version,
            r matches Some(v) ==> cloned(source.value, v) && final(self).recved == source.version,
            r is None ==> *final(self) == *old(self),
    {
        if self.recved >= source.version {
            return None;
        }
        self.recved = source.version;
        Some(source.value.clone())
    }
}

impl Clone for Receiver {
    /// A cloned receiver starts over: it has consumed nothing.
    fn clone(&self) -> (r: Self)
        ensures
            r.recved == 0,
    {
        Receiver { recved: 0 }
    }
}

} // verus!
