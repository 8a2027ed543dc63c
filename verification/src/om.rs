//! Object model: native objects that script can hold.
//!
//! A native object is exposed to script as an asset. An asset is counted by
//! its references: the engine adds one for every holder and releases one when
//! a holder lets go, and the asset is destroyed when the last one is released.

#![allow(non_camel_case_types, non_snake_case)]

use vstd::prelude::*;

verus! {

/// The number of an interned string.
pub type som_atom_t = u64;

/// The description of a native object for the script: its name and what it offers.
#[derive(Clone, Copy, PartialEq, Eq, Structural, Debug)]
pub struct som_passport_t {
    /// Flags of the passport.
    pub flags: u64,
    /// The name of the class, an interned string.
    pub name: som_atom_t,
}

/// Something that has a passport.
pub trait Passport {
    /// The passport that describes an asset.
    fn get_passport(&self) -> som_passport_t;
}

/// A managed native object.
pub struct IAsset<T> {
    refc: i32,
    passport: Option<som_passport_t>,
    data: T,
}

impl<T> IAsset<T> {
    /// The number of references to the asset.
    pub closed spec fn references(&self) -> i32 {
        self.refc
    }

    /// The passport of the asset, once it was asked for.
    pub closed spec fn passport(&self) -> Option<som_passport_t> {
        self.passport
    }

    /// The native object.
    pub closed spec fn data(&self) -> T {
        self.data
    }

    /// The number of references to the asset.
    pub fn get_references(&self) -> (n: i32)
        ensures
            n == self.references(),
    {
        self.refc
    }

    /// Access the native object.
    pub fn deref(&self) -> (r: &T)
        ensures
            *r == self.data(),
    {
        &self.data
    }

    /// One more reference to the asset: the count after it. The count wraps
    /// around at the ends of its 32 bits.
    pub fn add_ref(&mut self) -> (t: i32)
        ensures
            t == final(self).references(),
            t == spec_count_up(old(self).references()),
            final(self).passport() == old(self).passport(),
            final(self).data() == old(self).data(),
    {
        self.refc = self.refc.wrapping_add(1);
        self.refc
    }

    /// One reference less: the count after it, and the asset itself unless that
    /// was its last reference. An asset whose count reaches zero is destroyed.
    pub fn release(self) -> (r: (i32, Option<IAsset<T>>))
        ensures
            r.0 == spec_count_down(self.references()),
            r.1 is None <==> r.0 == 0,
            r.1 matches Some(kept) ==> kept.references() == r.0 && kept.passport() == self.passport()
                && kept.data() == self.data(),
    {
        let mut me = self;
        me.refc = me.refc.wrapping_sub(1);
        let t = me.refc;
        if t == 0 {
            (t, None)
        } else {
            (t, Some(me))
        }
    }

    /// Another interface of the asset, by its name. There is none.
    pub fn get_interface(&self, name: &str) -> (r: bool)
        ensures
            !r,
    {
        false
    }
}

/// The count of references after one more.
pub open spec fn spec_count_up(n: i32) -> i32 {
    if n == i32::MAX {
        i32::MIN
    } else {
        (n + 1) as i32
    }
}

/// The count of references after one less.
pub open spec fn spec_count_down(n: i32) -> i32 {
    if n == i32::MIN {
        i32::MAX
    } else {
        (n - 1) as i32
    }
}

impl<T: Passport> IAsset<T> {
    /// Wrap the object into a managed asset. Nothing holds it yet.
    pub fn new(data: T) -> (r: Box<IAsset<T>>)
        ensures
            r.references() == 0,
            r.passport() is None,
            r.data() == data,
    {
        Box::new(IAsset { refc: 0, passport: None, data })
    }

    /// The passport of the asset. The native object is asked for it the first
    /// time only; from then on the same passport is given.
    pub fn get_passport(&mut self) -> (ps: som_passport_t)
        ensures
            final(self).passport() == Some(ps),
            old(self).passport() matches Some(known) ==> ps == known,
            old(self).passport() is None ==> call_ensures(T::get_passport, (&old(self).data(),), ps),
            final(self).references() == old(self).references(),
            final(self).data() == old(self).data(),
    {
        match self.passport {
            Some(ps) => ps,
            None => {
                let ps = self.data.get_passport();
                self.passport = Some(ps);
                ps
            },
        }
    }
}

/// A reference that is added and released again leaves the count as it was,
/// and the asset alive if it was held before.
pub proof fn lemma_add_then_release(n: i32)
    ensures
        spec_count_down(spec_count_up(n)) == n,
        spec_count_up(spec_count_down(n)) == n,
        n != 0 ==> spec_count_down(spec_count_up(n)) != 0,
{
}

} // verus!
