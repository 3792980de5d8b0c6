//! A transparent holder of a field's normalized value, whose type names the
//! converter that reads the field's old shape.
use std::marker::PhantomData;
use vstd::prelude::*;
use crate::conversion::Conversion;
use crate::text::DefaultValue;
use crate::old_or_new::{normalize, OldOrNew, Precedence};
use vstd::std_specs::cmp::{PartialEqSpec, PartialOrdSpec};

verus! {

/// Holds a `T`; `C` is the converter that turns the field's old shape into
/// a `T`. Nothing of `C` is kept at run time.
pub struct Legacy<C, T> {
    pd: PhantomData<C>,
    new: T,
}

impl<C, T> Legacy<C, T> {
    /// The held value.
    pub closed spec fn value(&self) -> T {
        self.new
    }

    pub fn into_inner(legacy: Self) -> (r: T)
        ensures
            r == legacy.value(),
    {
        legacy.new
    }

    pub fn get(&self) -> (r: &T)
        ensures
            *r == self.value(),
    {
        &self.new
    }

    pub fn get_mut(&mut self) -> (r: &mut T)
        ensures
            *r == old(self).value(),
            final(self).value() == *final(r),
    {
        &mut self.new
    }
}

impl<C: Conversion<Output = T>, T> Legacy<C, T> {
    /// Decodes the field from the two attempts, as `decode_field` does, and
    /// keeps the normalized value.
    pub fn resolve(precedence: Precedence, new_attempt: Option<T>, old_attempt: Option<C::Input>) -> (r:
        Option<Self>)
        ensures
            match crate::old_or_new::resolved(precedence, new_attempt, old_attempt) {
                None => r is None,
                Some(v) => r is Some && crate::old_or_new::normalizes_to::<C>(v, r->0.value()),
            },
    {
        match OldOrNew::resolve(precedence, new_attempt, old_attempt) {
            Some(v) => Some(Legacy { pd: PhantomData, new: normalize::<C>(v) }),
            None => None,
        }
    }
}

impl<C, T> From<T> for Legacy<C, T> {
    fn from(new: T) -> (r: Self)
        ensures
            r.value() == new,
    {
        Legacy { pd: PhantomData, new }
    }
}

impl<C, T> vstd::std_specs::convert::FromSpecImpl<T> for Legacy<C, T> {
    open spec fn obeys_from_spec() -> bool {
        true
    }

    closed spec fn from_spec(v: T) -> Self {
        Legacy { pd: PhantomData, new: v }
    }
}

impl<C, T: PartialEq> PartialEq for Legacy<C, T> {
    fn eq(&self, other: &Self) -> (r: bool) {
        self.new == other.new
    }
}

impl<C, T: PartialEq> vstd::std_specs::cmp::PartialEqSpecImpl for Legacy<C, T> {
    open spec fn obeys_eq_spec() -> bool {
        <T as PartialEqSpec>::obeys_eq_spec()
    }

    open spec fn eq_spec(&self, other: &Self) -> bool {
        self.value().eq_spec(&other.value())
    }
}

impl<C, T: Eq> Eq for Legacy<C, T> {

}

impl<C, T: PartialOrd> PartialOrd for Legacy<C, T> {
    fn partial_cmp(&self, other: &Self) -> (r: Option<std::cmp::Ordering>) {
        self.new.partial_cmp(&other.new)
    }
}

impl<C, T: PartialOrd> vstd::std_specs::cmp::PartialOrdSpecImpl for Legacy<C, T> {
    open spec fn obeys_partial_cmp_spec() -> bool {
        <T as PartialOrdSpec>::obeys_partial_cmp_spec()
    }

    open spec fn partial_cmp_spec(&self, other: &Self) -> Option<std::cmp::Ordering> {
        self.value().partial_cmp_spec(&other.value())
    }
}

impl<C, T: DefaultValue> Default for Legacy<C, T> {
    fn default() -> (r: Self)
        ensures
            r.value().is_default(),
    {
        Legacy { pd: PhantomData, new: T::default_value() }
    }
}

impl<C, T: Clone> Clone for Legacy<C, T> {
    fn clone(&self) -> (r: Self)
        ensures
            vstd::pervasive::cloned(self.value(), r.value()),
    {
        Legacy { pd: PhantomData, new: self.new.clone() }
    }
}

impl<C, T> AsRef<T> for Legacy<C, T> {
    fn as_ref(&self) -> (r: &T)
        ensures
            *r == self.value(),
    {
        &self.new
    }
}

impl<C, T> AsMut<T> for Legacy<C, T> {
    fn as_mut(&mut self) -> (r: &mut T)
        ensures
            *r == old(self).value(),
            final(self).value() == *final(r),
    {
        &mut self.new
    }
}

// No `ensures` here: with one, the generated contract call is ambiguous
// between this impl and std's blanket `Borrow<Self>`. `get`, `as_ref` and
// `deref` state the same result.
impl<C, T> std::borrow::Borrow<T> for Legacy<C, T> {
    fn borrow(&self) -> &T {
        &self.new
    }
}

impl<C, T> std::ops::Deref for Legacy<C, T> {
    type Target = T;

    fn deref(&self) -> (r: &T)
        ensures
            *r == self.value(),
    {
        &self.new
    }
}

impl<C, T> std::ops::DerefMut for Legacy<C, T> {
    fn deref_mut(&mut self) -> (r: &mut T)
        ensures
            *r == old(self).value(),
            final(self).value() == *final(r),
    {
        &mut self.new
    }
}

/// A holder made from a value holds exactly that value.
pub proof fn lemma_legacy_from<C, T>(v: T)
    ensures
        <Legacy<C, T> as vstd::std_specs::convert::FromSpec<T>>::from_spec(v).value() == v,
{
}

/// `==` on two holders made from one value is what `==` on the value is.
pub proof fn lemma_legacy_eq<C, T: PartialEq>(v: T)
    ensures
        <Legacy<C, T> as vstd::std_specs::convert::FromSpec<T>>::from_spec(v).eq_spec(
            &<Legacy<C, T> as vstd::std_specs::convert::FromSpec<T>>::from_spec(v),
        ) == v.eq_spec(&v),
{
}

impl<C, T: Copy> Copy for Legacy<C, T> {

}

} // verus!
