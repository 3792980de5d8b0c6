//! Resolving which of its two shapes a field arrived in, and normalizing it.
use vstd::prelude::*;
use crate::conversion::Conversion;

verus! {

/// Which shape a decoder tries first when a field's input could be read as
/// either.
#[derive(Clone, Copy, Debug, PartialEq, Eq, Structural)]
pub enum Precedence {
    NewFirst,
    OldFirst,
}

/// A decoded field value: the new shape as it is, or the old shape still to
/// be converted.
pub enum OldOrNew<O, N> {
    New(N),
    Old(O),
}

/// The outcome of resolving a field from the two decode attempts: the
/// attempt of the preferred shape wins where it succeeded, else the other;
/// `None` where neither succeeded.
pub open spec fn resolved<O, N>(
    precedence: Precedence,
    new_attempt: Option<N>,
    old_attempt: Option<O>,
) -> Option<OldOrNew<O, N>> {
    match (precedence, new_attempt, old_attempt) {
        (Precedence::NewFirst, Some(n), _) => Some(OldOrNew::New(n)),
        (Precedence::OldFirst, _, Some(o)) => Some(OldOrNew::Old(o)),
        (_, Some(n), None) => Some(OldOrNew::New(n)),
        (_, None, Some(o)) => Some(OldOrNew::Old(o)),
        (_, None, None) => None,
    }
}

/// `out` is the normalized value of `v` under converter `C`.
pub open spec fn normalizes_to<C: Conversion>(v: OldOrNew<C::Input, C::Output>, out: C::Output) -> bool {
    match v {
        OldOrNew::New(n) => out == n,
        OldOrNew::Old(o) => C::converts(o, out),
    }
}

impl<O, N> OldOrNew<O, N> {
    /// The new-shaped value: as it is, or `f` applied to the old one.
    pub fn into_new<F: Fn(O) -> N>(self, f: F) -> (r: N)
        requires
            self matches OldOrNew::Old(o) ==> f.requires((o,)),
        ensures
            match self {
                OldOrNew::New(n) => r == n,
                OldOrNew::Old(o) => f.ensures((o,), r),
            },
    {
        match self {
            OldOrNew::Old(old) => f(old),
            OldOrNew::New(new) => new,
        }
    }

    /// Picks the shape by `precedence` from the outcomes of reading the input
    /// as each shape.
    pub fn resolve(precedence: Precedence, new_attempt: Option<N>, old_attempt: Option<O>) -> (r:
        Option<Self>)
        ensures
            r == resolved(precedence, new_attempt, old_attempt),
    {
        match precedence {
            Precedence::NewFirst => match new_attempt {
                Some(n) => Some(OldOrNew::New(n)),
                None => match old_attempt {
                    Some(o) => Some(OldOrNew::Old(o)),
                    None => None,
                },
            },
            Precedence::OldFirst => match old_attempt {
                Some(o) => Some(OldOrNew::Old(o)),
                None => match new_attempt {
                    Some(n) => Some(OldOrNew::New(n)),
                    None => None,
                },
            },
        }
    }
}

/// The new-shaped value of `v`, converting an old one with `C`.
pub fn normalize<C: Conversion>(v: OldOrNew<C::Input, C::Output>) -> (r: C::Output)
    ensures
        normalizes_to::<C>(v, r),
{
    match v {
        OldOrNew::Old(old) => C::convert(old),
        OldOrNew::New(new) => new,
    }
}

/// Decodes one field: resolves the shape from the two attempts, then
/// normalizes with `C`. `None` exactly where neither attempt succeeded.
pub fn decode_field<C: Conversion>(
    precedence: Precedence,
    new_attempt: Option<C::Output>,
    old_attempt: Option<C::Input>,
) -> (r: Option<C::Output>)
    ensures
        match resolved(precedence, new_attempt, old_attempt) {
            None => r is None,
            Some(v) => r is Some && normalizes_to::<C>(v, r->0),
        },
{
    match OldOrNew::resolve(precedence, new_attempt, old_attempt) {
        Some(v) => Some(normalize::<C>(v)),
        None => None,
    }
}

} // verus!
