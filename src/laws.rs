//! Laws of the converters and of field resolution, proved from the
//! contracts above.
use std::collections::BTreeMap;
use vstd::laws_cmp::obeys_cmp;
use vstd::prelude::*;
use crate::conversion::{
    deterministic, Collect, CollectDefaultKey, Compose, Conversion, Convert, Identity, MapEach,
    Parse, ParseOrDefault, ToString, TryConvert, TryConvertOrDefault,
};
use crate::collection::SingleCollection;
use crate::old_or_new::{normalizes_to, resolved, OldOrNew, Precedence};
use crate::text::{DefaultValue, FromText, ToText};
use vstd::std_specs::convert::{IntoSpec, TryIntoSpec};

verus! {

/// A type whose default value is a single value.
pub open spec fn unique_default<U: DefaultValue>() -> bool {
    forall|a: U, b: U| #[trigger] a.is_default() && #[trigger] b.is_default() ==> a == b
}

/// Identity gives back its input unchanged, and so always the same output.
pub proof fn lemma_identity<T>(x: T, out: T)
    requires
        Identity::<T>::converts(x, out),
    ensures
        out == x,
        deterministic::<Identity<T>>(),
{
}

/// A lossless conversion that behaves as its model says gives one output
/// per input.
pub proof fn lemma_convert_deterministic<T: Into<U>, U>()
    requires
        T::obeys_into_spec(),
    ensures
        deterministic::<Convert<T, U>>(),
{
}

/// A fallible conversion that behaves as its model says gives one outcome
/// per input.
pub proof fn lemma_try_convert_deterministic<T: TryInto<U>, U>()
    requires
        T::obeys_try_into_spec(),
    ensures
        deterministic::<TryConvert<T, U>>(),
{
}

/// With a single default value, the defaulting conversion gives one output
/// per input.
pub proof fn lemma_try_convert_or_default_deterministic<T: TryInto<U>, U: DefaultValue>()
    requires
        T::obeys_try_into_spec(),
        unique_default::<U>(),
    ensures
        deterministic::<TryConvertOrDefault<T, U>>(),
{
}

/// With a single default value, parsing with a default gives one output per
/// input.
pub proof fn lemma_parse_or_default_deterministic<T: FromText + DefaultValue>()
    requires
        unique_default::<T>(),
    ensures
        deterministic::<ParseOrDefault<T>>(),
{
}

/// Parsing one text twice either succeeds twice with the same value or
/// fails twice.
pub proof fn lemma_parse_deterministic<T: FromText>(
    x: String,
    a: Result<T, T::Err>,
    b: Result<T, T::Err>,
)
    requires
        Parse::<T>::converts(x, a),
        Parse::<T>::converts(x, b),
    ensures
        a is Ok <==> b is Ok,
        a is Ok ==> a->Ok_0 == b->Ok_0,
{
}

/// Chaining two converters that give one output per input gives one output
/// per input.
pub proof fn lemma_compose_deterministic<A: Conversion, B: Conversion<Input = A::Output>>()
    requires
        deterministic::<A>(),
        deterministic::<B>(),
    ensures
        deterministic::<Compose<A, B>>(),
{
    assert forall|x: A::Input, a: B::Output, b: B::Output|
        #[trigger] Compose::<A, B>::converts(x, a) && #[trigger] Compose::<A, B>::converts(
            x,
            b,
        ) implies a == b by {
        let u = choose|u: A::Output| #[trigger] A::converts(x, u) && B::converts(u, a);
        let w = choose|w: A::Output| #[trigger] A::converts(x, w) && B::converts(w, b);
        assert(u == w);
    }
}

/// The chain of `A` then `B` yields exactly what `B` yields on what `A`
/// yields: any output of `B` on an output of `A` is an output of the chain,
/// and where `A` has one output per input, nothing else is.
pub proof fn lemma_compose<A: Conversion, B: Conversion<Input = A::Output>>(
    x: A::Input,
    mid: A::Output,
    out: B::Output,
)
    requires
        A::converts(x, mid),
    ensures
        B::converts(mid, out) ==> Compose::<A, B>::converts(x, out),
        deterministic::<A>() ==> (Compose::<A, B>::converts(x, out) <==> B::converts(mid, out)),
{
}

/// Collecting one value gives the same elements on every call.
pub proof fn lemma_collect_deterministic<I>(x: I, a: Vec<I>, b: Vec<I>)
    requires
        Collect::<I, Vec<I>>::converts(x, a),
        Collect::<I, Vec<I>>::converts(x, b),
    ensures
        a@ == b@,
{
}

/// Mapping a sequence with a converter of one output per input gives the
/// same elements on every call.
pub proof fn lemma_map_each_deterministic<F: Conversion>(
    x: Vec<F::Input>,
    a: Vec<F::Output>,
    b: Vec<F::Output>,
)
    requires
        deterministic::<F>(),
        MapEach::<F>::converts(x, a),
        MapEach::<F>::converts(x, b),
    ensures
        a@ == b@,
{
    assert(a@ =~= b@) by {
        assert forall|i: int| 0 <= i < a@.len() implies a@[i] == b@[i] by {
            assert(F::converts(x@[i], a@[i]));
            assert(F::converts(x@[i], b@[i]));
        }
    }
}

/// Converting a value with `F` and collecting it gives a collection of
/// exactly one element, which is what `F` gives.
pub proof fn lemma_collect_single<F: Conversion>(x: F::Input, out: Vec<F::Output>)
    requires
        Compose::<F, Collect<F::Output, Vec<F::Output>>>::converts(x, out),
    ensures
        out@.len() == 1,
        F::converts(x, out@[0]),
{
}

/// A single value collected under the default key gives exactly one entry:
/// the default key with that value.
pub proof fn lemma_collect_default_key<K: DefaultValue, V>(x: V, out: Vec<(K, V)>)
    requires
        CollectDefaultKey::<K, V, Vec<(K, V)>>::converts(x, out),
    ensures
        out@.len() == 1,
        out@[0].0.is_default(),
        out@[0].1 == x,
{
    let k = choose|k: K| #[trigger] k.is_default() && Vec::<(K, V)>::holds_only(out, (k, x));
}

/// The same for an ordered map whose key ordering is lawful: the map has one
/// key, a default one, and it maps to the value.
pub proof fn lemma_collect_default_key_ordered_map<K: DefaultValue + Ord, V>(
    x: V,
    out: BTreeMap<K, V>,
)
    requires
        obeys_cmp::<K>(),
        CollectDefaultKey::<K, V, BTreeMap<K, V>>::converts(x, out),
    ensures
        exists|k: K| #[trigger] k.is_default() && out@ == map![k => x],
{
    let k = choose|k: K| #[trigger] k.is_default() && BTreeMap::<K, V>::holds_only(out, (k, x));
    assert(k.is_default() && out@ == map![k => x]);
}

/// A field that was read in its new shape comes out unchanged: always where
/// the new shape is tried first, and where the old shape is tried first but
/// did not match.
pub proof fn lemma_new_shape_round_trip<C: Conversion>(
    precedence: Precedence,
    n: C::Output,
    old_attempt: Option<C::Input>,
    out: C::Output,
)
    requires
        precedence == Precedence::NewFirst || old_attempt is None,
    ensures
        resolved(precedence, Some(n), old_attempt) == Some(OldOrNew::<C::Input, C::Output>::New(n)),
        normalizes_to::<C>(OldOrNew::New(n), out) <==> out == n,
{
}

/// A field that arrives as a single legacy value, where a list is now
/// expected, comes out as a one-element list of the converted value.
pub proof fn lemma_legacy_scalar_to_list<F: Conversion>(
    precedence: Precedence,
    x: F::Input,
    out: Vec<F::Output>,
)
    requires
        normalizes_to::<Compose<F, Collect<F::Output, Vec<F::Output>>>>(
            resolved(precedence, None, Some(x))->0,
            out,
        ),
    ensures
        resolved(precedence, None::<Vec<F::Output>>, Some(x)) == Some(
            OldOrNew::<F::Input, Vec<F::Output>>::Old(x),
        ),
        out@.len() == 1,
        F::converts(x, out@[0]),
{
}

/// A legacy 64-bit value read into a list of 32-bit values gives the list
/// of that value where it fits, and of zero where it does not.
pub proof fn lemma_legacy_u64_to_u32_list(precedence: Precedence, x: u64, out: Vec<u32>)
    requires
        normalizes_to::<Compose<TryConvertOrDefault<u64, u32>, Collect<u32, Vec<u32>>>>(
            resolved(precedence, None, Some(x))->0,
            out,
        ),
    ensures
        out@ == seq![if x <= u32::MAX { x as u32 } else { 0u32 }],
{
    let mid = choose|mid: u32| #[trigger]
        TryConvertOrDefault::<u64, u32>::converts(x, mid) && Collect::<u32, Vec<u32>>::converts(mid, out);
    assert(out@ =~= seq![mid]);
}

/// A field that arrives as a single legacy value, where a key-to-value
/// collection is now expected, comes out as one entry: the default key with
/// that value.
pub proof fn lemma_legacy_scalar_to_keyed<K: DefaultValue, V>(
    precedence: Precedence,
    x: V,
    out: Vec<(K, V)>,
)
    requires
        normalizes_to::<CollectDefaultKey<K, V, Vec<(K, V)>>>(
            resolved(precedence, None, Some(x))->0,
            out,
        ),
    ensures
        out@.len() == 1,
        out@[0].0.is_default(),
        out@[0].1 == x,
{
}

/// The integer types have one default value, zero, and `bool` has `false`.
pub proof fn lemma_integer_defaults_unique()
    ensures
        unique_default::<u32>(),
        unique_default::<u64>(),
        unique_default::<i32>(),
        unique_default::<i64>(),
        unique_default::<u8>(),
        unique_default::<u16>(),
        unique_default::<u128>(),
        unique_default::<usize>(),
        unique_default::<i8>(),
        unique_default::<i16>(),
        unique_default::<i128>(),
        unique_default::<isize>(),
        unique_default::<bool>(),
{
}

/// Writing a value as text gives the same text on every call.
pub proof fn lemma_to_string_deterministic<T: ToText>(x: T, a: String, b: String)
    requires
        ToString::<T>::converts(x, a),
        ToString::<T>::converts(x, b),
    ensures
        a@ == b@,
{
    T::lemma_text_unique(a@, b@, x);
}

} // verus!
