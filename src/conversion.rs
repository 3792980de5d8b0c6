//! The converter family and its contracts.
use std::marker::PhantomData;
use vstd::prelude::*;
use vstd::std_specs::convert::{IntoSpec, TryIntoSpec};
use crate::collection::SingleCollection;
use crate::text::{DefaultValue, FromText, ToText};

verus! {

/// A rule that maps a value of a field's old shape (`Input`) to a value of
/// its new shape (`Output`).
///
/// `converts(x, y)` says that `y` is what `convert(x)` may return.
pub trait Conversion {
    type Input;

    type Output;

    spec fn converts(val: Self::Input, out: Self::Output) -> bool;

    fn convert(val: Self::Input) -> (r: Self::Output)
        ensures
            Self::converts(val, r),
    ;
}

/// A converter whose result is fixed by its input: two results of one input
/// are the same value.
pub open spec fn deterministic<C: Conversion>() -> bool {
    forall|x: C::Input, a: C::Output, b: C::Output|
        #[trigger] C::converts(x, a) && #[trigger] C::converts(x, b) ==> a == b
}

/// Leaves the value as it is.
pub struct Identity<T>(pub PhantomData<T>);

impl<T> Conversion for Identity<T> {
    type Input = T;

    type Output = T;

    open spec fn converts(val: T, out: T) -> bool {
        out == val
    }

    fn convert(val: T) -> (r: T) {
        val
    }
}

/// Uses the target type's lossless conversion from the source type.
pub struct Convert<T, U>(pub PhantomData<(T, U)>);

impl<T: Into<U>, U> Conversion for Convert<T, U> {
    type Input = T;

    type Output = U;

    open spec fn converts(val: T, out: U) -> bool {
        T::obeys_into_spec() ==> out == val.into_spec()
    }

    fn convert(val: T) -> (r: U) {
        val.into()
    }
}

/// Uses the fallible conversion; a failure is handed back as the conversion's
/// own error.
pub struct TryConvert<T, U>(pub PhantomData<(T, U)>);

impl<T: TryInto<U>, U> Conversion for TryConvert<T, U> {
    type Input = T;

    type Output = Result<U, <T as TryInto<U>>::Error>;

    open spec fn converts(val: T, out: Result<U, <T as TryInto<U>>::Error>) -> bool {
        T::obeys_try_into_spec() ==> out == val.try_into_spec()
    }

    fn convert(val: T) -> (r: Result<U, <T as TryInto<U>>::Error>) {
        val.try_into()
    }
}

/// Runs `A`, then feeds its result to `B`.
pub struct Compose<A, B>(pub PhantomData<(A, B)>);

impl<A: Conversion, B: Conversion<Input = A::Output>> Conversion for Compose<A, B> {
    type Input = A::Input;

    type Output = B::Output;

    open spec fn converts(val: A::Input, out: B::Output) -> bool {
        exists|mid: A::Output| #[trigger] A::converts(val, mid) && B::converts(mid, out)
    }

    fn convert(val: A::Input) -> (r: B::Output) {
        let mid = A::convert(val);
        let r = B::convert(mid);
        assert(A::converts(val, mid) && B::converts(mid, r));
        r
    }
}

/// Uses the fallible conversion; where it fails, the target type's default
/// value stands instead, so this converter never fails.
pub struct TryConvertOrDefault<T, U>(pub PhantomData<(T, U)>);

impl<T: TryInto<U>, U: DefaultValue> Conversion for TryConvertOrDefault<T, U> {
    type Input = T;

    type Output = U;

    open spec fn converts(val: T, out: U) -> bool {
        T::obeys_try_into_spec() ==> match val.try_into_spec() {
            Ok(u) => out == u,
            Err(_) => out.is_default(),
        }
    }

    fn convert(val: T) -> (r: U) {
        match val.try_into() {
            Ok(u) => u,
            Err(_) => U::default_value(),
        }
    }
}

/// Reads the target value from text; text that denotes none gives the
/// parser's error.
pub struct Parse<T>(pub PhantomData<T>);

impl<T: FromText> Conversion for Parse<T> {
    type Input = String;

    type Output = Result<T, T::Err>;

    open spec fn converts(val: String, out: Result<T, T::Err>) -> bool {
        match out {
            Ok(v) => T::text_value(val@) == Some(v),
            Err(_) => T::text_value(val@) is None,
        }
    }

    fn convert(val: String) -> (r: Result<T, T::Err>) {
        T::from_text(val.as_str())
    }
}

/// Reads the target value from text; text that denotes none gives the
/// default value, so this converter never fails.
pub struct ParseOrDefault<T>(pub PhantomData<T>);

impl<T: FromText + DefaultValue> Conversion for ParseOrDefault<T> {
    type Input = String;

    type Output = T;

    open spec fn converts(val: String, out: T) -> bool {
        match T::text_value(val@) {
            Some(v) => out == v,
            None => out.is_default(),
        }
    }

    fn convert(val: String) -> (r: T) {
        match T::from_text(val.as_str()) {
            Ok(v) => v,
            Err(_) => T::default_value(),
        }
    }
}

/// Makes a single value the one item of a collection of type `C`.
pub struct Collect<I, C>(pub PhantomData<(I, C)>);

impl<I, C: SingleCollection<I>> Conversion for Collect<I, C> {
    type Input = I;

    type Output = C;

    open spec fn converts(val: I, out: C) -> bool {
        C::holds_only(out, val)
    }

    fn convert(val: I) -> (r: C) {
        C::of_single(val)
    }
}

/// Makes a single value the one entry of a key-to-value collection of type
/// `C`, under the key type's default key.
pub struct CollectDefaultKey<K, V, C>(pub PhantomData<(K, V, C)>);

impl<K: DefaultValue, V, C: SingleCollection<(K, V)>> Conversion for CollectDefaultKey<K, V, C> {
    type Input = V;

    type Output = C;

    open spec fn converts(val: V, out: C) -> bool {
        exists|k: K| #[trigger] k.is_default() && C::holds_only(out, (k, val))
    }

    fn convert(val: V) -> (r: C) {
        let k = K::default_value();
        let r = C::of_single((k, val));
        assert(k.is_default() && C::holds_only(r, (k, val)));
        r
    }
}

/// Applies `F` to every element, keeping their order.
pub struct MapEach<F>(pub PhantomData<F>);

impl<F: Conversion> Conversion for MapEach<F> {
    type Input = Vec<F::Input>;

    type Output = Vec<F::Output>;

    open spec fn converts(val: Vec<F::Input>, out: Vec<F::Output>) -> bool {
        &&& out@.len() == val@.len()
        &&& forall|i: int| 0 <= i < val@.len() ==> F::converts(val@[i], #[trigger] out@[i])
    }

    fn convert(val: Vec<F::Input>) -> (r: Vec<F::Output>) {
        let ghost src = val@;
        let ghost n = val@.len();
        let mut rest = val;
        let mut rev: Vec<F::Output> = Vec::new();
        while rest.len() > 0
            invariant
                n == src.len(),
                rest@.len() + rev@.len() == n,
                rest@ == src.subrange(0, rest@.len() as int),
                forall|j: int| 0 <= j < rev@.len() ==> F::converts(src[n - 1 - j], #[trigger] rev@[j]),
            decreases rest@.len(),
        {
            match rest.pop() {
                Some(x) => {
                    let y = F::convert(x);
                    rev.push(y);
                },
                None => {},
            }
        }
        let mut out: Vec<F::Output> = Vec::new();
        while rev.len() > 0
            invariant
                n == src.len(),
                out@.len() + rev@.len() == n,
                forall|j: int| 0 <= j < rev@.len() ==> F::converts(src[n - 1 - j], #[trigger] rev@[j]),
                forall|i: int| 0 <= i < out@.len() ==> F::converts(src[i], #[trigger] out@[i]),
            decreases rev@.len(),
        {
            match rev.pop() {
                Some(y) => {
                    out.push(y);
                },
                None => {},
            }
        }
        out
    }
}

/// Writes the value as text.
pub struct ToString<T>(pub PhantomData<T>);

impl<T: ToText> Conversion for ToString<T> {
    type Input = T;

    type Output = String;

    open spec fn converts(val: T, out: String) -> bool {
        T::is_text_of(out@, val)
    }

    fn convert(val: T) -> (r: String) {
        val.to_text()
    }
}

} // verus!
