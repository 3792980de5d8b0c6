//! Field-level fallback decoding: converters that turn a value of a field's
//! old shape into its new shape, a two-way union that resolves which shape a
//! field arrived in, and a transparent holder that keeps only the normalized
//! value.
use vstd::prelude::*;

pub mod collection;
pub mod conversion;
pub mod text;
pub mod old_or_new;
pub mod legacy;
pub mod laws;

pub use conversion::{
    Collect, CollectDefaultKey, Compose, Conversion, Convert, Identity, MapEach, Parse, ParseOrDefault,
    ToString, TryConvert, TryConvertOrDefault,
};
pub use text::{DefaultValue, FromText, ToText};
pub use old_or_new::{decode_field, normalize, OldOrNew, Precedence};
pub use legacy::Legacy;
pub use collection::SingleCollection;
