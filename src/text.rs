//! Decimal text of unsigned integers, and the traits through which the
//! converters reach defaults, parsing and rendering.
use vstd::prelude::*;

verus! {

pub open spec fn digit_value(c: char) -> int {
    (c as u32) as int - 48
}

pub open spec fn is_digit(c: char) -> bool {
    0 <= digit_value(c) && digit_value(c) <= 9
}

pub open spec fn all_digits(s: Seq<char>) -> bool {
    forall|i: int| 0 <= i < s.len() ==> is_digit(#[trigger] s[i])
}

/// The number that a string of decimal digits denotes, most significant first.
pub open spec fn digits_value(s: Seq<char>) -> int
    decreases s.len(),
{
    if s.len() == 0 {
        0
    } else {
        10 * digits_value(s.drop_last()) + digit_value(s.last())
    }
}

/// The value of an optional `+` followed by one or more decimal digits;
/// `None` for any other text.
pub open spec fn unsigned_text_value(s: Seq<char>) -> Option<int> {
    let d = if s.len() > 0 && s[0] == '+' {
        s.drop_first()
    } else {
        s
    };
    if d.len() > 0 && all_digits(d) {
        Some(digits_value(d))
    } else {
        None
    }
}

/// The shortest decimal text of `n`: digits only, no leading zero but in `0`.
pub open spec fn is_decimal_of(s: Seq<char>, n: int) -> bool {
    &&& s.len() > 0
    &&& all_digits(s)
    &&& (digit_value(s[0]) == 0 ==> s.len() == 1)
    &&& digits_value(s) == n
}

pub open spec fn u32_of_text(s: Seq<char>) -> Option<u32> {
    match unsigned_text_value(s) {
        Some(v) => if v <= u32::MAX {
            Some(v as u32)
        } else {
            None
        },
        None => None,
    }
}

pub open spec fn u64_of_text(s: Seq<char>) -> Option<u64> {
    match unsigned_text_value(s) {
        Some(v) => if v <= u64::MAX {
            Some(v as u64)
        } else {
            None
        },
        None => None,
    }
}

/// The value of an optional `+` or `-` followed by one or more decimal
/// digits; `None` for any other text.
pub open spec fn signed_text_value(s: Seq<char>) -> Option<int> {
    if s.len() > 0 && s[0] == '-' {
        let d = s.drop_first();
        if d.len() > 0 && all_digits(d) {
            Some(-digits_value(d))
        } else {
            None
        }
    } else {
        unsigned_text_value(s)
    }
}

/// The shortest decimal text of `n`, with a leading `-` where `n` is
/// negative.
pub open spec fn is_signed_decimal_of(s: Seq<char>, n: int) -> bool {
    if n < 0 {
        s.len() > 0 && s[0] == '-' && is_decimal_of(s.drop_first(), -n)
    } else {
        is_decimal_of(s, n)
    }
}

pub open spec fn i32_of_text(s: Seq<char>) -> Option<i32> {
    match signed_text_value(s) {
        Some(v) => if i32::MIN <= v <= i32::MAX {
            Some(v as i32)
        } else {
            None
        },
        None => None,
    }
}

pub open spec fn i64_of_text(s: Seq<char>) -> Option<i64> {
    match signed_text_value(s) {
        Some(v) => if i64::MIN <= v <= i64::MAX {
            Some(v as i64)
        } else {
            None
        },
        None => None,
    }
}

#[verifier::external_type_specification]
#[verifier::external_body]
pub struct ExParseIntError(core::num::ParseIntError);

/// Relies on `u32`'s `FromStr` (through `str::parse`): it accepts an optional
/// `+` followed by ASCII digits whose value fits, and refuses all else.
#[verifier::external_body]
fn parse_u32(s: &str) -> (r: Result<u32, core::num::ParseIntError>)
    ensures
        match r {
            Ok(v) => u32_of_text(s@) == Some(v),
            Err(_) => u32_of_text(s@) is None,
        },
{
    s.parse::<u32>()
}

/// Relies on `u64`'s `FromStr` (through `str::parse`): it accepts an optional
/// `+` followed by ASCII digits whose value fits, and refuses all else.
#[verifier::external_body]
fn parse_u64(s: &str) -> (r: Result<u64, core::num::ParseIntError>)
    ensures
        match r {
            Ok(v) => u64_of_text(s@) == Some(v),
            Err(_) => u64_of_text(s@) is None,
        },
{
    s.parse::<u64>()
}

/// Relies on `u32`'s `Display` (through `ToString::to_string`): the shortest
/// decimal text of the number.
#[verifier::external_body]
fn render_u32(n: u32) -> (r: String)
    ensures
        is_decimal_of(r@, n as int),
{
    n.to_string()
}

/// Relies on `u64`'s `Display` (through `ToString::to_string`): the shortest
/// decimal text of the number.
#[verifier::external_body]
fn render_u64(n: u64) -> (r: String)
    ensures
        is_decimal_of(r@, n as int),
{
    n.to_string()
}

/// Relies on `i32`'s `FromStr` (through `str::parse`): it accepts an optional
/// `+` or `-` followed by ASCII digits whose value fits, and refuses all else.
#[verifier::external_body]
fn parse_i32(s: &str) -> (r: Result<i32, core::num::ParseIntError>)
    ensures
        match r {
            Ok(v) => i32_of_text(s@) == Some(v),
            Err(_) => i32_of_text(s@) is None,
        },
{
    s.parse::<i32>()
}

/// Relies on `i64`'s `FromStr` (through `str::parse`): it accepts an optional
/// `+` or `-` followed by ASCII digits whose value fits, and refuses all else.
#[verifier::external_body]
fn parse_i64(s: &str) -> (r: Result<i64, core::num::ParseIntError>)
    ensures
        match r {
            Ok(v) => i64_of_text(s@) == Some(v),
            Err(_) => i64_of_text(s@) is None,
        },
{
    s.parse::<i64>()
}

/// Relies on `i32`'s `Display` (through `ToString::to_string`): the shortest
/// decimal text of the number, with `-` before a negative one.
#[verifier::external_body]
fn render_i32(n: i32) -> (r: String)
    ensures
        is_signed_decimal_of(r@, n as int),
{
    n.to_string()
}

/// Relies on `i64`'s `Display` (through `ToString::to_string`): the shortest
/// decimal text of the number, with `-` before a negative one.
#[verifier::external_body]
fn render_i64(n: i64) -> (r: String)
    ensures
        is_signed_decimal_of(r@, n as int),
{
    n.to_string()
}

/// Types with a designated default value.
pub trait DefaultValue: Sized {
    spec fn is_default(&self) -> bool;

    fn default_value() -> (r: Self)
        ensures
            r.is_default(),
    ;
}

/// Types that can be read from text.
pub trait FromText: Sized {
    type Err;

    /// The value that `s` denotes, if it denotes one.
    spec fn text_value(s: Seq<char>) -> Option<Self>;

    fn from_text(s: &str) -> (r: Result<Self, Self::Err>)
        ensures
            match r {
                Ok(v) => Self::text_value(s@) == Some(v),
                Err(_) => Self::text_value(s@) is None,
            },
    ;
}

/// Types that can be written as text.
pub trait ToText: Sized {
    spec fn is_text_of(s: Seq<char>, v: Self) -> bool;

    fn to_text(&self) -> (r: String)
        ensures
            Self::is_text_of(r@, *self),
    ;

    /// A value has one text.
    proof fn lemma_text_unique(s: Seq<char>, t: Seq<char>, v: Self)
        requires
            Self::is_text_of(s, v),
            Self::is_text_of(t, v),
        ensures
            s == t,
    ;
}

impl DefaultValue for u32 {
    open spec fn is_default(&self) -> bool {
        *self == 0
    }

    fn default_value() -> (r: u32) {
        0
    }
}

impl DefaultValue for u64 {
    open spec fn is_default(&self) -> bool {
        *self == 0
    }

    fn default_value() -> (r: u64) {
        0
    }
}

impl DefaultValue for i32 {
    open spec fn is_default(&self) -> bool {
        *self == 0
    }

    fn default_value() -> (r: i32) {
        0
    }
}

impl DefaultValue for i64 {
    open spec fn is_default(&self) -> bool {
        *self == 0
    }

    fn default_value() -> (r: i64) {
        0
    }
}

impl DefaultValue for u8 {
    open spec fn is_default(&self) -> bool {
        *self == 0
    }

    fn default_value() -> (r: u8) {
        0
    }
}

impl DefaultValue for u16 {
    open spec fn is_default(&self) -> bool {
        *self == 0
    }

    fn default_value() -> (r: u16) {
        0
    }
}

impl DefaultValue for u128 {
    open spec fn is_default(&self) -> bool {
        *self == 0
    }

    fn default_value() -> (r: u128) {
        0
    }
}

impl DefaultValue for usize {
    open spec fn is_default(&self) -> bool {
        *self == 0
    }

    fn default_value() -> (r: usize) {
        0
    }
}

impl DefaultValue for i8 {
    open spec fn is_default(&self) -> bool {
        *self == 0
    }

    fn default_value() -> (r: i8) {
        0
    }
}

impl DefaultValue for i16 {
    open spec fn is_default(&self) -> bool {
        *self == 0
    }

    fn default_value() -> (r: i16) {
        0
    }
}

impl DefaultValue for i128 {
    open spec fn is_default(&self) -> bool {
        *self == 0
    }

    fn default_value() -> (r: i128) {
        0
    }
}

impl DefaultValue for isize {
    open spec fn is_default(&self) -> bool {
        *self == 0
    }

    fn default_value() -> (r: isize) {
        0
    }
}

impl DefaultValue for bool {
    open spec fn is_default(&self) -> bool {
        !*self
    }

    fn default_value() -> (r: bool) {
        false
    }
}

impl DefaultValue for String {
    open spec fn is_default(&self) -> bool {
        self@.len() == 0
    }

    fn default_value() -> (r: String) {
        String::new()
    }
}

impl FromText for u32 {
    type Err = core::num::ParseIntError;

    open spec fn text_value(s: Seq<char>) -> Option<u32> {
        u32_of_text(s)
    }

    fn from_text(s: &str) -> (r: Result<u32, core::num::ParseIntError>) {
        parse_u32(s)
    }
}

impl FromText for u64 {
    type Err = core::num::ParseIntError;

    open spec fn text_value(s: Seq<char>) -> Option<u64> {
        u64_of_text(s)
    }

    fn from_text(s: &str) -> (r: Result<u64, core::num::ParseIntError>) {
        parse_u64(s)
    }
}

impl ToText for u32 {
    open spec fn is_text_of(s: Seq<char>, v: u32) -> bool {
        is_decimal_of(s, v as int)
    }

    fn to_text(&self) -> (r: String) {
        render_u32(*self)
    }

    proof fn lemma_text_unique(s: Seq<char>, t: Seq<char>, v: u32) {
        lemma_decimal_unique(s, t, v as int);
    }
}

impl ToText for u64 {
    open spec fn is_text_of(s: Seq<char>, v: u64) -> bool {
        is_decimal_of(s, v as int)
    }

    fn to_text(&self) -> (r: String) {
        render_u64(*self)
    }

    proof fn lemma_text_unique(s: Seq<char>, t: Seq<char>, v: u64) {
        lemma_decimal_unique(s, t, v as int);
    }
}

impl FromText for i32 {
    type Err = core::num::ParseIntError;

    open spec fn text_value(s: Seq<char>) -> Option<i32> {
        i32_of_text(s)
    }

    fn from_text(s: &str) -> (r: Result<i32, core::num::ParseIntError>) {
        parse_i32(s)
    }
}

impl ToText for i32 {
    open spec fn is_text_of(s: Seq<char>, v: i32) -> bool {
        is_signed_decimal_of(s, v as int)
    }

    fn to_text(&self) -> (r: String) {
        render_i32(*self)
    }

    proof fn lemma_text_unique(s: Seq<char>, t: Seq<char>, v: i32) {
        lemma_signed_decimal_unique(s, t, v as int);
    }
}

impl FromText for i64 {
    type Err = core::num::ParseIntError;

    open spec fn text_value(s: Seq<char>) -> Option<i64> {
        i64_of_text(s)
    }

    fn from_text(s: &str) -> (r: Result<i64, core::num::ParseIntError>) {
        parse_i64(s)
    }
}

impl ToText for i64 {
    open spec fn is_text_of(s: Seq<char>, v: i64) -> bool {
        is_signed_decimal_of(s, v as int)
    }

    fn to_text(&self) -> (r: String) {
        render_i64(*self)
    }

    proof fn lemma_text_unique(s: Seq<char>, t: Seq<char>, v: i64) {
        lemma_signed_decimal_unique(s, t, v as int);
    }
}

proof fn lemma_digits_value_nonneg(s: Seq<char>)
    requires
        all_digits(s),
    ensures
        digits_value(s) >= 0,
    decreases s.len(),
{
    if s.len() > 0 {
        lemma_digits_value_nonneg(s.drop_last());
    }
}

proof fn lemma_leading_digit_positive(s: Seq<char>)
    requires
        all_digits(s),
        s.len() > 0,
        digit_value(s[0]) != 0,
    ensures
        digits_value(s) >= 1,
        s.len() > 1 ==> digits_value(s) >= 10,
    decreases s.len(),
{
    if s.len() > 1 {
        assert(s.drop_last()[0] == s[0]);
        lemma_leading_digit_positive(s.drop_last());
        assert(is_digit(s.last()));
    } else {
        assert(is_digit(s[0]));
        assert(digits_value(s.drop_last()) == 0);
        assert(s.last() == s[0]);
    }
}

/// A number has one shortest decimal text.
pub proof fn lemma_decimal_unique(s: Seq<char>, t: Seq<char>, n: int)
    requires
        is_decimal_of(s, n),
        is_decimal_of(t, n),
    ensures
        s == t,
    decreases s.len(),
{
    assert(is_digit(s.last()) && is_digit(t.last()));
    if s.len() > 1 {
        lemma_leading_digit_positive(s);
    }
    if t.len() > 1 {
        lemma_leading_digit_positive(t);
    }
    if s.len() == 1 && t.len() == 1 {
        assert(digits_value(s.drop_last()) == 0 && digits_value(t.drop_last()) == 0);
        vstd::utf8::char_u32_cast(s.last(), s.last() as u32);
        vstd::utf8::char_u32_cast(t.last(), t.last() as u32);
        assert(s =~= seq![s.last()]);
        assert(t =~= seq![t.last()]);
    } else if s.len() > 1 && t.len() > 1 {
        let (sp, tp) = (s.drop_last(), t.drop_last());
        lemma_digits_value_nonneg(sp);
        lemma_digits_value_nonneg(tp);
        assert(digits_value(sp) == n / 10 && digit_value(s.last()) == n % 10);
        assert(digits_value(tp) == n / 10 && digit_value(t.last()) == n % 10);
        assert(sp[0] == s[0] && tp[0] == t[0]);
        assert(is_decimal_of(sp, n / 10));
        assert(is_decimal_of(tp, n / 10));
        lemma_decimal_unique(sp, tp, n / 10);
        vstd::utf8::char_u32_cast(s.last(), s.last() as u32);
        vstd::utf8::char_u32_cast(t.last(), t.last() as u32);
        assert(s =~= sp.push(s.last()));
        assert(t =~= tp.push(t.last()));
    } else {
        assert(digits_value(s.drop_last()) == 0 || digits_value(t.drop_last()) == 0);
    }
}

/// A number has one shortest signed decimal text.
pub proof fn lemma_signed_decimal_unique(s: Seq<char>, t: Seq<char>, n: int)
    requires
        is_signed_decimal_of(s, n),
        is_signed_decimal_of(t, n),
    ensures
        s == t,
{
    if n < 0 {
        lemma_decimal_unique(s.drop_first(), t.drop_first(), -n);
        assert(s =~= seq![s[0]] + s.drop_first());
        assert(t =~= seq![t[0]] + t.drop_first());
    } else {
        lemma_decimal_unique(s, t, n);
    }
}

} // verus!
