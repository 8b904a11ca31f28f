//! Wide strings: `HSTRING` values and the raw, NUL-terminated buffers that
//! the foreign side hands over.

use vstd::prelude::*;
use windows_core::HSTRING;

verus! {

#[verifier::external_type_specification]
#[verifier::external_body]
pub struct ExHstring(windows_core::HSTRING);

/// The UTF-16 code units that an `HSTRING` holds.
pub uninterp spec fn hstring_units(h: HSTRING) -> Seq<u16>;

/// The UTF-16 code units of one character: the character itself below
/// 0x10000, else its two surrogates.
pub open spec fn char_units(c: char) -> Seq<u16> {
    let v = c as u32;
    if v < 0x10000 {
        seq![v as u16]
    } else {
        seq![(0xD800 + (v - 0x10000) / 0x400) as u16, (0xDC00 + (v - 0x10000) % 0x400) as u16]
    }
}

/// The UTF-16 encoding of a text.
pub open spec fn utf16_units(text: Seq<char>) -> Seq<u16>
    decreases text.len(),
{
    if text.len() == 0 {
        Seq::empty()
    } else {
        char_units(text[0]) + utf16_units(text.drop_first())
    }
}

/// The encoding has one or two code units for each character.
pub proof fn lemma_utf16_units_len(text: Seq<char>)
    ensures
        text.len() <= utf16_units(text).len() <= 2 * text.len(),
    decreases text.len(),
{
    if text.len() > 0 {
        lemma_utf16_units_len(text.drop_first());
    }
}

/// The text that a lossy decoding of UTF-16 code units gives.
pub uninterp spec fn utf16_lossy_text(units: Seq<u16>) -> Seq<char>;

/// `HSTRING::new` gives a string without code units.
pub assume_specification[ HSTRING::new ]() -> (h: HSTRING)
    ensures
        hstring_units(h) == Seq::<u16>::empty(),
;

/// `HSTRING::from_wide` copies the given code units. It panics on more
/// units than a `u32` counts.
pub assume_specification[ HSTRING::from_wide ](value: &[u16]) -> (h: HSTRING)
    requires
        value@.len() <= u32::MAX,
    ensures
        hstring_units(h) == value@,
;

/// `HSTRING`'s `Deref` lends the code units that the string holds; their
/// number is kept as a `u32`.
#[verifier::external_body]
pub(crate) fn hstring_as_wide(h: &HSTRING) -> (units: &[u16])
    ensures
        units@ == hstring_units(*h),
        units@.len() <= u32::MAX,
{
    h
}

/// `HSTRING`'s `From<&str>` holds the UTF-16 encoding of the text. It panics
/// on a text of more bytes than a `u32` counts; a character has at most four.
#[verifier::external_body]
pub(crate) fn hstring_from_str(text: &str) -> (h: HSTRING)
    requires
        4 * text@.len() <= u32::MAX,
    ensures
        hstring_units(h) == utf16_units(text@),
{
    HSTRING::from(text)
}

/// `HSTRING::to_string_lossy` decodes the code units, with the replacement
/// character in place of what is no UTF-16: each character of the text
/// stands for one or two code units.
#[verifier::external_body]
pub(crate) fn hstring_to_string_lossy(h: &HSTRING) -> (text: String)
    ensures
        text@ == utf16_lossy_text(hstring_units(*h)),
        text@.len() <= hstring_units(*h).len(),
{
    h.to_string_lossy()
}

/// The number of code units before the first NUL, or the length of `buffer`
/// where it holds none.
pub open spec fn terminated_len(buffer: Seq<u16>) -> nat
    decreases buffer.len(),
{
    if buffer.len() == 0 || buffer[0] == 0 {
        0
    } else {
        1 + terminated_len(buffer.drop_first())
    }
}

/// The code units that a raw wide string stands for: none for a null
/// pointer, else those before the terminating NUL.
pub open spec fn raw_units(raw: Option<Seq<u16>>) -> Seq<u16> {
    match raw {
        None => Seq::empty(),
        Some(buffer) => buffer.take(terminated_len(buffer) as int),
    }
}

/// If `buffer` holds no NUL before `n`, and holds one at `n` or ends there,
/// then `n` is its terminated length.
pub proof fn lemma_terminated_len_is(buffer: Seq<u16>, n: nat)
    requires
        n <= buffer.len(),
        forall|i: int| 0 <= i < n ==> buffer[i] != 0,
        n < buffer.len() ==> buffer[n as int] == 0,
    ensures
        terminated_len(buffer) == n,
    decreases n,
{
    if n == 0 {
    } else {
        let rest = buffer.drop_first();
        assert(buffer[0] != 0);
        assert forall|i: int| 0 <= i < n - 1 implies rest[i] != 0 by {
            assert(rest[i] == buffer[i + 1]);
        }
        if n < buffer.len() {
            assert(rest[n - 1] == buffer[n as int]);
        }
        lemma_terminated_len_is(rest, (n - 1) as nat);
    }
}

/// The number of code units in `buffer` before the first NUL.
pub fn wide_len(buffer: &[u16]) -> (n: usize)
    ensures
        n == terminated_len(buffer@),
        n <= buffer@.len(),
{
    let mut n: usize = 0;
    while n < buffer.len() && buffer[n] != 0
        invariant
            n <= buffer@.len(),
            forall|i: int| 0 <= i < n ==> buffer@[i] != 0,
        decreases buffer@.len() - n,
    {
        n += 1;
    }
    proof {
        lemma_terminated_len_is(buffer@, n as nat);
    }
    n
}

/// Copies a raw wide string into an `HSTRING`. A null pointer gives the
/// empty string.
pub fn safe_pwstr_to_hstring(raw: Option<&[u16]>) -> (h: HSTRING)
    requires
        raw matches Some(buffer) ==> buffer@.len() <= u32::MAX,
    ensures
        hstring_units(h) == raw_units(
            match raw {
                Some(buffer) => Some(buffer@),
                None => None,
            },
        ),
{
    match raw {
        None => HSTRING::new(),
        Some(buffer) => {
            let n = wide_len(buffer);
            let units = vstd::slice::slice_subrange(buffer, 0, n);
            assert(units@ == buffer@.take(n as int));
            HSTRING::from_wide(units)
        },
    }
}

/// The raw wide string of an optional `HSTRING`: a null pointer for `None`.
/// The units are lent by the `HSTRING`, which has to outlive them.
pub fn get_pcwstr_from_opt(opt: &Option<HSTRING>) -> (raw: Option<&[u16]>)
    ensures
        match *opt {
            Some(h) => raw matches Some(units) && units@ == hstring_units(h),
            None => raw is None,
        },
{
    match opt {
        Some(h) => Some(hstring_as_wide(h)),
        None => None,
    }
}

/// String result that is handed to the foreign runtime.
#[derive(Debug)]
pub struct StringResult {
    data: HSTRING,
}

impl StringResult {
    /// The code units of the result.
    pub closed spec fn units(&self) -> Seq<u16> {
        hstring_units(self.data)
    }

    /// A result that holds `data`.
    pub fn new(data: HSTRING) -> (result: StringResult)
        ensures
            result.units() == hstring_units(data),
    {
        StringResult { data }
    }

    /// The code units of the result, without a terminator.
    pub fn get_string(&self) -> (units: &[u16])
        ensures
            units@ == self.units(),
            units@.len() <= u32::MAX,
    {
        hstring_as_wide(&self.data)
    }
}

/// Conversions between `HSTRING`, raw wide strings and string results.
pub struct HSTRINGWrap {
    h: HSTRING,
}

impl HSTRINGWrap {
    /// The code units of the wrapped string.
    pub closed spec fn units(&self) -> Seq<u16> {
        hstring_units(self.h)
    }

    /// Wraps an `HSTRING`.
    pub fn from_hstring(value: HSTRING) -> (wrap: Self)
        ensures
            wrap.units() == hstring_units(value),
    {
        HSTRINGWrap { h: value }
    }

    /// Copies a raw wide string; a null pointer gives the empty string.
    pub fn from_raw(value: Option<&[u16]>) -> (wrap: Self)
        requires
            value matches Some(buffer) ==> buffer@.len() <= u32::MAX,
        ensures
            wrap.units() == raw_units(
                match value {
                    Some(buffer) => Some(buffer@),
                    None => None,
                },
            ),
    {
        HSTRINGWrap { h: safe_pwstr_to_hstring(value) }
    }

    /// Copies what a string result holds, up to its first NUL.
    pub fn from_string_result(value: &StringResult) -> (wrap: Self)
        ensures
            wrap.units() == raw_units(Some(value.units())),
    {
        HSTRINGWrap { h: safe_pwstr_to_hstring(Some(value.get_string())) }
    }

    /// The wrapped `HSTRING`.
    pub fn into_hstring(self) -> (h: HSTRING)
        ensures
            hstring_units(h) == self.units(),
    {
        self.h
    }

    /// A string result that holds the wrapped string.
    pub fn into_string_result(self) -> (result: StringResult)
        ensures
            result.units() == self.units(),
    {
        StringResult::new(self.h)
    }
}

impl From<HSTRING> for HSTRINGWrap {
    /// Wraps an `HSTRING`.
    fn from(value: HSTRING) -> (wrap: Self)
        ensures
            wrap.units() == hstring_units(value),
    {
        HSTRINGWrap::from_hstring(value)
    }
}

impl vstd::std_specs::convert::FromSpecImpl<HSTRING> for HSTRINGWrap {
    open spec fn obeys_from_spec() -> bool {
        false
    }

    open spec fn from_spec(value: HSTRING) -> Self {
        arbitrary()
    }
}

impl<'a> From<&'a StringResult> for HSTRINGWrap {
    /// Copies what a string result holds, up to its first NUL.
    fn from(value: &'a StringResult) -> (wrap: Self)
        ensures
            wrap.units() == raw_units(Some(value.units())),
    {
        HSTRINGWrap::from_string_result(value)
    }
}

impl<'a> vstd::std_specs::convert::FromSpecImpl<&'a StringResult> for HSTRINGWrap {
    open spec fn obeys_from_spec() -> bool {
        false
    }

    open spec fn from_spec(value: &'a StringResult) -> Self {
        arbitrary()
    }
}

impl From<HSTRINGWrap> for HSTRING {
    /// The wrapped `HSTRING`.
    fn from(val: HSTRINGWrap) -> (h: Self)
        ensures
            hstring_units(h) == val.units(),
    {
        val.into_hstring()
    }
}

impl vstd::std_specs::convert::FromSpecImpl<HSTRINGWrap> for HSTRING {
    open spec fn obeys_from_spec() -> bool {
        false
    }

    open spec fn from_spec(val: HSTRINGWrap) -> Self {
        arbitrary()
    }
}

impl From<HSTRINGWrap> for StringResult {
    /// A string result that holds the wrapped string.
    fn from(value: HSTRINGWrap) -> (result: Self)
        ensures
            result.units() == value.units(),
    {
        value.into_string_result()
    }
}

impl vstd::std_specs::convert::FromSpecImpl<HSTRINGWrap> for StringResult {
    open spec fn obeys_from_spec() -> bool {
        false
    }

    open spec fn from_spec(value: HSTRINGWrap) -> Self {
        arbitrary()
    }
}

} // verus!
