//! Fixed-capacity names of eight bytes, as used for textures and flats.

use std::str::Utf8Error;
use vstd::prelude::*;
use vstd::std_specs::convert::TryFromSpecImpl;
use vstd::slice::slice_subrange;
use vstd::string::StringSliceAdditionalSpecFns;
use vstd::utf8::valid_utf8;

verus! {

/// Why a byte string cannot become a [`String8`].
#[derive(Clone, Copy, Debug, PartialEq, Eq, Structural)]
pub enum IntoString8Error {
    /// A NUL byte stands before a byte that is not NUL. `position` counts back from the
    /// last byte that is not NUL to the nearest NUL before it.
    InteriorNul { position: usize },
    /// The byte string is longer than eight bytes.
    TooLong { length: usize },
}

/// A name of at most eight bytes, padded with NUL bytes.
#[derive(Clone, Copy, Debug, PartialEq, Eq, PartialOrd, Ord, Hash)]
pub struct String8([u8; 8]);

/// `bytes` followed by as many NUL bytes as it takes to fill eight places.
pub open spec fn padded(bytes: Seq<u8>) -> Seq<u8>
    recommends
        bytes.len() <= 8,
{
    Seq::new(
        8,
        |i: int|
            if i < bytes.len() {
                bytes[i]
            } else {
                0u8
            },
    )
}

/// The length of the longest prefix of `bytes` that holds no NUL byte.
pub open spec fn content_len(bytes: Seq<u8>) -> nat
    decreases bytes.len(),
{
    if bytes.len() == 0 || bytes[0] == 0 {
        0
    } else {
        1 + content_len(bytes.drop_first())
    }
}

/// The length of `bytes` once the NUL bytes at its end are taken off.
pub open spec fn trimmed_len(bytes: Seq<u8>) -> nat
    decreases bytes.len(),
{
    if bytes.len() == 0 || bytes.last() != 0 {
        bytes.len()
    } else {
        trimmed_len(bytes.drop_last())
    }
}

/// Whether a NUL byte of `bytes` is followed by a byte that is not NUL.
pub open spec fn has_interior_nul(bytes: Seq<u8>) -> bool {
    exists|i: int| 0 <= i < trimmed_len(bytes) && bytes[i] == 0
}

/// The index of the last NUL byte among the first `n` bytes, or -1 where none of them is NUL.
pub open spec fn last_nul_before(bytes: Seq<u8>, n: int) -> int
    decreases n,
{
    if n <= 0 {
        -1
    } else if bytes[n - 1] == 0 {
        n - 1
    } else {
        last_nul_before(bytes, n - 1)
    }
}

/// The position that [`IntoString8Error::InteriorNul`] reports for `bytes`.
pub open spec fn interior_nul_position(bytes: Seq<u8>) -> int {
    trimmed_len(bytes) - 1 - last_nul_before(bytes, trimmed_len(bytes) as int)
}

/// Behind the trimmed length stand only NUL bytes, and before it stands a byte that is not
/// NUL.
pub proof fn lemma_trimmed_len(bytes: Seq<u8>)
    ensures
        trimmed_len(bytes) <= bytes.len(),
        trimmed_len(bytes) > 0 ==> bytes[trimmed_len(bytes) - 1] != 0,
        forall|i: int| trimmed_len(bytes) <= i < bytes.len() ==> bytes[i] == 0,
    decreases bytes.len(),
{
    if bytes.len() != 0 && bytes.last() == 0 {
        lemma_trimmed_len(bytes.drop_last());
        assert forall|i: int| trimmed_len(bytes) <= i < bytes.len() implies bytes[i] == 0 by {
            if i < bytes.len() - 1 {
                assert(bytes[i] == bytes.drop_last()[i]);
            }
        }
    }
}

/// The content holds no NUL byte, and a NUL byte follows it unless it is all there is.
pub proof fn lemma_content_len(bytes: Seq<u8>)
    ensures
        content_len(bytes) <= bytes.len(),
        content_len(bytes) < bytes.len() ==> bytes[content_len(bytes) as int] == 0,
        forall|i: int| 0 <= i < content_len(bytes) ==> bytes[i] != 0,
    decreases bytes.len(),
{
    if bytes.len() != 0 && bytes[0] != 0 {
        lemma_content_len(bytes.drop_first());
        assert forall|i: int| 0 <= i < content_len(bytes) implies bytes[i] != 0 by {
            if i > 0 {
                assert(bytes[i] == bytes.drop_first()[i - 1]);
            }
        }
    }
}

/// Between the last NUL byte before a place and that place stands no NUL byte.
pub proof fn lemma_last_nul_before(bytes: Seq<u8>, n: int)
    requires
        0 <= n <= bytes.len(),
    ensures
        -1 <= last_nul_before(bytes, n) < n,
        last_nul_before(bytes, n) >= 0 ==> bytes[last_nul_before(bytes, n)] == 0,
        forall|i: int| last_nul_before(bytes, n) < i < n ==> bytes[i] != 0,
    decreases n,
{
    if n > 0 && bytes[n - 1] != 0 {
        lemma_last_nul_before(bytes, n - 1);
    }
}

/// `core::str::from_utf8`: the bytes as text where they are UTF-8, and an error where
/// they are not. The text is made of exactly the bytes that were given.
pub assume_specification<'a>[ core::str::from_utf8 ](v: &'a [u8]) -> (r: Result<&'a str, Utf8Error>)
    ensures
        r is Ok <==> valid_utf8(v@),
        r matches Ok(s) ==> s.spec_bytes() == v@,
;

/// The error of `core::str::from_utf8`. Nothing is said of what it holds.
#[verifier::external_type_specification]
#[verifier::external_body]
pub struct ExUtf8Error(Utf8Error);

impl String8 {
    /// The eight bytes, padding included.
    pub closed spec fn bytes(self) -> Seq<u8> {
        self.0@
    }

    /// The bytes before the first NUL byte: the name itself.
    pub open spec fn content(self) -> Seq<u8> {
        self.bytes().subrange(0, content_len(self.bytes()) as int)
    }

    /// Whether only padding follows the first NUL byte.
    pub open spec fn well_formed(self) -> bool {
        !has_interior_nul(self.bytes())
    }

    /// Whether [`String8::from_bytes`] accepts `bytes`.
    pub open spec fn accepts(bytes: Seq<u8>) -> bool {
        bytes.len() <= 8 && !has_interior_nul(bytes)
    }

    /// The error that [`String8::from_bytes`] gives for `bytes`, if any.
    pub open spec fn rejection(bytes: Seq<u8>) -> Option<IntoString8Error> {
        if bytes.len() > 8 {
            Some(IntoString8Error::TooLong { length: bytes.len() as usize })
        } else if has_interior_nul(bytes) {
            Some(IntoString8Error::InteriorNul { position: interior_nul_position(bytes) as usize })
        } else {
            None
        }
    }

    /// The name whose bytes are `bytes` and then padding.
    pub open spec fn of_bytes(bytes: Seq<u8>) -> String8 {
        choose|name: String8| name.bytes() == padded(bytes)
    }

    /// A name is known by its eight bytes.
    pub proof fn lemma_same_bytes(self, other: String8)
        requires
            self.bytes() == other.bytes(),
        ensures
            self == other,
    {
        broadcast use vstd::array::group_array_axioms;

        assert(self.0 =~= other.0);
    }

    /// The name made of `bytes` is [`String8::of_bytes`] of them.
    pub proof fn lemma_of_bytes(self, bytes: Seq<u8>)
        requires
            self.bytes() == padded(bytes),
        ensures
            self == String8::of_bytes(bytes),
    {
        String8::of_bytes(bytes).lemma_same_bytes(self);
    }

    /// A name has eight bytes.
    pub proof fn lemma_bytes_len(self)
        ensures
            self.bytes().len() == 8,
    {
        broadcast use vstd::array::group_array_axioms;

    }

    /// A name made of exactly these eight bytes; nothing is checked.
    pub fn from_raw_parts(bytes: [u8; 8]) -> (s: Self)
        ensures
            s.bytes() == bytes@,
    {
        Self(bytes)
    }

    /// The eight bytes, padding included.
    pub fn as_raw_parts(&self) -> (bytes: [u8; 8])
        ensures
            bytes@ == self.bytes(),
    {
        self.0
    }

    /// The name spelled by the bytes of `s`, where they are at most eight and no NUL byte
    /// stands before another byte.
    pub fn new(s: &str) -> (r: Result<Self, IntoString8Error>)
        ensures
            Self::accepts(s.spec_bytes()) <==> r is Ok,
            r matches Ok(name) ==> name.bytes() == padded(s.spec_bytes()) && name.well_formed(),
            r matches Err(e) ==> Self::rejection(s.spec_bytes()) == Some(e),
    {
        Self::from_bytes(s.as_bytes())
    }

    /// Same as [`String8::new`].
    pub fn from_str(s: &str) -> (r: Result<Self, IntoString8Error>)
        ensures
            Self::accepts(s.spec_bytes()) <==> r is Ok,
            r matches Ok(name) ==> name.bytes() == padded(s.spec_bytes()) && name.well_formed(),
            r matches Err(e) ==> Self::rejection(s.spec_bytes()) == Some(e),
    {
        Self::from_bytes(s.as_bytes())
    }

    /// The name spelled by `bytes`, where they are at most eight and no NUL byte stands
    /// before another byte.
    pub fn from_bytes(bytes: &[u8]) -> (r: Result<Self, IntoString8Error>)
        ensures
            Self::accepts(bytes@) <==> r is Ok,
            r matches Ok(name) ==> name.bytes() == padded(bytes@) && name.well_formed(),
            r matches Err(e) ==> Self::rejection(bytes@) == Some(e),
    {
        if bytes.len() > 8 {
            return Err(IntoString8Error::TooLong { length: bytes.len() });
        }
        // Walk back over the padding, then look for a NUL byte before it.
        let mut end: usize = bytes.len();
        assert(bytes@.subrange(0, end as int) == bytes@);
        while end > 0 && bytes[end - 1] == 0
            invariant
                end <= bytes.len(),
                trimmed_len(bytes@) == trimmed_len(bytes@.subrange(0, end as int)),
            decreases end,
        {
            assert(bytes@.subrange(0, end as int).drop_last() == bytes@.subrange(
                0,
                end as int - 1,
            ));
            end -= 1;
        }
        proof {
            lemma_trimmed_len(bytes@.subrange(0, end as int));
            lemma_trimmed_len(bytes@);
            lemma_last_nul_before(bytes@, end as int);
        }
        let mut at: usize = end;
        while at > 0 && bytes[at - 1] != 0
            invariant
                at <= end <= bytes.len(),
                end == trimmed_len(bytes@),
                last_nul_before(bytes@, end as int) == last_nul_before(bytes@, at as int),
                forall|i: int| at <= i < end ==> bytes@[i] != 0,
            decreases at,
        {
            at -= 1;
        }
        if at > 0 {
            assert(bytes@[at - 1] == 0);
            Err(IntoString8Error::InteriorNul { position: end - at })
        } else {
            let name = Self::from_bytes_unchecked(bytes);
            proof {
                lemma_padded_interior(bytes@);
            }
            Ok(name)
        }
    }

    /// The name spelled by the bytes of `s`, which are at most eight; nothing else is checked.
    pub fn new_unchecked(s: &str) -> (name: Self)
        requires
            s.spec_bytes().len() <= 8,
        ensures
            name.bytes() == padded(s.spec_bytes()),
    {
        Self::from_bytes_unchecked(s.as_bytes())
    }

    /// Same as [`String8::new_unchecked`].
    pub fn from_str_unchecked(s: &str) -> (name: Self)
        requires
            s.spec_bytes().len() <= 8,
        ensures
            name.bytes() == padded(s.spec_bytes()),
    {
        Self::from_bytes_unchecked(s.as_bytes())
    }

    /// The name spelled by `bytes`, which are at most eight; nothing else is checked.
    pub fn from_bytes_unchecked(bytes: &[u8]) -> (name: Self)
        requires
            bytes@.len() <= 8,
        ensures
            name.bytes() == padded(bytes@),
    {
        let mut arr: [u8; 8] = [0, 0, 0, 0, 0, 0, 0, 0];
        let mut i: usize = 0;
        while i < bytes.len()
            invariant
                i <= bytes.len() <= 8,
                arr@.len() == 8,
                forall|j: int| 0 <= j < i ==> arr@[j] == bytes@[j],
                forall|j: int| i <= j < 8 ==> arr@[j] == 0,
            decreases bytes.len() - i,
        {
            arr[i] = bytes[i];
            i += 1;
        }
        assert(arr@ =~= padded(bytes@));
        Self(arr)
    }

    /// The name as text: the bytes before the first NUL byte, where they are UTF-8.
    pub fn try_as_str(&self) -> (r: Result<&str, Utf8Error>)
        ensures
            r is Ok <==> valid_utf8(self.content()),
            r matches Ok(s) ==> s.spec_bytes() == self.content(),
    {
        let bytes = self.0.as_slice();
        let mut p: usize = 0;
        proof {
            self.lemma_bytes_len();
            lemma_content_len(self.bytes());
        }
        assert(bytes@.subrange(0, 8) == bytes@);
        while p < 8 && bytes[p] != 0
            invariant
                p <= 8,
                bytes@ == self.bytes(),
                bytes@.len() == 8,
                content_len(bytes@) == p + content_len(bytes@.subrange(p as int, 8)),
            decreases 8 - p,
        {
            assert(bytes@.subrange(p as int, 8).drop_first() == bytes@.subrange(p as int + 1, 8));
            p += 1;
        }
        core::str::from_utf8(slice_subrange(bytes, 0, p))
    }
}

/// A byte string that [`String8::from_bytes`] accepts is well formed once padded.
pub proof fn lemma_padded_interior(bytes: Seq<u8>)
    requires
        bytes.len() <= 8,
    ensures
        trimmed_len(padded(bytes)) == trimmed_len(bytes),
        has_interior_nul(padded(bytes)) == has_interior_nul(bytes),
{
    lemma_trimmed_len(bytes);
    lemma_trimmed_len(padded(bytes));
    let t = trimmed_len(bytes);
    let u = trimmed_len(padded(bytes));
    if u > t {
        assert(padded(bytes)[u - 1] != 0);
    }
    if t > u {
        assert(bytes[t - 1] != 0);
        assert(padded(bytes)[t - 1] == 0);
    }
    if has_interior_nul(bytes) {
        let i = choose|i: int| 0 <= i < trimmed_len(bytes) && bytes[i] == 0;
        assert(padded(bytes)[i] == 0);
    }
    if has_interior_nul(padded(bytes)) {
        let i = choose|i: int| 0 <= i < trimmed_len(padded(bytes)) && padded(bytes)[i] == 0;
        assert(bytes[i] == 0);
    }
}

/// Every byte string of at most eight bytes in which no NUL byte stands before another byte
/// is accepted, and the name made of it reads back as that byte string without the NUL
/// bytes at its end: as the byte string itself where it does not end in one.
pub proof fn lemma_fixed_string_round_trip(bytes: Seq<u8>, name: String8)
    requires
        bytes.len() <= 8,
        !has_interior_nul(bytes),
        name.bytes() == padded(bytes),
    ensures
        String8::accepts(bytes),
        name.content() == bytes.subrange(0, trimmed_len(bytes) as int),
        bytes.len() == 0 || bytes.last() != 0 ==> name.content() == bytes,
{
    lemma_trimmed_len(bytes);
    lemma_content_len(padded(bytes));
    let t = trimmed_len(bytes);
    let c = content_len(padded(bytes));
    if c < t {
        assert(padded(bytes)[c as int] == 0);
        assert(bytes[c as int] == 0);
    }
    if c > t {
        assert(padded(bytes)[t as int] != 0);
    }
    assert(name.content() =~= bytes.subrange(0, t as int));
    if bytes.len() == 0 || bytes.last() != 0 {
        assert(bytes.subrange(0, t as int) =~= bytes);
    }
}

impl Default for String8 {
    /// The empty name: eight NUL bytes.
    fn default() -> (name: Self)
        ensures
            name.bytes() == padded(Seq::<u8>::empty()),
    {
        let name = Self([0, 0, 0, 0, 0, 0, 0, 0]);
        assert(name.bytes() =~= padded(Seq::<u8>::empty()));
        name
    }
}

impl<'a> TryFrom<&'a str> for String8 {
    type Error = IntoString8Error;

    fn try_from(s: &'a str) -> (r: Result<Self, IntoString8Error>) {
        let r = String8::new(s);
        proof {
            if let Ok(name) = r {
                name.lemma_of_bytes(s.spec_bytes());
            }
        }
        r
    }
}

impl<'a> TryFromSpecImpl<&'a str> for String8 {
    open spec fn obeys_try_from_spec() -> bool {
        true
    }

    open spec fn try_from_spec(s: &'a str) -> Result<Self, IntoString8Error> {
        match String8::rejection(s.spec_bytes()) {
            Some(e) => Err(e),
            None => Ok(String8::of_bytes(s.spec_bytes())),
        }
    }
}

impl<'a> TryFrom<&'a [u8]> for String8 {
    type Error = IntoString8Error;

    fn try_from(bytes: &'a [u8]) -> (r: Result<Self, IntoString8Error>) {
        let r = String8::from_bytes(bytes);
        proof {
            if let Ok(name) = r {
                name.lemma_of_bytes(bytes@);
            }
        }
        r
    }
}

impl<'a> TryFromSpecImpl<&'a [u8]> for String8 {
    open spec fn obeys_try_from_spec() -> bool {
        true
    }

    open spec fn try_from_spec(bytes: &'a [u8]) -> Result<Self, IntoString8Error> {
        match String8::rejection(bytes@) {
            Some(e) => Err(e),
            None => Ok(String8::of_bytes(bytes@)),
        }
    }
}

} // verus!
