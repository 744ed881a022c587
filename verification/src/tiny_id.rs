//! Tiny, fixed-capacity string that can be used as a backing identifier.
//!
//! Good enough for simple use cases, cheap and ergonomic to copy, and it
//! comes with a just-as-tiny random identifier generator.

use vstd::prelude::*;
use vstd::string::StringSliceAdditionalSpecFns;
use vstd::utf8::{decode_utf8, encode_utf8, valid_utf8};

use crate::domain::IdDomain;
use crate::generate::GenerateIdStateless;
use crate::id::StableId;

verus! {

broadcast use vstd::array::group_array_axioms;

/// The number of leading bytes of `s` before the first null byte, or the
/// whole length of `s` if it holds no null byte.
pub open spec fn first_nul(s: Seq<u8>) -> int
    decreases s.len(),
{
    if s.len() == 0 {
        0
    } else if s[0] == 0 {
        0
    } else {
        1 + first_nul(s.drop_first())
    }
}

/// `bytes` truncated or zero-padded on the right to exactly `n` bytes.
pub open spec fn padded(bytes: Seq<u8>, n: nat) -> Seq<u8> {
    Seq::new(n, |i: int| if i < bytes.len() { bytes[i] } else { 0u8 })
}

/// The number of bytes of `s` that remain once the trailing run of null
/// bytes is removed.
pub open spec fn trimmed_len(s: Seq<u8>) -> int
    decreases s.len(),
{
    if s.len() == 0 {
        0
    } else if s.last() == 0 {
        trimmed_len(s.drop_last())
    } else {
        s.len() as int
    }
}

/// The text stored in a buffer `s`: the bytes before the trailing run of
/// null bytes, decoded as UTF-8 characters.
pub open spec fn spec_str(s: Seq<u8>) -> Seq<char> {
    decode_utf8(s.take(trimmed_len(s)))
}

/// A position with no null byte before it and a null byte (or the end of
/// the sequence) at it is exactly `first_nul`.
pub proof fn lemma_first_nul_at(s: Seq<u8>, i: int)
    requires
        0 <= i <= s.len(),
        forall|j: int| 0 <= j < i ==> s[j] != 0,
        i == s.len() || s[i] == 0,
    ensures
        first_nul(s) == i,
    decreases s.len(),
{
    if i == 0 {
    } else {
        assert(s[0] != 0);
        lemma_first_nul_at(s.drop_first(), i - 1);
    }
}

/// `trimmed_len(s)` keeps everything up to the last non-null byte: all
/// bytes past it are null, and the byte just before it (if any) is not.
pub proof fn lemma_trimmed_len_props(s: Seq<u8>)
    ensures
        0 <= trimmed_len(s) <= s.len(),
        forall|j: int| trimmed_len(s) <= j < s.len() ==> s[j] == 0,
        trimmed_len(s) > 0 ==> s[trimmed_len(s) - 1] != 0,
    decreases s.len(),
{
    if s.len() == 0 {
    } else if s.last() == 0 {
        lemma_trimmed_len_props(s.drop_last());
        assert forall|j: int| trimmed_len(s) <= j < s.len() implies s[j] == 0 by {
            if j < s.len() - 1 {
                assert(s[j] == s.drop_last()[j]);
            }
        }
        if trimmed_len(s) > 0 {
            assert(s[trimmed_len(s) - 1] == s.drop_last()[trimmed_len(s) - 1]);
        }
    }
}

/// A position with only null bytes after it and a non-null byte (or the
/// start of the sequence) just before it is exactly `trimmed_len`.
pub proof fn lemma_trimmed_len_at(s: Seq<u8>, m: int)
    requires
        0 <= m <= s.len(),
        forall|j: int| m <= j < s.len() ==> s[j] == 0,
        m == 0 || s[m - 1] != 0,
    ensures
        trimmed_len(s) == m,
    decreases s.len(),
{
    if s.len() == 0 {
    } else if m == s.len() {
        assert(s.last() != 0);
    } else {
        assert(s.last() == 0);
        lemma_trimmed_len_at(s.drop_last(), m);
    }
}

/// Cutting a valid UTF-8 buffer just before its trailing null bytes cuts at
/// a character boundary, so what remains is valid UTF-8 as well.
pub proof fn lemma_trimmed_valid(s: Seq<u8>)
    requires
        valid_utf8(s),
    ensures
        valid_utf8(s.take(trimmed_len(s))),
{
    let m = trimmed_len(s);
    lemma_trimmed_len_props(s);
    assert(s.take(m) =~= s.subrange(0, m));
    if m == s.len() {
        assert(s.subrange(0, m) =~= s);
    } else {
        vstd::utf8::is_char_boundary_iff_not_is_continuation_byte(s, m);
        vstd::utf8::valid_utf8_split(s, m);
    }
}

/// Constant-size backing type for string-based identifiers.
/// The fixed size makes it allocation-free and cheap to copy.
///
/// It is expected that the bytes always make up a valid UTF-8 string,
/// possibly followed by null bytes up to the capacity `N`.
#[derive(Debug, Clone, Copy, Hash)]
#[verifier::ext_equal]
pub struct TinyId<const N: usize> {
    text: [u8; N],
}

impl<const N: usize> View for TinyId<N> {
    type V = Seq<u8>;

    closed spec fn view(&self) -> Seq<u8> {
        self.text@
    }
}

impl<const N: usize> TinyId<N> {
    /// Build an identifier from a byte slice, assumed to be valid UTF-8.
    ///
    /// The input is truncated to at most `N` bytes; if it is shorter than
    /// `N`, the rest of the buffer is set to `0u8` (the null character).
    pub fn from_bytes(bytes: &[u8]) -> (r: Self)
        ensures
            r@ == padded(bytes@, N as nat),
    {
        let mut text: [u8; N] = vstd::array::array_fill_for_copy_types(0u8);
        let copy_len: usize = if bytes.len() < N {
            bytes.len()
        } else {
            N
        };
        let mut i: usize = 0;
        while i < copy_len
            invariant
                i <= copy_len,
                copy_len <= N,
                copy_len <= bytes@.len(),
                forall|j: int| 0 <= j < i ==> text@[j] == bytes@[j],
                forall|j: int| i <= j < N ==> text@[j] == 0u8,
            decreases copy_len - i,
        {
            text[i] = bytes[i];
            i += 1;
        }
        let r = TinyId { text };
        proof {
            assert(r@ =~= padded(bytes@, N as nat));
        }
        r
    }

    /// The raw byte representation of this identifier, all `N` bytes.
    pub fn as_bytes(&self) -> (r: &[u8])
        ensures
            r@ == self@,
    {
        self.text.as_slice()
    }

    /// The length of the identifier: the number of bytes before the first
    /// null byte, or `N` if no byte is null.
    pub fn len(&self) -> (r: usize)
        ensures
            r == first_nul(self@),
            r <= N,
    {
        let mut i: usize = 0;
        while i < N && self.text[i] != 0
            invariant
                i <= N,
                forall|j: int| 0 <= j < i ==> self@[j] != 0,
            decreases N - i,
        {
            i += 1;
        }
        proof {
            lemma_first_nul_at(self@, i as int);
        }
        i
    }

    /// An identifier is considered empty when its very first byte is null.
    pub fn is_empty(&self) -> (r: bool)
        ensures
            r == (first_nul(self@) == 0),
    {
        self.len() == 0
    }

    /// The string this identifier stores: the buffer with its trailing null
    /// bytes removed, read as UTF-8. The stored bytes must be valid UTF-8;
    /// constructors only ever place valid UTF-8 content, so a buffer that is
    /// not is a programming error, not a recoverable condition.
    pub fn as_str(&self) -> (r: &str)
        requires
            valid_utf8(self@),
        ensures
            r@ == spec_str(self@),
    {
        let mut m: usize = N;
        while m > 0 && self.text[m - 1] == 0
            invariant
                m <= N,
                forall|j: int| m <= j < N ==> self@[j] == 0,
            decreases m,
        {
            m -= 1;
        }
        proof {
            lemma_trimmed_len_at(self@, m as int);
            lemma_trimmed_valid(self@);
            assert(self@.take(m as int) =~= self@.subrange(0, m as int));
        }
        let bytes: &[u8] = self.text.as_slice();
        let head: &[u8] = &bytes[0..m];
        let r = utf8_to_str(head).unwrap();
        proof {
            vstd::utf8::encode_utf8_decode_utf8(r@);
        }
        r
    }
}

/// Relies on `std::str::from_utf8`: it succeeds exactly when the bytes are
/// valid UTF-8, and then returns the string made of those very bytes.
#[verifier::external_body]
fn utf8_to_str(bytes: &[u8]) -> (r: Option<&str>)
    ensures
        r is Some <==> valid_utf8(bytes@),
        r matches Some(s) ==> s.spec_bytes() == bytes@,
{
    match std::str::from_utf8(bytes) {
        Ok(s) => Some(s),
        Err(_) => None,
    }
}

impl<const N: usize> PartialEq for TinyId<N> {
    fn eq(&self, other: &Self) -> (r: bool) {
        let mut i: usize = 0;
        while i < N
            invariant
                i <= N,
                forall|j: int| 0 <= j < i ==> self@[j] == other@[j],
            decreases N - i,
        {
            if self.text[i] != other.text[i] {
                return false;
            }
            i += 1;
        }
        proof {
            assert(self@ =~= other@);
        }
        true
    }
}

impl<const N: usize> vstd::std_specs::cmp::PartialEqSpecImpl for TinyId<N> {
    open spec fn obeys_eq_spec() -> bool {
        true
    }

    open spec fn eq_spec(&self, other: &Self) -> bool {
        self@ == other@
    }
}

impl<const N: usize> Eq for TinyId<N> {

}

impl<const N: usize> TinyId<N> {
    /// The array holding the first `i` cells of the buffer for `bytes`
    /// (truncated or zero-padded) and zeroes everywhere else.
    closed spec fn spec_buffer(bytes: Seq<u8>, i: int) -> [u8; N]
        decreases i,
    {
        if i <= 0 {
            vstd::array::spec_array_fill_for_copy_type::<u8, N>(0u8)
        } else {
            vstd::array::spec_array_update(
                Self::spec_buffer(bytes, i - 1),
                i - 1,
                if i - 1 < bytes.len() {
                    bytes[i - 1]
                } else {
                    0u8
                },
            )
        }
    }

    proof fn lemma_spec_buffer(bytes: Seq<u8>, i: int)
        requires
            0 <= i <= N,
        ensures
            forall|j: int| 0 <= j < i ==> Self::spec_buffer(bytes, i)@[j] == padded(
                bytes,
                N as nat,
            )[j],
            forall|j: int| i <= j < N ==> Self::spec_buffer(bytes, i)@[j] == 0u8,
        decreases i,
    {
        if i <= 0 {
            let a = vstd::array::spec_array_fill_for_copy_type::<u8, N>(0u8);
            assert(forall|j: int| 0 <= j < N ==> a@[j] == 0u8);
        } else {
            Self::lemma_spec_buffer(bytes, i - 1);
            let prev = Self::spec_buffer(bytes, i - 1);
            let v = if i - 1 < bytes.len() {
                bytes[i - 1]
            } else {
                0u8
            };
            assert(Self::spec_buffer(bytes, i)@ == prev@.update(i - 1, v));
        }
    }

    /// The identifier whose buffer holds `bytes`, truncated or zero-padded
    /// to the capacity, as a specification-level value.
    pub closed spec fn spec_of(bytes: Seq<u8>) -> TinyId<N> {
        TinyId { text: Self::spec_buffer(bytes, N as int) }
    }

    /// What `spec_of` stores: exactly the padded form of its input.
    pub proof fn lemma_spec_of(bytes: Seq<u8>)
        ensures
            Self::spec_of(bytes)@ == padded(bytes, N as nat),
    {
        Self::lemma_spec_buffer(bytes, N as int);
        assert(Self::spec_of(bytes)@ =~= padded(bytes, N as nat));
    }

    /// Writing an identifier out as its text and building an identifier of
    /// the same capacity from that text again yields the very same
    /// identifier: nothing is lost between `as_str` and `from_bytes`.
    pub proof fn lemma_as_str_round_trip(t: TinyId<N>)
        requires
            valid_utf8(t@),
        ensures
            Self::spec_of(encode_utf8(spec_str(t@))) == t,
    {
        lemma_text_round_trip(t@);
        Self::lemma_spec_of(encode_utf8(spec_str(t@)));
        assert(Self::spec_of(encode_utf8(spec_str(t@))) =~= t);
    }
}

impl<'a, const N: usize> From<&'a str> for TinyId<N> {
    fn from(value: &'a str) -> (r: Self) {
        let r = TinyId::from_bytes(value.as_bytes());
        proof {
            Self::lemma_spec_of(value.spec_bytes());
            assert(r =~= Self::spec_of(value.spec_bytes()));
        }
        r
    }
}

impl<'a, const N: usize> vstd::std_specs::convert::FromSpecImpl<&'a str> for TinyId<N> {
    open spec fn obeys_from_spec() -> bool {
        true
    }

    open spec fn from_spec(v: &'a str) -> Self {
        TinyId::spec_of(v.spec_bytes())
    }
}

impl<const N: usize> core::str::FromStr for TinyId<N> {
    type Err = core::convert::Infallible;

    fn from_str(s: &str) -> Result<Self, Self::Err> {
        Ok(TinyId::from_bytes(s.as_bytes()))
    }
}

/// True of the characters of the URL-safe identifier alphabet: ASCII
/// letters, digits, `_` and `-`.
pub open spec fn is_id_char(c: char) -> bool {
    ||| c == '_'
    ||| c == '-'
    ||| '0' <= c && c <= '9'
    ||| 'a' <= c && c <= 'z'
    ||| 'A' <= c && c <= 'Z'
}

/// Relies on `nanoid::format` with `nanoid::alphabet::SAFE` and the
/// crate's default operating-system random source: it returns exactly
/// `len` characters, each drawn from that URL-safe alphabet.
#[verifier::external_body]
fn random_id_text(len: usize) -> (r: String)
    ensures
        r@.len() == len,
        forall|i: int| 0 <= i < r@.len() ==> is_id_char(#[trigger] r@[i]),
{
    nanoid::format(nanoid::rngs::default, &nanoid::alphabet::SAFE, len)
}

/// Identifier characters are ASCII and never null, so their UTF-8 encoding
/// is one byte per character, each byte the character itself, never null.
proof fn lemma_id_chars_encode(chars: Seq<char>)
    requires
        forall|i: int| 0 <= i < chars.len() ==> is_id_char(#[trigger] chars[i]),
    ensures
        encode_utf8(chars).len() == chars.len(),
        forall|i: int| 0 <= i < chars.len() ==> encode_utf8(chars)[i] == (#[trigger] chars[i]) as u8,
        forall|i: int| 0 <= i < encode_utf8(chars).len() ==> #[trigger] encode_utf8(chars)[i] != 0,
        valid_utf8(encode_utf8(chars)),
{
    assert(vstd::utf8::is_ascii_chars(chars));
    vstd::utf8::is_ascii_chars_encode_utf8(chars);
    vstd::utf8::encode_utf8_valid_utf8(chars);
    assert forall|i: int| 0 <= i < encode_utf8(chars).len() implies #[trigger] encode_utf8(
        chars,
    )[i] != 0 by {
        assert(encode_utf8(chars)[i] == chars[i] as u8);
        assert(chars[i] as u8 != 0);
    }
}

/// Generates [`TinyId`] identifiers by drawing `N` random characters from
/// the URL-safe alphabet of the [`nanoid`](https://docs.rs/nanoid) crate.
pub struct TinyIdGen<const N: usize>;

impl<const N: usize, D> GenerateIdStateless<StableId<D>> for TinyIdGen<N> where
    D: IdDomain<Backing = TinyId<N>>,
 {
    /// Every identifier this generator returns fills its whole buffer with
    /// valid UTF-8 and no null byte, so its length is exactly `N`.
    open spec fn generated(id: StableId<D>) -> bool {
        &&& first_nul(id@@) == N
        &&& valid_utf8(id@@)
    }

    fn generate_id() -> (r: StableId<D>) {
        let s = random_id_text(N);
        let id = TinyId::<N>::from_bytes(s.as_str().as_bytes());
        proof {
            lemma_id_chars_encode(s@);
            assert(id@ =~= encode_utf8(s@));
            lemma_first_nul_at(id@, N as int);
        }
        StableId::new(id)
    }
}

/// How much of a `from_bytes` input survives: when no null byte stands
/// among the copied bytes, the stored length is the smaller of the input
/// length and the capacity, while the raw buffer always holds exactly `n`
/// bytes.
pub proof fn lemma_padded_len(bytes: Seq<u8>, n: nat)
    requires
        forall|i: int| 0 <= i < bytes.len() && i < n ==> bytes[i] != 0,
    ensures
        padded(bytes, n).len() == n,
        first_nul(padded(bytes, n)) == if bytes.len() <= n {
            bytes.len() as int
        } else {
            n as int
        },
{
    let m = if bytes.len() <= n {
        bytes.len() as int
    } else {
        n as int
    };
    lemma_first_nul_at(padded(bytes, n), m);
}

/// Storing a buffer's own text again reproduces the buffer: encoding the
/// characters that `as_str` reads and padding them back to the original
/// size is the identity on valid buffers. Writing an identifier out as
/// text and parsing the text back therefore loses nothing.
pub proof fn lemma_text_round_trip(s: Seq<u8>)
    requires
        valid_utf8(s),
    ensures
        padded(encode_utf8(spec_str(s)), s.len() as nat) == s,
{
    let m = trimmed_len(s);
    lemma_trimmed_len_props(s);
    lemma_trimmed_valid(s);
    vstd::utf8::decode_utf8_encode_utf8(s.take(m));
    assert(padded(encode_utf8(spec_str(s)), s.len() as nat) =~= s);
}

} // verus!
