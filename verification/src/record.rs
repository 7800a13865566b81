//! The favorites record, its capacity bounds and its storage footprint.

use vstd::prelude::*;
use vstd::utf8::encode_utf8;

verus! {

/// Most bytes that the UTF-8 encoding of a color may take.
pub const MAX_COLOR_LEN: usize = 50;

/// Most entries that a list of hobbies may hold.
pub const MAX_HOBBIES: usize = 5;

/// Most bytes that the UTF-8 encoding of one hobby may take.
pub const MAX_HOBBY_LEN: usize = 50;

/// Bytes that a length or count prefix takes in the stored layout.
pub const LENGTH_PREFIX_SIZE: usize = 4;

/// Bytes of the header that precedes every stored record.
pub const ANCHOR_DISCRIMINATOR_SIZE: usize = 8;

/// Bytes reserved for the fields of a record: the number, the color with its
/// length prefix, and the hobbies with their count and length prefixes.
pub const INIT_SPACE: usize = 8 + (LENGTH_PREFIX_SIZE + MAX_COLOR_LEN) + (LENGTH_PREFIX_SIZE
    + MAX_HOBBIES * (LENGTH_PREFIX_SIZE + MAX_HOBBY_LEN));

/// Bytes reserved for a record when it is created: header and fields.
pub const ACCOUNT_SPACE: usize = ANCHOR_DISCRIMINATOR_SIZE + INIT_SPACE;

/// What one caller has stored: a number, a color and a list of hobbies.
#[derive(Clone, Debug, PartialEq, Eq)]
pub struct Favorites {
    pub number: u64,
    pub color: String,
    pub hobbies: Vec<String>,
}

/// The mathematical value of a [`Favorites`] record.
pub ghost struct FavoritesView {
    pub number: u64,
    pub color: Seq<char>,
    pub hobbies: Seq<Seq<char>>,
}

impl View for Favorites {
    type V = FavoritesView;

    open spec fn view(&self) -> FavoritesView {
        FavoritesView {
            number: self.number,
            color: self.color@,
            hobbies: self.hobbies.deep_view(),
        }
    }
}

/// Number of bytes in the UTF-8 encoding of `text`.
pub open spec fn byte_len(text: Seq<char>) -> nat {
    encode_utf8(text).len()
}

/// A color and a list of hobbies fit a record when the color takes at most
/// [`MAX_COLOR_LEN`] bytes, there are at most [`MAX_HOBBIES`] hobbies, and
/// each hobby takes at most [`MAX_HOBBY_LEN`] bytes.
pub open spec fn fits(color: Seq<char>, hobbies: Seq<Seq<char>>) -> bool {
    &&& byte_len(color) <= MAX_COLOR_LEN
    &&& hobbies.len() <= MAX_HOBBIES
    &&& forall|i: int| 0 <= i < hobbies.len() ==> byte_len(#[trigger] hobbies[i]) <= MAX_HOBBY_LEN
}

/// Bytes that a list of hobbies takes in the stored layout, the count prefix
/// left aside: each hobby's bytes behind a length prefix.
pub open spec fn hobbies_len(hobbies: Seq<Seq<char>>) -> nat
    decreases hobbies.len(),
{
    if hobbies.len() == 0 {
        0
    } else {
        hobbies_len(hobbies.drop_last()) + LENGTH_PREFIX_SIZE as nat + byte_len(hobbies.last())
    }
}

/// Bytes that the fields of `record` take in the stored layout: the number in
/// eight bytes, the color behind a length prefix, the hobbies behind a count
/// prefix.
pub open spec fn encoded_len(record: FavoritesView) -> nat {
    8 + LENGTH_PREFIX_SIZE as nat + byte_len(record.color) + LENGTH_PREFIX_SIZE as nat
        + hobbies_len(record.hobbies)
}

/// Number of bytes in the UTF-8 encoding of `text`.
pub fn utf8_len(text: &String) -> (len: usize)
    ensures
        len == byte_len(text@),
{
    text.as_str().as_bytes().len()
}

impl Favorites {
    /// Tells whether `color` and `hobbies` are within the bounds of a record.
    pub fn within_capacity(color: &String, hobbies: &Vec<String>) -> (ok: bool)
        ensures
            ok == fits(color@, hobbies.deep_view()),
    {
        if utf8_len(color) > MAX_COLOR_LEN || hobbies.len() > MAX_HOBBIES {
            return false;
        }
        let mut i: usize = 0;
        while i < hobbies.len()
            invariant
                i <= hobbies.len(),
                forall|j: int| 0 <= j < i ==> byte_len(#[trigger] hobbies.deep_view()[j]) <= MAX_HOBBY_LEN,
            decreases hobbies.len() - i,
        {
            if utf8_len(&hobbies[i]) > MAX_HOBBY_LEN {
                assert(hobbies.deep_view()[i as int] == hobbies[i as int]@);
                return false;
            }
            assert(hobbies.deep_view()[i as int] == hobbies[i as int]@);
            i += 1;
        }
        true
    }

    /// Bytes that the fields of this record take in the stored layout.
    pub fn encoded_len(&self) -> (len: usize)
        requires
            encoded_len(self@) <= usize::MAX,
        ensures
            len == encoded_len(self@),
    {
        let ghost hobbies = self.hobbies.deep_view();
        proof {
            lemma_hobbies_len_prefix(hobbies, 0);
            assert(hobbies.take(0) =~= Seq::empty());
        }
        let mut total: usize = 8 + LENGTH_PREFIX_SIZE + utf8_len(&self.color) + LENGTH_PREFIX_SIZE;
        let mut i: usize = 0;
        while i < self.hobbies.len()
            invariant
                i <= self.hobbies.len(),
                hobbies == self.hobbies.deep_view(),
                encoded_len(self@) <= usize::MAX,
                total == 8 + LENGTH_PREFIX_SIZE + byte_len(self.color@) + LENGTH_PREFIX_SIZE
                    + hobbies_len(hobbies.take(i as int)),
            decreases self.hobbies.len() - i,
        {
            proof {
                lemma_hobbies_len_prefix(hobbies, i + 1);
                assert(hobbies.take(i + 1).drop_last() =~= hobbies.take(i as int));
                assert(hobbies.take(i + 1).last() == self.hobbies[i as int]@);
            }
            total = total + LENGTH_PREFIX_SIZE + utf8_len(&self.hobbies[i]);
            i += 1;
        }
        assert(hobbies.take(i as int) =~= hobbies);
        total
    }
}

/// A prefix of a list of hobbies takes no more bytes than the whole list.
proof fn lemma_hobbies_len_prefix(hobbies: Seq<Seq<char>>, n: int)
    requires
        0 <= n <= hobbies.len(),
    ensures
        hobbies_len(hobbies.take(n)) <= hobbies_len(hobbies),
    decreases hobbies.len(),
{
    if n == hobbies.len() {
        assert(hobbies.take(n) =~= hobbies);
    } else {
        lemma_hobbies_len_prefix(hobbies.drop_last(), n);
        assert(hobbies.drop_last().take(n) =~= hobbies.take(n));
    }
}

/// The hobbies of a record within bounds take at most as many bytes as were
/// reserved for each of them.
proof fn lemma_hobbies_len_bound(hobbies: Seq<Seq<char>>)
    requires
        forall|i: int| 0 <= i < hobbies.len() ==> byte_len(#[trigger] hobbies[i]) <= MAX_HOBBY_LEN,
    ensures
        hobbies_len(hobbies) <= hobbies.len() * (LENGTH_PREFIX_SIZE + MAX_HOBBY_LEN),
    decreases hobbies.len(),
{
    if hobbies.len() > 0 {
        let rest = hobbies.drop_last();
        assert forall|i: int| 0 <= i < rest.len() implies byte_len(#[trigger] rest[i])
            <= MAX_HOBBY_LEN by {
            assert(rest[i] == hobbies[i]);
        }
        lemma_hobbies_len_bound(rest);
    }
}

/// A record never outgrows its reservation: whatever fits the bounds of a
/// record takes, with the header, at most [`ACCOUNT_SPACE`] bytes.
pub proof fn lemma_within_reservation(record: FavoritesView)
    requires
        fits(record.color, record.hobbies),
    ensures
        ANCHOR_DISCRIMINATOR_SIZE + encoded_len(record) <= ACCOUNT_SPACE,
        ACCOUNT_SPACE == 344,
{
    lemma_hobbies_len_bound(record.hobbies);
}

} // verus!
