//! Relative indexing with defensive clamping.
//!
//! A relative index is a signed or unsigned integer interpreted against a
//! sequence length: non-negative values count from the start, negative values
//! count back from the end (`-1` is the last element). Out-of-range values do
//! not fail; they clamp to the nearest boundary. [`ToOffset`] turns a relative
//! index into a normalized offset in `[0, length]`, and [`FromOffset`] uses it
//! to fetch an element of a slice without ever going out of bounds.

use vstd::prelude::*;

verus! {

/// The normalized offset for relative index `r` against length `len`.
///
/// A negative `r` counts back from the end, saturating at the start; the
/// result is then clamped to `len`, so it always lies in `[0, len]`.
pub open spec fn normalized_offset(r: int, len: int) -> int
    recommends
        len >= 0,
{
    let candidate = if r < 0 {
        if len + r >= 0 {
            len + r
        } else {
            0
        }
    } else {
        r
    };
    if candidate <= len {
        candidate
    } else {
        len
    }
}

/// Clamps `offset` so it does not pass `length`.
pub fn offset_wihin_range(offset: usize, length: usize) -> (clamped: usize)
    ensures
        clamped == if offset <= length { offset as int } else { length as int },
{
    if offset > length {
        length
    } else {
        offset
    }
}

/// Conversion of a relative index into a normalized offset.
///
/// Negative values count back from the end of a sequence of the given length
/// (`-1` is the last position, `0` the first); values past either boundary
/// clamp to it. The conversion is total: every value of every implementing
/// type yields an offset in `[0, length]`.
pub trait ToOffset where Self: PartialOrd {
    /// The mathematical integer this relative index stands for.
    spec fn relative_value(self) -> int;

    /// Normalizes `self` against `length`, clamping to `[0, length]`.
    fn to_offset(self, length: usize) -> (offset: usize)
        ensures
            offset == normalized_offset(self.relative_value(), length as int),
            offset <= length,
    ;
}

impl ToOffset for i32 {
    open spec fn relative_value(self) -> int {
        self as int
    }

    fn to_offset(self, length: usize) -> (offset: usize) {
        let candidate: usize = if self < 0 {
            let magnitude: i64 = -(self as i64);
            if magnitude as u64 >= length as u64 {
                0
            } else {
                length - (magnitude as usize)
            }
        } else {
            self as usize
        };
        offset_wihin_range(candidate, length)
    }
}

impl ToOffset for i64 {
    open spec fn relative_value(self) -> int {
        self as int
    }

    fn to_offset(self, length: usize) -> (offset: usize) {
        let candidate: usize = if self < 0 {
            let magnitude: i128 = -(self as i128);
            if magnitude >= length as i128 {
                0
            } else {
                length - (magnitude as usize)
            }
        } else if self as u64 > length as u64 {
            length
        } else {
            self as usize
        };
        offset_wihin_range(candidate, length)
    }
}

impl ToOffset for u8 {
    open spec fn relative_value(self) -> int {
        self as int
    }

    fn to_offset(self, length: usize) -> (offset: usize) {
        offset_wihin_range(self as usize, length)
    }
}

impl ToOffset for u16 {
    open spec fn relative_value(self) -> int {
        self as int
    }

    fn to_offset(self, length: usize) -> (offset: usize) {
        offset_wihin_range(self as usize, length)
    }
}

impl ToOffset for u32 {
    open spec fn relative_value(self) -> int {
        self as int
    }

    fn to_offset(self, length: usize) -> (offset: usize) {
        offset_wihin_range(self as usize, length)
    }
}

impl ToOffset for u64 {
    open spec fn relative_value(self) -> int {
        self as int
    }

    fn to_offset(self, length: usize) -> (offset: usize) {
        let candidate: usize = if self > length as u64 {
            length
        } else {
            self as usize
        };
        offset_wihin_range(candidate, length)
    }
}

impl ToOffset for usize {
    open spec fn relative_value(self) -> int {
        self as int
    }

    fn to_offset(self, length: usize) -> (offset: usize) {
        offset_wihin_range(self, length)
    }
}

/// The element position selected by relative index `r` in a sequence of
/// length `len >= 1`: the normalized offset, with the one "past the end"
/// value `len` remapped to the last valid position `len - 1`.
pub open spec fn lookup_position(r: int, len: int) -> int
    recommends
        len >= 1,
{
    let offset = normalized_offset(r, len);
    if offset < len {
        offset
    } else {
        len - 1
    }
}

/// Bounds-safe element access by relative index.
///
/// An empty sequence yields nothing; a non-empty one always yields the
/// element at [`lookup_position`], whatever the index's magnitude or sign.
pub trait FromOffset<T>: View<V = Seq<T>> {
    /// Fetches the element `relative_index` selects, or `None` when empty.
    fn from_offset<U: ToOffset>(&self, relative_index: U) -> (result: Option<&T>)
        ensures
            self@.len() == 0 ==> result is None,
            self@.len() > 0 ==> (result matches Some(element) && *element == self@[
                lookup_position(relative_index.relative_value(), self@.len() as int)
            ]),
    ;
}

impl<T> FromOffset<T> for [T] {
    fn from_offset<U: ToOffset>(&self, relative_index: U) -> (result: Option<&T>) {
        let length: usize = self.len();
        if length < 1 {
            return None;
        }
        let target_index: usize = relative_index.to_offset(length);
        let index: usize = if target_index < length {
            target_index
        } else {
            target_index - 1
        };
        Some(vstd::slice::slice_index_get(self, index))
    }
}

/// Normalization is total: for every relative index `r` and every length
/// `len >= 0`, the normalized offset lies in `[0, len]`.
pub proof fn lemma_normalized_offset_in_range(r: int, len: int)
    requires
        len >= 0,
    ensures
        0 <= normalized_offset(r, len) <= len,
{
}

/// Zero maps to the start: `normalized_offset(0, len) == 0` for every
/// `len >= 0`.
pub proof fn lemma_zero_maps_to_start(len: int)
    requires
        len >= 0,
    ensures
        normalized_offset(0, len) == 0,
{
}

/// Negative one maps to the last position when the length is non-zero, and
/// saturates to the start when it is zero.
pub proof fn lemma_negative_one_maps_to_last(len: int)
    requires
        len >= 0,
    ensures
        len >= 1 ==> normalized_offset(-1, len) == len - 1,
        len == 0 ==> normalized_offset(-1, len) == 0,
{
}

/// Clamp-high: a non-negative relative index at or past the length
/// normalizes to the length itself.
pub proof fn lemma_clamp_high(r: int, len: int)
    requires
        0 <= len <= r,
    ensures
        normalized_offset(r, len) == len,
{
}

/// Clamp-low: a negative relative index whose magnitude is at least the
/// length normalizes to the start.
pub proof fn lemma_clamp_low(r: int, len: int)
    requires
        r < 0,
        len >= 0,
        -r >= len,
    ensures
        normalized_offset(r, len) == 0,
{
}

/// Bounds safety of lookup: for every relative index `r` and every length
/// `len >= 1`, the selected position is a valid element position.
pub proof fn lemma_lookup_position_in_bounds(r: int, len: int)
    requires
        len >= 1,
    ensures
        0 <= lookup_position(r, len) < len,
{
}

} // verus!
