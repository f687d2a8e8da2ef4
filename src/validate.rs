//! The checks that tell in advance whether a slice can take a shape, and
//! the error that says why not.
use vstd::prelude::*;
use vstd::string::StringExecFns;

use crate::decimal::{append_decimal, decimal};
use crate::sliceomorphic::IsSliceomorphic;

verus! {

/// Why a flat slice cannot be viewed in the shape asked for.
///
/// Both kinds follow from the lengths alone, never from the data.
#[derive(Clone, Copy, Debug, PartialEq, Eq, Structural)]
pub enum ShapeError {
    /// The group size is zero, so the number of groups cannot be derived
    /// from the length of the slice.
    ZeroLengthGroup,
    /// The slice of length `len` is not matched exactly by one group of
    /// `group_len` (when `single_group`), or not cut evenly by groups of
    /// `group_len` (when nesting).
    LengthMismatch { len: usize, group_len: usize, single_group: bool },
}

impl ShapeError {
    /// The text of `message`.
    pub open spec fn spec_message(self) -> Seq<char> {
        match self {
            ShapeError::ZeroLengthGroup => "cannot nest arrays of length 0"@,
            ShapeError::LengthMismatch { len, group_len, single_group } => {
                "cannot view slice of length "@ + decimal(len as nat) + (if single_group {
                    " as [_; "@
                } else {
                    " as [[_; "@
                }) + decimal(group_len as nat) + (if single_group {
                    "]"@
                } else {
                    "]]"@
                })
            },
        }
    }

    /// A description of the error that cites the length and the group size.
    pub fn message(&self) -> (r: String)
        ensures
            r@ == self.spec_message(),
    {
        match self {
            ShapeError::ZeroLengthGroup => String::from_str("cannot nest arrays of length 0"),
            ShapeError::LengthMismatch { len, group_len, single_group } => {
                let mut s = String::from_str("cannot view slice of length ");
                append_decimal(&mut s, *len);
                if *single_group {
                    s.append(" as [_; ");
                } else {
                    s.append(" as [[_; ");
                }
                append_decimal(&mut s, *group_len);
                if *single_group {
                    s.append("]");
                } else {
                    s.append("]]");
                }
                assert(s@ =~= self.spec_message());
                s
            },
        }
    }
}

/// Whether the capability of `V` agrees with the layout the compiler gave it:
/// `V` and its element type have the same alignment, and `V` is as large as
/// `LEN` elements.
///
/// Rust lays out every array type `[T; N]` so that this is true, but the
/// contract states only the comparison: vstd has no fact about the layout of
/// arrays. The conversions of this crate do not depend on it, as they never
/// reinterpret memory themselves.
pub fn validate_alignment_and_size<V: IsSliceomorphic>() -> (r: bool)
    ensures
        r == (vstd::layout::align_of::<V::Element>() == vstd::layout::align_of::<V>() && V::LEN
            * vstd::layout::size_of::<V::Element>() == vstd::layout::size_of::<V>()),
{
    let same_align = core::mem::align_of::<V::Element>() == core::mem::align_of::<V>();
    let group_size = core::mem::size_of::<V>();
    match V::LEN.checked_mul(core::mem::size_of::<V::Element>()) {
        Some(total) => same_align && total == group_size,
        None => false,
    }
}

/// Checks that a flat slice of length `len` can be nested into groups of `V`:
/// `Ok` exactly when `nest` and `nest_mut` accept it.
pub fn validate_nest_assumptions<V: IsSliceomorphic>(len: usize) -> (r: Result<(), ShapeError>)
    ensures
        r is Ok <==> V::LEN != 0 && len % V::LEN == 0,
        V::LEN == 0 ==> r == Err::<(), ShapeError>(ShapeError::ZeroLengthGroup),
        V::LEN != 0 && len % V::LEN != 0 ==> r == Err::<(), ShapeError>(
            ShapeError::LengthMismatch { len, group_len: V::LEN, single_group: false },
        ),
{
    if V::LEN == 0 {
        Err(ShapeError::ZeroLengthGroup)
    } else if len % V::LEN != 0 {
        Err(ShapeError::LengthMismatch { len, group_len: V::LEN, single_group: false })
    } else {
        Ok(())
    }
}

/// Checks that a flat slice of length `len` can be viewed as one group `V`:
/// `Ok` exactly when `as_array`, `as_mut_array` and `to_array` accept it.
pub fn validate_as_array_assumptions<V: IsSliceomorphic>(len: usize) -> (r: Result<(), ShapeError>)
    ensures
        r is Ok <==> len == V::LEN,
        len != V::LEN ==> r == Err::<(), ShapeError>(
            ShapeError::LengthMismatch { len, group_len: V::LEN, single_group: true },
        ),
{
    if len != V::LEN {
        Err(ShapeError::LengthMismatch { len, group_len: V::LEN, single_group: true })
    } else {
        Ok(())
    }
}

} // verus!
