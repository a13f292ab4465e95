//! The word-level encoding of OCaml values: an immediate integer has its
//! lowest bit set and its value in the remaining bits; any other word is a
//! pointer.

use vstd::prelude::*;

verus! {

/// Whether the word `value` encodes an immediate integer.
pub open spec fn spec_is_ocaml_int(value: usize) -> bool {
    value & 1 == 1
}

/// The word that encodes the integer `value`.
pub open spec fn spec_isize_to_ocaml_int(value: isize) -> usize {
    ((value as usize) << 1) | 1
}

/// The integer that the word `value` encodes.
pub open spec fn spec_ocaml_int_to_isize(value: usize) -> isize {
    (value as isize) >> 1
}

#[verifier::when_used_as_spec(spec_is_ocaml_int)]
pub fn is_ocaml_int(value: usize) -> (r: bool)
    ensures
        r == spec_is_ocaml_int(value),
{
    value & 1 == 1
}

#[verifier::when_used_as_spec(spec_isize_to_ocaml_int)]
pub fn isize_to_ocaml_int(value: isize) -> (r: usize)
    ensures
        r == spec_isize_to_ocaml_int(value),
        spec_is_ocaml_int(r),
{
    let r = ((value as usize) << 1) | 1;
    assert(spec_is_ocaml_int(r)) by {
        let v = (value as usize) << 1;
        assert((v | 1) & 1 == 1) by (bit_vector);
    }
    r
}

#[verifier::when_used_as_spec(spec_ocaml_int_to_isize)]
pub fn ocaml_int_to_isize(value: usize) -> (r: isize)
    ensures
        r == spec_ocaml_int_to_isize(value),
{
    (value as isize) >> 1
}

/// A value as OCaml represents it: an immediate integer or a pointer to a
/// block.
#[derive(Clone, Copy, Debug, PartialEq, Eq, Hash)]
pub struct Value(pub usize);

impl Value {
    /// Whether the value is an immediate integer.
    pub fn is_immediate(self) -> (r: bool)
        ensures
            r == spec_is_ocaml_int(self.0),
    {
        is_ocaml_int(self.0)
    }

    /// The value that encodes the integer `value`.
    pub fn from_int(value: isize) -> (r: Value)
        ensures
            r.0 == spec_isize_to_ocaml_int(value),
            spec_is_ocaml_int(r.0),
    {
        Value(isize_to_ocaml_int(value))
    }

    /// The integer that the value encodes, if it is immediate.
    pub fn as_int(self) -> (r: Option<isize>)
        ensures
            r == if spec_is_ocaml_int(self.0) {
                Some(spec_ocaml_int_to_isize(self.0))
            } else {
                None
            },
    {
        if self.is_immediate() {
            Some(ocaml_int_to_isize(self.0))
        } else {
            None
        }
    }

    /// The word itself.
    pub fn to_bits(self) -> (r: usize)
        ensures
            r == self.0,
    {
        self.0
    }
}

/// The word that stands before the fields of a block: the size of the block
/// in its upper bits, its tag in its lowest byte.
#[derive(Clone, Copy, Debug, PartialEq, Eq)]
pub struct Header(pub usize);

impl Header {
    pub fn from_bits(bits: usize) -> (r: Header)
        ensures
            r.0 == bits,
    {
        Header(bits)
    }

    /// The number of fields of the block.
    pub fn size(self) -> (r: usize)
        ensures
            r == self.0 >> 10,
    {
        self.0 >> 10
    }

    /// The tag of the block.
    pub fn tag(self) -> (r: u8)
        ensures
            r == (self.0 & 0xff) as u8,
    {
        (self.0 & 0xff) as u8
    }

    pub fn to_bits(self) -> (r: usize)
        ensures
            r == self.0,
    {
        self.0
    }
}

/// A value whose pointers may be offsets rather than addresses: only the
/// immediate integers can be read.
#[derive(Clone, Copy)]
pub struct OpaqueValue(pub usize);

impl OpaqueValue {
    pub fn is_immediate(self) -> (r: bool)
        ensures
            r == spec_is_ocaml_int(self.0),
    {
        is_ocaml_int(self.0)
    }

    pub fn as_int(self) -> (r: Option<isize>)
        ensures
            r == if spec_is_ocaml_int(self.0) {
                Some(spec_ocaml_int_to_isize(self.0))
            } else {
                None
            },
    {
        if self.is_immediate() {
            Some(ocaml_int_to_isize(self.0))
        } else {
            None
        }
    }

    /// The word read as the header of a block.
    pub fn as_header(self) -> (r: Header)
        ensures
            r.0 == self.0,
    {
        Header::from_bits(self.0)
    }

    pub fn to_bits(self) -> (r: usize)
        ensures
            r == self.0,
    {
        self.0
    }
}

} // verus!
