//! A copy of an image that begins on an 8-byte boundary.
//!
//! `xmas_elf` reads the headers of an image in place, each as one value,
//! and stops the program where a header does not lie on the boundary that
//! its widest field asks for: 8 bytes at most. Where an image lies in memory
//! is not for its reader to choose, so the headers are read from a copy that
//! is laid out for it.

use vstd::prelude::*;
use vstd::slice::slice_subrange;

verus! {

/// A copy of an image whose first byte lies on an 8-byte boundary. There is
/// no other way to make one than `new`, and no way to change one.
pub struct AlignedImage {
    /// The copy, after `skip` bytes that only move it to the boundary.
    room: Vec<u8>,
    skip: usize,
}

impl View for AlignedImage {
    type V = Seq<u8>;

    closed spec fn view(&self) -> Seq<u8> {
        self.room@.subrange(self.skip as int, self.room@.len() as int)
    }
}

impl AlignedImage {
    #[verifier::type_invariant]
    spec fn within_room(&self) -> bool {
        self.skip <= self.room@.len()
    }

    /// Copies `image` to an 8-byte boundary. The copy needs up to seven
    /// bytes more than the image: there is none where the machine cannot
    /// address that many.
    pub fn new(image: &[u8]) -> (copy: Option<AlignedImage>)
        ensures
            copy is Some <==> image@.len() + 7 <= usize::MAX,
            copy matches Some(aligned) ==> aligned@ == image@,
    {
        let len: usize = image.len();
        if len > usize::MAX - 7 {
            return None;
        }
        let mut room: Vec<u8> = Vec::new();
        room.resize(len + 7, 0u8);
        let skip: usize = (8 - address_of(&room) % 8) % 8;
        let mut i: usize = 0;
        while i < len
            invariant
                i <= len == image@.len(),
                skip < 8,
                room@.len() == len + 7 <= usize::MAX,
                forall|j: int| 0 <= j < i ==> room@[skip + j] == image@[j],
            decreases len - i,
        {
            room[skip + i] = image[i];
            i += 1;
        }
        room.truncate(skip + len);
        assert(room@.subrange(skip as int, room@.len() as int) =~= image@);
        Some(AlignedImage { room, skip })
    }

    /// The bytes of the copy.
    pub fn as_bytes(&self) -> (bytes: &[u8])
        ensures
            bytes@ == self@,
    {
        proof {
            use_type_invariant(self);
        }
        slice_subrange(self.room.as_slice(), self.skip, self.room.len())
    }
}

/// The address of the first byte of `room`, from `Vec::as_ptr`. Nothing is
/// claimed of it: it differs from run to run.
#[verifier::external_body]
fn address_of(room: &Vec<u8>) -> usize {
    room.as_ptr() as usize
}

} // verus!
