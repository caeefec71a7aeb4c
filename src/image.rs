use crate::constant::MEMORY_MAX;
use crate::cpu::LC3Cpu;
use vstd::prelude::*;
use vstd::slice::slice_subrange;

verus! {

/// Why a program image cannot be loaded.
#[derive(Clone, Copy, Debug, PartialEq, Eq, Structural)]
pub enum ImageError {
    /// Fewer than two bytes: no origin address.
    MissingOrigin,
    /// The words do not fit between the origin and the end of memory.
    TooLarge,
}

/// The big-endian 16-bit value of bytes `hi`, `lo`.
pub open spec fn be_word(hi: u8, lo: u8) -> u16 {
    (hi as int * 256 + lo as int) as u16
}

/// The origin address: the image's first big-endian word.
pub open spec fn image_origin(b: Seq<u8>) -> u16 {
    be_word(b[0], b[1])
}

/// The number of whole words after the origin; a trailing odd byte is not
/// a word.
pub open spec fn image_len(b: Seq<u8>) -> int {
    (b.len() - 2) / 2
}

/// The `i`-th word after the origin.
pub open spec fn image_word(b: Seq<u8>, i: int) -> u16 {
    be_word(b[2 + 2 * i], b[3 + 2 * i])
}

/// Memory `mem` with the image's words stored from its origin on.
pub open spec fn loaded(mem: Seq<u16>, b: Seq<u8>) -> Seq<u16> {
    Seq::new(
        mem.len(),
        |a: int|
            if image_origin(b) <= a < image_origin(b) + image_len(b) {
                image_word(b, a - image_origin(b))
            } else {
                mem[a]
            },
    )
}

/// Relies on byteorder's `BigEndian::read_u16`: the first two bytes of `buf`
/// as a big-endian integer. It panics on fewer than two bytes.
#[verifier::external_body]
fn read_be_u16(buf: &[u8]) -> (r: u16)
    requires
        buf@.len() >= 2,
    ensures
        r == be_word(buf@[0], buf@[1]),
{
    <byteorder::BigEndian as byteorder::ByteOrder>::read_u16(buf)
}

impl LC3Cpu {
    /// Loads a program image: a big-endian origin address, then big-endian
    /// words stored at consecutive addresses from the origin. Returns the
    /// origin. On error nothing changes.
    pub fn load_image(&mut self, image: &[u8]) -> (r: Result<u16, ImageError>)
        requires
            old(self).wf(),
        ensures
            final(self).wf(),
            image@.len() < 2 ==> r == Err::<u16, ImageError>(ImageError::MissingOrigin),
            image@.len() >= 2 && image_origin(image@) + image_len(image@) > MEMORY_MAX ==> r
                == Err::<u16, ImageError>(ImageError::TooLarge),
            r is Err ==> final(self)@ == old(self)@,
            image@.len() >= 2 && image_origin(image@) + image_len(image@) <= MEMORY_MAX ==> {
                &&& r == Ok::<u16, ImageError>(image_origin(image@))
                &&& final(self)@.mem == loaded(old(self)@.mem, image@)
                &&& final(self)@.regs == old(self)@.regs
                &&& final(self)@.input == old(self)@.input
                &&& final(self)@.output == old(self)@.output
            },
    {
        if image.len() < 2 {
            return Err(ImageError::MissingOrigin);
        }
        let origin = read_be_u16(slice_subrange(image, 0, 2));
        let n: usize = (image.len() - 2) / 2;
        if origin as usize + n > MEMORY_MAX {
            return Err(ImageError::TooLarge);
        }
        let ghost b = image@;
        let ghost mem0 = self@.mem;
        let mut i: usize = 0;
        while i < n
            invariant
                self.wf(),
                b == image@,
                origin == image_origin(b),
                n == image_len(b),
                origin + n <= MEMORY_MAX,
                i <= n,
                self@.regs == old(self)@.regs,
                self@.input == old(self)@.input,
                self@.output == old(self)@.output,
                mem0 == old(self)@.mem,
                forall|a: int|
                    0 <= a < MEMORY_MAX ==> self@.mem[a] == if origin <= a < origin + i {
                        image_word(b, a - origin)
                    } else {
                        mem0[a]
                    },
            decreases n - i,
        {
            let w = read_be_u16(slice_subrange(image, 2 + 2 * i, 4 + 2 * i));
            self.memory.set(origin as usize + i, w);
            i = i + 1;
        }
        assert(self@.mem =~= loaded(mem0, b));
        Ok(origin)
    }
}

} // verus!
