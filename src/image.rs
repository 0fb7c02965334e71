//! Program images: a big-endian origin word followed by the big-endian words
//! that are placed in memory from the origin on.
use vstd::prelude::*;
use crate::machine::{Machine, MachineView, MEMORY_WORDS};

verus! {

/// Why an image cannot be loaded.
#[derive(Clone, Copy, Debug, PartialEq, Eq, Structural)]
pub enum ImageError {
    /// Fewer than two bytes: there is no origin word.
    MissingOrigin,
    /// The words run past the last address.
    TooLarge,
}

/// Word `i` of the image: bytes `2i` (high) and `2i + 1` (low).
pub open spec fn image_word(image: Seq<u8>, i: int) -> u16 {
    (image[2 * i] * 256 + image[2 * i + 1]) as u16
}

/// The address at which the image's program starts.
pub open spec fn image_origin(image: Seq<u8>) -> u16 {
    image_word(image, 0)
}

/// Number of program words after the origin word; an odd last byte is no word.
pub open spec fn program_words(image: Seq<u8>) -> int {
    image.len() as int / 2 - 1
}

/// The image fits: it has an origin and its words end at or before the last address.
pub open spec fn image_fits(image: Seq<u8>) -> bool {
    image.len() >= 2 && image_origin(image) + program_words(image) <= MEMORY_WORDS
}

/// The machine `s` after loading `image`: the program words from the origin
/// on, the program counter at the origin, all else as it was.
pub open spec fn loaded(s: MachineView, image: Seq<u8>) -> MachineView {
    let origin = image_origin(image) as int;
    MachineView {
        mem: Seq::new(
            s.mem.len(),
            |a: int|
                if origin <= a < origin + program_words(image) {
                    image_word(image, a - origin + 1)
                } else {
                    s.mem[a]
                },
        ),
        pc: image_origin(image),
        ..s
    }
}

impl Machine {
    /// Loads a program image and points the program counter at its origin,
    /// which it returns.
    pub fn load_image(&mut self, image: &Vec<u8>) -> (r: Result<u16, ImageError>)
        requires
            old(self).wf(),
        ensures
            final(self).wf(),
            image@.len() < 2 ==> r == Err::<u16, ImageError>(ImageError::MissingOrigin),
            image@.len() >= 2 && !image_fits(image@) ==> r == Err::<u16, ImageError>(ImageError::TooLarge),
            r is Err ==> final(self)@ == old(self)@,
            image_fits(image@) ==> r == Ok::<u16, ImageError>(image_origin(image@))
                && final(self)@ == loaded(old(self)@, image@),
    {
        if image.len() < 2 {
            return Err(ImageError::MissingOrigin);
        }
        let origin = (image[0] as u16) * 256 + image[1] as u16;
        let words = image.len() / 2 - 1;
        if words > MEMORY_WORDS - origin as usize {
            return Err(ImageError::TooLarge);
        }
        let ghost s0 = self@;
        let mut i: usize = 0;
        while i < words
            invariant
                self.wf(),
                s0.wf(),
                image_fits(image@),
                origin == image_origin(image@),
                words == program_words(image@),
                i <= words,
                self@.reg == s0.reg,
                self@.pc == s0.pc,
                self@.cc == s0.cc,
                forall|a: int|
                    0 <= a < MEMORY_WORDS ==> #[trigger] self@.mem[a] == if origin <= a < origin + i {
                        image_word(image@, a - origin + 1)
                    } else {
                        s0.mem[a]
                    },
            decreases words - i,
        {
            let w = (image[2 * i + 2] as u16) * 256 + image[2 * i + 3] as u16;
            self.mem.set(origin as usize + i, w);
            i = i + 1;
        }
        self.pc = origin;
        proof {
            assert(self@.mem =~= loaded(s0, image@).mem);
        }
        Ok(origin)
    }
}

} // verus!
