use vstd::prelude::*;

verus! {

/// The little-endian bytes of a word, least significant first.
pub open spec fn le_bytes(w: u32) -> Seq<u8> {
    seq![
        (w & 0xff) as u8,
        ((w >> 8) & 0xff) as u8,
        ((w >> 16) & 0xff) as u8,
        ((w >> 24) & 0xff) as u8,
    ]
}

/// The image of a sequence of instruction words.
pub open spec fn image_of(words: Seq<u32>) -> Seq<u8>
    decreases words.len(),
{
    if words.len() == 0 {
        Seq::empty()
    } else {
        image_of(words.drop_last()) + le_bytes(words.last())
    }
}

/// Assembles a raw program image one instruction word at a time.
pub struct BinaryBuilder {
    code: Vec<u8>,
}

impl View for BinaryBuilder {
    type V = Seq<u8>;

    closed spec fn view(&self) -> Seq<u8> {
        self.code@
    }
}

impl BinaryBuilder {
    pub fn new() -> (r: Self)
        ensures
            r@ == Seq::<u8>::empty(),
    {
        BinaryBuilder { code: Vec::new() }
    }

    /// Appends an instruction word, little-endian.
    pub fn add_instruction(&mut self, instruction: u32)
        ensures
            final(self)@ == old(self)@ + le_bytes(instruction),
    {
        let ghost before = self.code@;
        self.code.push((instruction & 0xff) as u8);
        self.code.push(((instruction >> 8) & 0xff) as u8);
        self.code.push(((instruction >> 16) & 0xff) as u8);
        self.code.push(((instruction >> 24) & 0xff) as u8);
        proof {
            assert(self.code@ =~= before + le_bytes(instruction));
        }
    }

    /// The image assembled so far.
    pub fn bytes(&self) -> (r: &[u8])
        ensures
            r@ == self@,
    {
        self.code.as_slice()
    }
}

} // verus!
