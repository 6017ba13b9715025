use vstd::prelude::*;
use crate::error::EmuError;
use crate::memory::{
    lemma_store_then_load, load_le, spliced, store_le, translate_spec, Memory, MemoryView,
    Translation, CODE_BASE,
};
use crate::tools::binary_builder::{image_of, le_bytes};

verus! {

proof fn lemma_image_word(words: Seq<u32>, i: int)
    requires
        0 <= i < words.len(),
    ensures
        image_of(words).len() == 4 * words.len(),
        image_of(words).subrange(4 * i, 4 * i + 4) == le_bytes(words[i]),
    decreases words.len(),
{
    lemma_image_len(words);
    let prefix = words.drop_last();
    lemma_image_len(prefix);
    if i < words.len() - 1 {
        lemma_image_word(prefix, i);
        assert(image_of(words).subrange(4 * i, 4 * i + 4) =~= image_of(prefix).subrange(
            4 * i,
            4 * i + 4,
        ));
    } else {
        assert(image_of(words).subrange(4 * i, 4 * i + 4) =~= le_bytes(words[i]));
    }
}

proof fn lemma_image_len(words: Seq<u32>)
    ensures
        image_of(words).len() == 4 * words.len(),
    decreases words.len(),
{
    if words.len() > 0 {
        lemma_image_len(words.drop_last());
    }
}

/// A program assembled from `words` and loaded at the entry point is fetched
/// back word for word: the word at `0x8000_0000 + 4 * i` is `words[i]`.
pub proof fn lemma_loaded_program_fetch(m: MemoryView, words: Seq<u32>, i: int)
    requires
        0 <= i < words.len(),
        4 * words.len() <= m.ram.len(),
        4 * words.len() <= 0x0100_0000,
    ensures
        m.bulk_spec(CODE_BASE, image_of(words).len() as int) == Ok::<usize, EmuError>(0usize),
        (MemoryView { ram: spliced(m.ram, 0, image_of(words)), ..m }).read_spec(
            (CODE_BASE + 4 * i) as u32,
            4,
        ) == Ok::<u32, EmuError>(words[i]),
{
    lemma_image_word(words, i);
    let img = image_of(words);
    let ram = spliced(m.ram, 0, img);
    let w = words[i];
    let p = 4 * i;
    lemma_store_then_load(ram, p, w, 4);
    let stored = store_le(ram, p, w, 4);
    assert(stored.subrange(p, p + 4) =~= ram.subrange(p, p + 4));
    assert(load_le(ram, p, 4) == load_le(stored, p, 4));
    let addr = (CODE_BASE + 4 * i) as u32;
    assert(translate_spec(addr) == Some(Translation::Ram(p as usize)));
}

/// Places a raw little-endian program image at the start of the code segment.
pub struct Loader;

impl Loader {
    pub fn new() -> (r: Self) {
        Loader
    }

    /// Copies `image` verbatim to virtual address `0x8000_0000`.
    pub fn load_program(&self, memory: &mut Memory, image: &[u8]) -> (r: Result<(), EmuError>)
        ensures
            match old(memory)@.bulk_spec(CODE_BASE, image@.len() as int) {
                Ok(p) => r == Ok::<(), EmuError>(()) && final(memory)@ == (MemoryView {
                    ram: spliced(old(memory)@.ram, p as int, image@),
                    ..old(memory)@
                }),
                Err(e) => r == Err::<(), EmuError>(e) && final(memory)@ == old(memory)@,
            },
    {
        memory.write_bytes(CODE_BASE, image)
    }

    /// Programs start at the first byte of the code segment.
    pub fn get_entry_point(&self) -> (r: u32)
        ensures
            r == CODE_BASE,
    {
        CODE_BASE
    }
}

} // verus!
