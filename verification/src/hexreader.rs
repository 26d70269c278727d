use vstd::prelude::*;

verus! {

/// A flat dump of 16-bit program words together with a read cursor.
///
/// An external loader produces the word stream (little-endian pairs of
/// bytes from a program image); this type only hands the words out one
/// at a time with an explicit end-of-stream signal.
pub struct IhexDump {
    indexer: usize,
    data: Vec<u16>,
}

impl IhexDump {
    /// The words of the dump, in order.
    pub closed spec fn words(self) -> Seq<u16> {
        self.data@
    }

    /// The read cursor, as an index into `words`.
    pub closed spec fn pos(self) -> int {
        self.indexer as int
    }

    /// The cursor never runs past the end of the words.
    pub open spec fn wf(self) -> bool {
        0 <= self.pos() <= self.words().len()
    }

    pub fn new(data: Vec<u16>) -> (dump: Self)
        ensures
            dump.words() == data@,
            dump.pos() == 0,
            dump.wf(),
    {
        IhexDump { indexer: 0, data }
    }

    /// Hands out the next word, or signals end-of-stream.
    pub fn get_next_word(&mut self) -> (r: Result<u16, &'static str>)
        ensures
            final(self).words() == old(self).words(),
            old(self).pos() < old(self).words().len() ==> {
                &&& r == Ok::<u16, &'static str>(old(self).words()[old(self).pos()])
                &&& final(self).pos() == old(self).pos() + 1
            },
            old(self).pos() >= old(self).words().len() ==> {
                &&& r matches Err(m) && m@ == "End of hexdump"@
                &&& final(self).pos() == old(self).pos()
            },
            old(self).wf() ==> final(self).wf(),
    {
        if self.indexer < self.data.len() {
            let next_word = self.data[self.indexer];
            self.indexer = self.indexer + 1;

            Ok(next_word)
        } else {
            Err("End of hexdump")
        }
    }

    /// The cursor as a byte offset (each word is two bytes).
    #[allow(non_snake_case)]
    pub fn getIndex(&self) -> (r: usize)
        requires
            self.pos() * 2 <= usize::MAX,
        ensures
            r == self.pos() * 2,
    {
        self.indexer * 2
    }
}

} // verus!
