//! Feature bits and the windowed registers they travel through.
//!
//! A device advertises its capabilities as an ordered row of 32-bit
//! words; the driver answers with the subset it accepts. Each side of the
//! exchange goes through a pair of registers: a select register picks the
//! 32-bit window, and a data register carries that window's word. The
//! [`WindowBank`] type is the driver-side image of such a pair together
//! with the words behind it; [`FeatureBits`] is the assembled row.

use vstd::prelude::*;

verus! {

/// An ordered row of 32-bit feature words. Bit `32 * i + k` of the set is
/// bit `k` of word `i`.
#[derive(PartialEq, Eq, Debug)]
pub struct FeatureBits(pub Vec<u32>);

impl View for FeatureBits {
    type V = Seq<u32>;

    open spec fn view(&self) -> Seq<u32> {
        self.0@
    }
}

/// Containment of feature rows of equal width: every bit of `b` is also
/// set in `a`.
pub open spec fn spec_contains(a: Seq<u32>, b: Seq<u32>) -> bool {
    forall|i: int| 0 <= i < b.len() ==> #[trigger] (a[i] & b[i]) == b[i]
}

/// The wordwise intersection of two feature rows of equal width.
pub open spec fn and_words(a: Seq<u32>, b: Seq<u32>) -> Seq<u32> {
    Seq::new(a.len(), |i: int| a[i] & b[i])
}

/// The word a bank hands back for a window: the backing word when the
/// window exists, and zero for a window past the row, as a device answers
/// for feature words it does not implement.
pub open spec fn spec_window(words: Seq<u32>, sel: int) -> u32 {
    if 0 <= sel < words.len() {
        words[sel]
    } else {
        0
    }
}

/// The row assembled by reading windows `0 .. len` from a bank.
pub open spec fn read_words(words: Seq<u32>, len: nat) -> Seq<u32> {
    Seq::new(len, |i: int| spec_window(words, i))
}

/// A bank's backing words after a row has been written window by window:
/// windows covered by the row take its words, windows past the row keep
/// theirs, and words of the row past the bank are dropped.
pub open spec fn written_words(words: Seq<u32>, row: Seq<u32>) -> Seq<u32> {
    Seq::new(words.len(), |j: int| if j < row.len() {
        row[j]
    } else {
        words[j]
    })
}

/// A write counter after `n` further wrapping increments.
pub open spec fn counted_writes(start: u64, n: int) -> u64
    decreases n,
{
    if n <= 0 {
        start
    } else {
        counted_writes(start, n - 1).wrapping_add(1)
    }
}

/// A windowed register pair and the words behind it: the select register,
/// the backing words the data register multiplexes, and a count of the
/// writes the data register has taken.
#[derive(Debug)]
pub struct WindowBank {
    /// The backing words, one per implemented window.
    pub words: Vec<u32>,
    /// The window the select register currently picks.
    pub sel: u32,
    /// How many words have been written through the data register
    /// (wrapping).
    pub writes: u64,
}

impl WindowBank {
    /// A bank over the given backing words, with window zero selected and
    /// no writes counted yet.
    pub fn new(words: Vec<u32>) -> (r: WindowBank)
        ensures
            r.words == words,
            r.sel == 0,
            r.writes == 0,
    {
        WindowBank { words, sel: 0, writes: 0 }
    }

    /// A bank of `len` windows, all zero: the state of a driver-side
    /// feature bank before anything is acknowledged.
    pub fn new_zeroed(len: usize) -> (r: WindowBank)
        ensures
            r.words@ =~= Seq::new(len as nat, |i: int| 0u32),
            r.sel == 0,
            r.writes == 0,
    {
        let mut words: Vec<u32> = Vec::new();
        let mut i: usize = 0;
        while i < len
            invariant
                i <= len,
                words@ =~= Seq::new(i as nat, |j: int| 0u32),
            decreases len - i,
        {
            words.push(0);
            assert(words@ =~= Seq::new((i + 1) as nat, |j: int| 0u32));
            i = i + 1;
        }
        WindowBank::new(words)
    }

    /// Writes the select register, picking the window the data register
    /// addresses from now on.
    pub fn select(&mut self, window: u32)
        ensures
            final(self).sel == window,
            final(self).words == old(self).words,
            final(self).writes == old(self).writes,
    {
        self.sel = window;
    }

    /// Reads the data register: the word of the selected window, or zero
    /// for a window the bank does not implement.
    pub fn read(&self) -> (r: u32)
        ensures
            r == spec_window(self.words@, self.sel as int),
    {
        if (self.sel as usize) < self.words.len() {
            self.words[self.sel as usize]
        } else {
            0
        }
    }

    /// Writes the data register: the selected window takes the word; a
    /// write to a window the bank does not implement changes no backing
    /// word. Either way the write is counted.
    pub fn write(&mut self, bits: u32)
        ensures
            final(self).words@ == if 0 <= old(self).sel < old(self).words@.len() {
                old(self).words@.update(old(self).sel as int, bits)
            } else {
                old(self).words@
            },
            final(self).sel == old(self).sel,
            final(self).writes == old(self).writes.wrapping_add(1),
    {
        let i = self.sel as usize;
        if i < self.words.len() {
            self.words.set(i, bits);
        }
        self.writes = self.writes.wrapping_add(1);
    }
}

impl FeatureBits {
    /// A feature row over the given words.
    pub fn new(words: Vec<u32>) -> (r: FeatureBits)
        ensures
            r@ == words@,
    {
        FeatureBits(words)
    }

    /// Whether this row offers every bit of `rhs`. The rows must be of
    /// the same width, as two rows for the same device type are.
    pub fn contains(&self, rhs: FeatureBits) -> (r: bool)
        requires
            self@.len() == rhs@.len(),
        ensures
            r == spec_contains(self@, rhs@),
    {
        let mut i: usize = 0;
        while i < rhs.0.len()
            invariant
                i <= rhs@.len(),
                self@.len() == rhs@.len(),
                forall|j: int| 0 <= j < i ==> #[trigger] (self@[j] & rhs@[j]) == rhs@[j],
            decreases rhs@.len() - i,
        {
            if self.0[i] & rhs.0[i] != rhs.0[i] {
                return false;
            }
            i = i + 1;
        }
        true
    }

    /// The wordwise intersection with another row of the same width: the
    /// negotiated set, when applied to an offered and a supported row.
    pub fn intersect(&self, rhs: &FeatureBits) -> (r: FeatureBits)
        requires
            self@.len() == rhs@.len(),
        ensures
            r@ == and_words(self@, rhs@),
    {
        let mut words: Vec<u32> = Vec::new();
        let mut i: usize = 0;
        while i < self.0.len()
            invariant
                i <= self@.len(),
                self@.len() == rhs@.len(),
                words@.len() == i,
                forall|j: int| 0 <= j < i ==> words@[j] == #[trigger] (self@[j] & rhs@[j]),
            decreases self@.len() - i,
        {
            words.push(self.0[i] & rhs.0[i]);
            i = i + 1;
        }
        assert(words@ =~= and_words(self@, rhs@));
        FeatureBits(words)
    }

    /// Assembles a row of `len` words by selecting and reading each
    /// device-side window in order. The bank's words and write count are
    /// untouched; only its select register moves.
    pub fn read_from_device(len: usize, bank: &mut WindowBank) -> (r: FeatureBits)
        requires
            len <= 0xffff_ffff,
        ensures
            r@ == read_words(old(bank).words@, len as nat),
            final(bank).words == old(bank).words,
            final(bank).writes == old(bank).writes,
    {
        let mut words: Vec<u32> = Vec::new();
        let mut i: usize = 0;
        while i < len
            invariant
                i <= len,
                len <= 0xffff_ffff,
                bank.words == old(bank).words,
                bank.writes == old(bank).writes,
                words@ =~= read_words(old(bank).words@, i as nat),
            decreases len - i,
        {
            bank.select(i as u32);
            let w = bank.read();
            words.push(w);
            assert(words@ =~= read_words(old(bank).words@, (i + 1) as nat));
            i = i + 1;
        }
        FeatureBits(words)
    }

    /// Writes the row into driver-side windows by selecting and writing
    /// each window in order, counting one data-register write per word.
    pub fn write_to_device(&self, bank: &mut WindowBank)
        requires
            self@.len() <= 0xffff_ffff,
        ensures
            final(bank).words@ == written_words(old(bank).words@, self@),
            final(bank).writes == counted_writes(old(bank).writes, self@.len() as int),
    {
        let mut i: usize = 0;
        while i < self.0.len()
            invariant
                i <= self@.len(),
                self@.len() <= 0xffff_ffff,
                bank.words@ =~= written_words(old(bank).words@, self@.take(i as int)),
                bank.writes == counted_writes(old(bank).writes, i as int),
            decreases self@.len() - i,
        {
            bank.select(i as u32);
            bank.write(self.0[i]);
            assert(bank.words@ =~= written_words(old(bank).words@, self@.take(i + 1)));
            i = i + 1;
        }
        assert(self@.take(self@.len() as int) =~= self@);
        assert(bank.words@ =~= written_words(old(bank).words@, self@));
    }
}

/// Round trip through the window protocol: writing a feature row into a
/// bank wide enough to hold it and reading the same number of windows
/// back yields the identical bit pattern.
pub proof fn lemma_window_round_trip(row: Seq<u32>, words: Seq<u32>)
    requires
        row.len() <= words.len(),
    ensures
        read_words(written_words(words, row), row.len()) =~= row,
{
}

} // verus!
