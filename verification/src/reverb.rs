//! The delay lines of the reverb: eight comb filters side by side, then four
//! all-pass filters in a row.
//!
//! The lengths are fixed tunings, given for a sample rate of 44100 Hz and
//! scaled to the rate in use. A change of rate therefore makes every line
//! anew, silent, instead of stretching what it holds.
use crate::delay_line::{DelayLine, Ring};
use vstd::prelude::*;

verus! {

/// The sample rate that the tunings are given for.
pub const REFERENCE_RATE: u32 = 44100;

pub const COMB_COUNT: usize = 8;

pub const ALLPASS_COUNT: usize = 4;

/// The length of comb filter `index` at the reference rate.
pub open spec fn comb_tuning(index: int) -> nat {
    if index == 0 {
        1116
    } else if index == 1 {
        1188
    } else if index == 2 {
        1277
    } else if index == 3 {
        1356
    } else if index == 4 {
        1422
    } else if index == 5 {
        1491
    } else if index == 6 {
        1557
    } else {
        1617
    }
}

/// The length of all-pass filter `index` at the reference rate.
pub open spec fn allpass_tuning(index: int) -> nat {
    if index == 0 {
        556
    } else if index == 1 {
        441
    } else if index == 2 {
        341
    } else {
        225
    }
}

/// A tuning scaled from the reference rate to `sample_rate`, rounded down.
pub open spec fn scaled(tuning: nat, sample_rate: u32) -> nat {
    (tuning * sample_rate / 44100) as nat
}

fn scale(tuning: u32, sample_rate: u32) -> (len: usize)
    requires
        tuning <= 44100,
    ensures
        len == scaled(tuning as nat, sample_rate),
{
    assert(tuning * sample_rate <= 44100 * sample_rate) by (nonlinear_arith)
        requires
            tuning <= 44100,
    ;
    let product: u64 = tuning as u64 * sample_rate as u64;
    (product / 44100) as usize
}

/// The length of comb filter `index` at `sample_rate`.
pub fn comb_length(index: usize, sample_rate: u32) -> (len: usize)
    requires
        index < COMB_COUNT,
    ensures
        len == scaled(comb_tuning(index as int), sample_rate),
{
    let tuning: u32 = if index == 0 {
        1116
    } else if index == 1 {
        1188
    } else if index == 2 {
        1277
    } else if index == 3 {
        1356
    } else if index == 4 {
        1422
    } else if index == 5 {
        1491
    } else if index == 6 {
        1557
    } else {
        1617
    };
    scale(tuning, sample_rate)
}

/// The length of all-pass filter `index` at `sample_rate`.
pub fn allpass_length(index: usize, sample_rate: u32) -> (len: usize)
    requires
        index < ALLPASS_COUNT,
    ensures
        len == scaled(allpass_tuning(index as int), sample_rate),
{
    let tuning: u32 = if index == 0 {
        556
    } else if index == 1 {
        441
    } else if index == 2 {
        341
    } else {
        225
    };
    scale(tuning, sample_rate)
}

/// What a bank holds: the rings of its filters and the rate they are cut for.
pub struct BankView<T> {
    pub combs: Seq<Ring<T>>,
    pub allpasses: Seq<Ring<T>>,
    pub sample_rate: u32,
}

impl<T> BankView<T> {
    /// A bank cut for `sample_rate` in which every sample is `silence`.
    pub open spec fn fresh(sample_rate: u32, silence: T) -> BankView<T> {
        BankView {
            combs: Seq::new(
                COMB_COUNT as nat,
                |i: int| Ring::filled(scaled(comb_tuning(i), sample_rate), silence),
            ),
            allpasses: Seq::new(
                ALLPASS_COUNT as nat,
                |i: int| Ring::filled(scaled(allpass_tuning(i), sample_rate), silence),
            ),
            sample_rate,
        }
    }

    /// After a change of rate to `sample_rate`: a fresh bank, unless the rate
    /// is the one in use.
    pub open spec fn retuned(self, sample_rate: u32, silence: T) -> BankView<T> {
        if sample_rate == self.sample_rate {
            self
        } else {
            BankView::fresh(sample_rate, silence)
        }
    }

    /// Eight combs and four all-passes, each ring well formed.
    pub open spec fn wf(self) -> bool {
        &&& self.combs.len() == COMB_COUNT
        &&& self.allpasses.len() == ALLPASS_COUNT
        &&& forall|i: int| 0 <= i < self.combs.len() ==> (#[trigger] self.combs[i]).wf()
        &&& forall|i: int| 0 <= i < self.allpasses.len() ==> (#[trigger] self.allpasses[i]).wf()
    }
}

/// The views of a row of delay lines.
pub open spec fn rings<T>(lines: Seq<DelayLine<T>>) -> Seq<Ring<T>> {
    Seq::new(lines.len(), |i: int| lines[i]@)
}

/// The delay lines of one reverb.
pub struct ReverbBank<T> {
    combs: Vec<DelayLine<T>>,
    allpasses: Vec<DelayLine<T>>,
    sample_rate: u32,
}

impl<T> View for ReverbBank<T> {
    type V = BankView<T>;

    closed spec fn view(&self) -> BankView<T> {
        BankView {
            combs: rings(self.combs@),
            allpasses: rings(self.allpasses@),
            sample_rate: self.sample_rate,
        }
    }
}

impl<T> ReverbBank<T> {
    #[verifier::type_invariant]
    spec fn complete(self) -> bool {
        self.combs.len() == COMB_COUNT && self.allpasses.len() == ALLPASS_COUNT
    }
}

impl<T: Copy> ReverbBank<T> {
    /// A silent bank for `sample_rate`.
    pub fn new(sample_rate: u32, silence: T) -> (bank: Self)
        ensures
            bank@ == BankView::fresh(sample_rate, silence),
    {
        let mut combs: Vec<DelayLine<T>> = Vec::new();
        let mut i: usize = 0;
        while i < COMB_COUNT
            invariant
                i <= COMB_COUNT,
                combs.len() == i,
                forall|k: int|
                    0 <= k < i ==> (#[trigger] combs[k])@ == Ring::filled(
                        scaled(comb_tuning(k), sample_rate),
                        silence,
                    ),
            decreases COMB_COUNT - i,
        {
            combs.push(DelayLine::new(comb_length(i, sample_rate), silence));
            i += 1;
        }
        let mut allpasses: Vec<DelayLine<T>> = Vec::new();
        let mut j: usize = 0;
        while j < ALLPASS_COUNT
            invariant
                j <= ALLPASS_COUNT,
                allpasses.len() == j,
                forall|k: int|
                    0 <= k < j ==> (#[trigger] allpasses[k])@ == Ring::filled(
                        scaled(allpass_tuning(k), sample_rate),
                        silence,
                    ),
            decreases ALLPASS_COUNT - j,
        {
            allpasses.push(DelayLine::new(allpass_length(j, sample_rate), silence));
            j += 1;
        }
        assert(rings(combs@) =~= BankView::fresh(sample_rate, silence).combs);
        assert(rings(allpasses@) =~= BankView::fresh(sample_rate, silence).allpasses);
        ReverbBank { combs, allpasses, sample_rate }
    }

    /// The rate that the lines are cut for.
    pub fn sample_rate(&self) -> (rate: u32)
        ensures
            rate == self@.sample_rate,
    {
        self.sample_rate
    }

    /// Adopts `sample_rate`. If it differs from the rate in use, every line is
    /// made anew and holds `silence`; otherwise nothing changes.
    pub fn resize(&mut self, sample_rate: u32, silence: T)
        ensures
            final(self)@ == old(self)@.retuned(sample_rate, silence),
    {
        if sample_rate != self.sample_rate {
            *self = ReverbBank::new(sample_rate, silence);
        }
    }

    /// The sample that comes out of comb filter `index` next.
    pub fn comb_peek(&self, index: usize) -> (sample: Option<T>)
        requires
            index < COMB_COUNT,
        ensures
            self@.combs.len() == COMB_COUNT,
            self@.combs[index as int].wf(),
            sample == self@.combs[index as int].front(),
    {
        proof {
            use_type_invariant(self);
        }
        self.combs[index].peek()
    }

    /// Writes `sample` into comb filter `index`.
    pub fn comb_push(&mut self, index: usize, sample: T)
        requires
            index < COMB_COUNT,
        ensures
            final(self)@ == (BankView {
                combs: old(self)@.combs.update(
                    index as int,
                    old(self)@.combs[index as int].pushed(sample),
                ),
                ..old(self)@
            }),
    {
        proof {
            use_type_invariant(&*self);
        }
        let ghost before = self.combs@;
        self.combs[index].push(sample);
        assert(rings(self.combs@) =~= rings(before).update(
            index as int,
            before[index as int]@.pushed(sample),
        ));
    }

    /// The sample that comes out of all-pass filter `index` next.
    pub fn allpass_peek(&self, index: usize) -> (sample: Option<T>)
        requires
            index < ALLPASS_COUNT,
        ensures
            self@.allpasses.len() == ALLPASS_COUNT,
            self@.allpasses[index as int].wf(),
            sample == self@.allpasses[index as int].front(),
    {
        proof {
            use_type_invariant(self);
        }
        self.allpasses[index].peek()
    }

    /// Writes `sample` into all-pass filter `index`.
    pub fn allpass_push(&mut self, index: usize, sample: T)
        requires
            index < ALLPASS_COUNT,
        ensures
            final(self)@ == (BankView {
                allpasses: old(self)@.allpasses.update(
                    index as int,
                    old(self)@.allpasses[index as int].pushed(sample),
                ),
                ..old(self)@
            }),
    {
        proof {
            use_type_invariant(&*self);
        }
        let ghost before = self.allpasses@;
        self.allpasses[index].push(sample);
        assert(rings(self.allpasses@) =~= rings(before).update(
            index as int,
            before[index as int]@.pushed(sample),
        ));
    }
}

/// A fresh bank is complete and well formed.
pub proof fn law_fresh_wf<T>(sample_rate: u32, silence: T)
    ensures
        BankView::fresh(sample_rate, silence).wf(),
{
}

/// At the reference rate every line has the length of its tuning.
pub proof fn law_reference_lengths(index: int)
    ensures
        scaled(comb_tuning(index), REFERENCE_RATE) == comb_tuning(index),
        scaled(allpass_tuning(index), REFERENCE_RATE) == allpass_tuning(index),
{
}

/// A change of rate leaves no sample of the old rate behind, and adopting
/// the rate in use changes nothing.
pub proof fn law_retune<T>(bank: BankView<T>, sample_rate: u32, silence: T)
    ensures
        bank.retuned(bank.sample_rate, silence) == bank,
        sample_rate != bank.sample_rate ==> bank.retuned(sample_rate, silence) == BankView::fresh(
            sample_rate,
            silence,
        ),
        bank.retuned(sample_rate, silence).retuned(sample_rate, silence) == bank.retuned(
            sample_rate,
            silence,
        ),
{
}

} // verus!
