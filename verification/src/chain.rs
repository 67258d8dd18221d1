//! The order of the effects chain.
//!
//! The equalizer shapes the clean signal first, bass boost, echo and reverb
//! follow where they are switched on, and the soft clipper comes last to
//! catch what the others add.
use vstd::prelude::*;

verus! {

/// One stage of the chain.
#[derive(Debug, Clone, Copy, PartialEq, Eq, Structural)]
pub enum Effect {
    Equalizer,
    BassBoost,
    Echo,
    Reverb,
    SoftClip,
}

/// Which of the optional stages take part.
#[derive(Debug, Clone, Copy, PartialEq, Eq, Structural)]
pub struct Switches {
    /// The boost is above zero.
    pub bass_boost: bool,
    /// The echo's share of the mix is above zero.
    pub echo: bool,
    /// The reverb's share of the mix is above zero.
    pub reverb: bool,
}

impl Effect {
    /// The place of a stage in the fixed order.
    pub open spec fn rank(self) -> int {
        match self {
            Effect::Equalizer => 0,
            Effect::BassBoost => 1,
            Effect::Echo => 2,
            Effect::Reverb => 3,
            Effect::SoftClip => 4,
        }
    }
}

impl Switches {
    /// Whether `effect` takes part: equalizer and soft clipper always do.
    pub open spec fn admits(self, effect: Effect) -> bool {
        match effect {
            Effect::Equalizer => true,
            Effect::BassBoost => self.bass_boost,
            Effect::Echo => self.echo,
            Effect::Reverb => self.reverb,
            Effect::SoftClip => true,
        }
    }

    /// The stages that a sample runs through, in order.
    pub open spec fn chain(self) -> Seq<Effect> {
        seq![Effect::Equalizer] + (if self.bass_boost {
            seq![Effect::BassBoost]
        } else {
            seq![]
        }) + (if self.echo {
            seq![Effect::Echo]
        } else {
            seq![]
        }) + (if self.reverb {
            seq![Effect::Reverb]
        } else {
            seq![]
        }) + seq![Effect::SoftClip]
    }

    /// The stages that a sample runs through, in order.
    pub fn stages(&self) -> (stages: Vec<Effect>)
        ensures
            stages@ == self.chain(),
    {
        let mut stages: Vec<Effect> = Vec::new();
        stages.push(Effect::Equalizer);
        if self.bass_boost {
            stages.push(Effect::BassBoost);
        }
        if self.echo {
            stages.push(Effect::Echo);
        }
        if self.reverb {
            stages.push(Effect::Reverb);
        }
        stages.push(Effect::SoftClip);
        assert(stages@ =~= self.chain());
        stages
    }
}

/// The chain holds exactly the stages that take part, each once and in the
/// fixed order; it begins with the equalizer and ends with the soft clipper.
pub proof fn law_chain_order(switches: Switches)
    ensures
        switches.chain().first() == Effect::Equalizer,
        switches.chain().last() == Effect::SoftClip,
        forall|effect: Effect| switches.chain().contains(effect) <==> switches.admits(effect),
        forall|i: int, j: int|
            0 <= i < j < switches.chain().len() ==> switches.chain()[i].rank()
                < switches.chain()[j].rank(),
{
    let chain = switches.chain();
    assert forall|effect: Effect| switches.admits(effect) implies chain.contains(effect) by {
        let at: int = match effect {
            Effect::Equalizer => 0,
            Effect::BassBoost => 1,
            Effect::Echo => 1 + if switches.bass_boost {
                1int
            } else {
                0int
            },
            Effect::Reverb => 1 + (if switches.bass_boost {
                1int
            } else {
                0int
            }) + (if switches.echo {
                1int
            } else {
                0int
            }),
            Effect::SoftClip => chain.len() - 1,
        };
        assert(chain[at] == effect);
    }
}

} // verus!
