//! Formula shortcuts of the physics and economics panels.
//!
//! A formula button is not a computation: it appends a fixed operator and
//! operand fragment to the display through the ordinary append transition,
//! to be combined with typed operands and evaluated later. This is the
//! fixed table from label to fragment.

use vstd::prelude::*;

verus! {

/// One formula button of the physics or economics panel.
#[derive(Clone, Copy, Debug, PartialEq, Eq, Structural)]
pub enum FormulaShortcut {
    /// Mass-energy equivalence: a mass times the squared speed of light.
    MassEnergy,
    /// Velocity: a distance over a time.
    Velocity,
    /// Acceleration: a velocity change over a time.
    Acceleration,
    /// Force: a mass times an acceleration.
    Force,
    /// Kinetic energy: half of a mass times a squared velocity.
    KineticEnergy,
    /// Potential energy: a mass times standard gravity times a height.
    PotentialEnergy,
    /// Power: a work over a time.
    Power,
    /// Momentum: a mass times a velocity.
    Momentum,
    /// Simple interest: a principal times a rate times a time.
    Interest,
    /// Return on investment: a gain less a cost, over the cost.
    ReturnOnInvestment,
    /// Gross price: a net price times the standard rate.
    ValueAddedTax,
    /// Margin: a price less a cost, over the price.
    Margin,
    /// Markup: a price less a cost, over the cost.
    Markup,
    /// Straight-line depreciation: a value over a lifetime.
    StraightLineDepreciation,
}

/// The display fragment each shortcut appends.
pub open spec fn spec_fragment(f: FormulaShortcut) -> Seq<char> {
    match f {
        FormulaShortcut::MassEnergy => "299792458^2*"@,
        FormulaShortcut::Velocity => "/"@,
        FormulaShortcut::Acceleration => "/"@,
        FormulaShortcut::Force => "*"@,
        FormulaShortcut::KineticEnergy => "0.5**"@,
        FormulaShortcut::PotentialEnergy => "**9.81*"@,
        FormulaShortcut::Power => "/"@,
        FormulaShortcut::Momentum => "*"@,
        FormulaShortcut::Interest => "**"@,
        FormulaShortcut::ReturnOnInvestment => "(-)/"@,
        FormulaShortcut::ValueAddedTax => "*1.23"@,
        FormulaShortcut::Margin => "(-)/"@,
        FormulaShortcut::Markup => "(-)/"@,
        FormulaShortcut::StraightLineDepreciation => "/"@,
    }
}

impl FormulaShortcut {
    /// The text fragment this shortcut appends to the display. It is never
    /// empty, so it can always feed the append transition.
    pub fn fragment(self) -> (s: &'static str)
        ensures
            s@ == spec_fragment(self),
            s@.len() > 0,
    {
        match self {
            FormulaShortcut::MassEnergy => {
                proof {
                    reveal_strlit("299792458^2*");
                }
                "299792458^2*"
            },
            FormulaShortcut::Velocity => {
                proof {
                    reveal_strlit("/");
                }
                "/"
            },
            FormulaShortcut::Acceleration => {
                proof {
                    reveal_strlit("/");
                }
                "/"
            },
            FormulaShortcut::Force => {
                proof {
                    reveal_strlit("*");
                }
                "*"
            },
            FormulaShortcut::KineticEnergy => {
                proof {
                    reveal_strlit("0.5**");
                }
                "0.5**"
            },
            FormulaShortcut::PotentialEnergy => {
                proof {
                    reveal_strlit("**9.81*");
                }
                "**9.81*"
            },
            FormulaShortcut::Power => {
                proof {
                    reveal_strlit("/");
                }
                "/"
            },
            FormulaShortcut::Momentum => {
                proof {
                    reveal_strlit("*");
                }
                "*"
            },
            FormulaShortcut::Interest => {
                proof {
                    reveal_strlit("**");
                }
                "**"
            },
            FormulaShortcut::ReturnOnInvestment => {
                proof {
                    reveal_strlit("(-)/");
                }
                "(-)/"
            },
            FormulaShortcut::ValueAddedTax => {
                proof {
                    reveal_strlit("*1.23");
                }
                "*1.23"
            },
            FormulaShortcut::Margin => {
                proof {
                    reveal_strlit("(-)/");
                }
                "(-)/"
            },
            FormulaShortcut::Markup => {
                proof {
                    reveal_strlit("(-)/");
                }
                "(-)/"
            },
            FormulaShortcut::StraightLineDepreciation => {
                proof {
                    reveal_strlit("/");
                }
                "/"
            },
        }
    }
}

} // verus!
