//! The reveal effects that play when the window is summoned.

use vstd::prelude::*;

use crate::text::str_eq;

verus! {

/// A reveal effect. `Plain` shows the window at once; the next two draw straight onto the surface; `Liquid`
/// and `Focus` sample the finished frame from an offscreen texture.
#[derive(Debug, Clone, Copy, PartialEq, Eq, Structural)]
pub enum SummonEffect {
    Plain,
    Bayer,
    Phosphor,
    Liquid,
    Focus,
}

impl SummonEffect {
    /// Place in the cycle order.
    pub open spec fn rank(self) -> int {
        match self {
            SummonEffect::Plain => 0,
            SummonEffect::Bayer => 1,
            SummonEffect::Phosphor => 2,
            SummonEffect::Liquid => 3,
            SummonEffect::Focus => 4,
        }
    }

    /// The key under which the effect is stored in the configuration.
    pub open spec fn key(self) -> Seq<char> {
        match self {
            SummonEffect::Plain => "none"@,
            SummonEffect::Bayer => "bayer"@,
            SummonEffect::Phosphor => "phosphor"@,
            SummonEffect::Liquid => "liquid"@,
            SummonEffect::Focus => "focus"@,
        }
    }

    /// The effect bends the whole scene, which it reads from a texture.
    pub open spec fn bends(self) -> bool {
        self == SummonEffect::Liquid || self == SummonEffect::Focus
    }

    /// Whether the effect needs the scene in a texture.
    pub fn is_tier_b(self) -> (r: bool)
        ensures
            r == self.bends(),
    {
        match self {
            SummonEffect::Liquid | SummonEffect::Focus => true,
            _ => false,
        }
    }

    /// How long the effect plays, in milliseconds.
    pub open spec fn millis(self) -> u64 {
        match self {
            SummonEffect::Plain => 0,
            SummonEffect::Bayer => 200,
            _ => 250,
        }
    }

    /// How long the effect plays, in milliseconds.
    pub fn duration_ms(self) -> (r: u64)
        ensures
            r == self.millis(),
    {
        match self {
            SummonEffect::Plain => 0,
            SummonEffect::Bayer => 200,
            _ => 250,
        }
    }

    /// The effect stored under `s`; an unknown key means `Phosphor`.
    pub fn from_config(s: &str) -> (r: SummonEffect)
        ensures
            r == from_key(s@),
    {
        proof {
            lemma_keys_differ();
        }
        if str_eq(s, "none") {
            SummonEffect::Plain
        } else if str_eq(s, "bayer") {
            SummonEffect::Bayer
        } else if str_eq(s, "liquid") {
            SummonEffect::Liquid
        } else if str_eq(s, "focus") {
            SummonEffect::Focus
        } else {
            SummonEffect::Phosphor
        }
    }

    /// The key under which the effect is stored.
    pub fn to_config(self) -> (r: &'static str)
        ensures
            r@ == self.key(),
    {
        match self {
            SummonEffect::Plain => "none",
            SummonEffect::Bayer => "bayer",
            SummonEffect::Phosphor => "phosphor",
            SummonEffect::Liquid => "liquid",
            SummonEffect::Focus => "focus",
        }
    }

    /// The name that the settings panel shows.
    pub fn display_name(self) -> (r: &'static str)
        ensures
            r@ == (match self {
                SummonEffect::Plain => "None"@,
                SummonEffect::Bayer => "Bayer"@,
                SummonEffect::Phosphor => "Phosphor"@,
                SummonEffect::Liquid => "Liquid"@,
                SummonEffect::Focus => "Focus"@,
            }),
    {
        match self {
            SummonEffect::Plain => "None",
            SummonEffect::Bayer => "Bayer",
            SummonEffect::Phosphor => "Phosphor",
            SummonEffect::Liquid => "Liquid",
            SummonEffect::Focus => "Focus",
        }
    }

    /// The next or previous effect; the order wraps around.
    pub fn cycle(self, forward: bool) -> (r: SummonEffect)
        ensures
            r.rank() == (self.rank() + if forward {
                1int
            } else {
                4
            }) % 5,
    {
        match (self, forward) {
            (SummonEffect::Plain, true) | (SummonEffect::Phosphor, false) => SummonEffect::Bayer,
            (SummonEffect::Bayer, true) | (SummonEffect::Liquid, false) => SummonEffect::Phosphor,
            (SummonEffect::Phosphor, true) | (SummonEffect::Focus, false) => SummonEffect::Liquid,
            (SummonEffect::Liquid, true) | (SummonEffect::Plain, false) => SummonEffect::Focus,
            (SummonEffect::Focus, true) | (SummonEffect::Bayer, false) => SummonEffect::Plain,
        }
    }
}

/// The effect whose key is `s`, or `Phosphor` where there is none.
pub open spec fn from_key(s: Seq<char>) -> SummonEffect {
    if exists|e: SummonEffect| #[trigger] e.key() == s {
        choose|e: SummonEffect| #[trigger] e.key() == s
    } else {
        SummonEffect::Phosphor
    }
}

/// No two effects share a key.
proof fn lemma_keys_differ()
    ensures
        forall|a: SummonEffect, b: SummonEffect| #[trigger] a.key() == #[trigger] b.key() ==> a == b,
        SummonEffect::Plain.key() == "none"@,
        SummonEffect::Bayer.key() == "bayer"@,
        SummonEffect::Phosphor.key() == "phosphor"@,
        SummonEffect::Liquid.key() == "liquid"@,
        SummonEffect::Focus.key() == "focus"@,
{
    reveal_strlit("none");
    reveal_strlit("bayer");
    reveal_strlit("phosphor");
    reveal_strlit("liquid");
    reveal_strlit("focus");
    assert("none"@[0] == 'n' && "bayer"@[0] == 'b' && "phosphor"@[0] == 'p' && "liquid"@[0] == 'l'
        && "focus"@[0] == 'f');
}

/// Storing an effect and loading it again gives the same effect.
pub proof fn law_effect_round_trip(e: SummonEffect)
    ensures
        from_key(e.key()) == e,
{
    lemma_keys_differ();
}

/// One step forward and one step back lead to where they started, in either
/// order: whatever `cycle` returns is undone by the step the other way.
pub proof fn law_effect_cycle_inverse(e: SummonEffect, there: SummonEffect, back: SummonEffect, forward: bool)
    requires
        there.rank() == (e.rank() + if forward {
            1int
        } else {
            4
        }) % 5,
        back.rank() == (there.rank() + if !forward {
            1int
        } else {
            4
        }) % 5,
    ensures
        back == e,
{
}

/// The effects in the order in which they are offered.
pub proof fn law_effects_in_order(e: SummonEffect, f: SummonEffect)
    ensures
        SummonEffect::Plain.rank() == 0,
        SummonEffect::Bayer.rank() == 1,
        SummonEffect::Phosphor.rank() == 2,
        SummonEffect::Liquid.rank() == 3,
        SummonEffect::Focus.rank() == 4,
        e.rank() == f.rank() ==> e == f,
{
}

/// The name under which each effect is written; any other name reads as the
/// phosphor effect.
pub proof fn law_effects_by_name(s: Seq<char>)
    ensures
        SummonEffect::Plain.key() == "none"@,
        SummonEffect::Bayer.key() == "bayer"@,
        SummonEffect::Phosphor.key() == "phosphor"@,
        SummonEffect::Liquid.key() == "liquid"@,
        SummonEffect::Focus.key() == "focus"@,
        from_key("none"@) == SummonEffect::Plain,
        from_key("bayer"@) == SummonEffect::Bayer,
        from_key("phosphor"@) == SummonEffect::Phosphor,
        from_key("liquid"@) == SummonEffect::Liquid,
        from_key("focus"@) == SummonEffect::Focus,
        s != "none"@ && s != "bayer"@ && s != "liquid"@ && s != "focus"@ ==> from_key(s)
            == SummonEffect::Phosphor,
{
    lemma_keys_differ();
    law_effect_round_trip(SummonEffect::Plain);
    law_effect_round_trip(SummonEffect::Bayer);
    law_effect_round_trip(SummonEffect::Phosphor);
    law_effect_round_trip(SummonEffect::Liquid);
    law_effect_round_trip(SummonEffect::Focus);
}

/// How long each effect runs, and which of them bend the picture.
pub proof fn law_effects_run(e: SummonEffect)
    ensures
        e.millis() == 0 <==> e == SummonEffect::Plain,
        SummonEffect::Bayer.millis() == 200,
        SummonEffect::Phosphor.millis() == 250,
        SummonEffect::Liquid.millis() == 250,
        SummonEffect::Focus.millis() == 250,
        SummonEffect::Liquid.bends() && SummonEffect::Focus.bends(),
        !SummonEffect::Plain.bends() && !SummonEffect::Bayer.bends()
            && !SummonEffect::Phosphor.bends(),
{
}

} // verus!
