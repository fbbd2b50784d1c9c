//! The plan by which the fonts of the system are registered at startup.
//!
//! Two fonts are looked up, one for proportional text and one for monospaced
//! text. Either both are registered, each in front of the fonts that its
//! family already has, or the defaults stay as they are.

use vstd::prelude::*;

verus! {

/// The name under which the proportional system font is registered.
pub open spec fn spec_system_font_name() -> Seq<char> {
    "system"@
}

/// The name under which the monospaced system font is registered.
pub open spec fn spec_mono_font_name() -> Seq<char> {
    "mono"@
}

/// The bytes of the two fonts that were found.
#[derive(Debug, Clone, PartialEq, Eq)]
pub struct FontPlan {
    /// The font for proportional text.
    pub system: Vec<u8>,
    /// The font for monospaced text.
    pub mono: Vec<u8>,
}

/// Decides what to register from what the lookups gave. There is a plan only
/// where both fonts were found and loaded; it holds their bytes unchanged.
pub fn plan_fonts(system: Option<Vec<u8>>, mono: Option<Vec<u8>>) -> (plan: Option<FontPlan>)
    ensures
        plan.is_some() <==> system.is_some() && mono.is_some(),
        plan matches Some(p) ==> p.system@ == system.unwrap()@ && p.mono@ == mono.unwrap()@,
{
    match system {
        Some(system) => match mono {
            Some(mono) => Some(FontPlan { system, mono }),
            None => None,
        },
        None => None,
    }
}

/// The name under which the proportional system font is registered.
pub fn system_font_name() -> (name: String)
    ensures
        name@ == spec_system_font_name(),
{
    "system".to_owned()
}

/// The name under which the monospaced system font is registered.
pub fn mono_font_name() -> (name: String)
    ensures
        name@ == spec_mono_font_name(),
{
    "mono".to_owned()
}

/// Puts `name` in front of the fonts of a family, so that it is tried first;
/// the fonts that were there follow in their order.
pub fn prefer_font(family: &mut Vec<String>, name: String)
    ensures
        final(family)@ == seq![name] + old(family)@,
        final(family)@.len() == old(family)@.len() + 1,
        final(family)@[0] == name,
{
    family.insert(0, name);
    proof {
        assert(family@ =~= seq![name] + old(family)@);
    }
}

} // verus!
