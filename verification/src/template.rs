//! The closed set of project templates, with their canonical display names
//! and short input aliases.

use vstd::prelude::*;

verus! {

/// A project template. Exactly one variant is chosen per invocation; the
/// mapping between variants and user-facing strings is bidirectional:
/// each variant has one canonical display name and one short alias.
#[derive(Clone, Copy, Debug, PartialEq, Eq, Structural)]
pub enum Template {
    Contracts,
    FPT,
    Base,
}

/// The canonical display name of a template, as a sequence of characters.
pub open spec fn display_of(t: Template) -> Seq<char> {
    match t {
        Template::Contracts => "Contracts Node Template"@,
        Template::FPT => "Frontier Parachain Template"@,
        Template::Base => "Base Parachain Template"@,
    }
}

/// Which template, if any, the string `s` selects: either a canonical
/// display name or a short alias picks the variant; anything else is
/// rejected.
pub open spec fn spec_parse_template(s: Seq<char>) -> Option<Template> {
    if s == "Contracts Node Template"@ || s == "cpt"@ {
        Some(Template::Contracts)
    } else if s == "Frontier Parachain Template"@ || s == "fpt"@ {
        Some(Template::FPT)
    } else if s == "Base Parachain Template"@ || s == "base"@ {
        Some(Template::Base)
    } else {
        None
    }
}

/// String equality over character sequences.
fn str_eq(a: &str, b: &str) -> (r: bool)
    ensures
        r == (a@ == b@),
{
    let sa = String::from_str(a);
    let sb = String::from_str(b);
    sa == sb
}

impl Template {
    /// The canonical display name of this template.
    pub fn display_name(&self) -> (r: &'static str)
        ensures
            r@ == display_of(*self),
    {
        match self {
            Template::Contracts => "Contracts Node Template",
            Template::FPT => "Frontier Parachain Template",
            Template::Base => "Base Parachain Template",
        }
    }

    /// Parses a template selector: accepts each canonical display name and
    /// each short alias, and rejects every other string.
    pub fn parse(s: &str) -> (r: Option<Template>)
        ensures
            r == spec_parse_template(s@),
    {
        if str_eq(s, "Contracts Node Template") || str_eq(s, "cpt") {
            Some(Template::Contracts)
        } else if str_eq(s, "Frontier Parachain Template") || str_eq(s, "fpt") {
            Some(Template::FPT)
        } else if str_eq(s, "Base Parachain Template") || str_eq(s, "base") {
            Some(Template::Base)
        } else {
            None
        }
    }
}

/// The alias table is bidirectional: every canonical display name parses
/// back to the template it names.
pub proof fn lemma_display_roundtrip(t: Template)
    ensures
        spec_parse_template(display_of(t)) == Some(t),
{
    reveal_strlit("Contracts Node Template");
    reveal_strlit("Frontier Parachain Template");
    reveal_strlit("Base Parachain Template");
    reveal_strlit("cpt");
    reveal_strlit("fpt");
    reveal_strlit("base");
    assert("Contracts Node Template"@.len() == 23);
    assert("Frontier Parachain Template"@.len() == 27);
    assert("Base Parachain Template"@.len() == 23);
    assert("cpt"@.len() == 3);
    assert("Base Parachain Template"@[0] == 'B');
    assert("Contracts Node Template"@[0] == 'C');
    assert("Base Parachain Template"@ != "Contracts Node Template"@);
}

} // verus!
