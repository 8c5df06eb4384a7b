//! The fixed classification table from H-code to severity tier.
use vstd::prelude::*;

use crate::level::{label_of, HazardLevel};
use crate::text::same_text;

verus! {

/// Codes of the High tier: acute toxicity (fatal or toxic), severe skin or eye
/// damage, CMR category 1, STOT category 1, aspiration, respiratory
/// sensitisation and explosives of divisions 1.1 to 1.3.
pub open spec fn high_codes() -> Set<Seq<char>> {
    set![
        "H300"@, "H301"@, "H310"@, "H311"@, "H330"@, "H331"@,
        "H314"@, "H318"@,
        "H340"@, "H350"@, "H360"@,
        "H370"@, "H372"@,
        "H304"@,
        "H334"@,
        "H200"@, "H201"@, "H202"@, "H203"@,
    ]
}

/// Codes of the Medium tier: harmful, eye irritation and skin sensitisation,
/// CMR category 2, STOT category 2, and acute or chronic aquatic category 1.
pub open spec fn medium_codes() -> Set<Seq<char>> {
    set![
        "H302"@, "H312"@, "H332"@,
        "H319"@, "H317"@,
        "H341"@, "H351"@, "H361"@,
        "H371"@, "H373"@,
        "H400"@, "H410"@,
    ]
}

/// Codes of the Low tier: may be harmful, skin irritation, STOT single
/// exposure category 3, and chronic aquatic categories 2 to 4.
pub open spec fn low_codes() -> Set<Seq<char>> {
    set![
        "H303"@, "H313"@, "H333"@,
        "H315"@,
        "H335"@, "H336"@,
        "H411"@, "H412"@, "H413"@,
    ]
}

/// The tier of a code: exact, case-sensitive membership in the table, and
/// Unknown for anything not in it.
pub open spec fn level_of(code: Seq<char>) -> HazardLevel {
    if high_codes().contains(code) {
        HazardLevel::High
    } else if medium_codes().contains(code) {
        HazardLevel::Medium
    } else if low_codes().contains(code) {
        HazardLevel::Low
    } else {
        HazardLevel::Unknown
    }
}

/// The three characters after the first, read as decimal digits.
spec fn digits_key(c: Seq<char>) -> int {
    (c[1] as int - '0' as int) * 100 + (c[2] as int - '0' as int) * 10 + (c[3] as int - '0' as int)
}

/// Each code of the table is classified at the tier of its group: the three
/// groups share no code.
pub proof fn lemma_table_tiers(c: Seq<char>)
    ensures
        high_codes().contains(c) ==> level_of(c) == HazardLevel::High,
        medium_codes().contains(c) ==> level_of(c) == HazardLevel::Medium,
        low_codes().contains(c) ==> level_of(c) == HazardLevel::Low,
        !high_codes().contains(c) && !medium_codes().contains(c) && !low_codes().contains(c)
            ==> level_of(c) == HazardLevel::Unknown,
{
    reveal_strlit("H300");
    assert(digits_key("H300"@) == 300);
    reveal_strlit("H301");
    assert(digits_key("H301"@) == 301);
    reveal_strlit("H310");
    assert(digits_key("H310"@) == 310);
    reveal_strlit("H311");
    assert(digits_key("H311"@) == 311);
    reveal_strlit("H330");
    assert(digits_key("H330"@) == 330);
    reveal_strlit("H331");
    assert(digits_key("H331"@) == 331);
    reveal_strlit("H314");
    assert(digits_key("H314"@) == 314);
    reveal_strlit("H318");
    assert(digits_key("H318"@) == 318);
    reveal_strlit("H340");
    assert(digits_key("H340"@) == 340);
    reveal_strlit("H350");
    assert(digits_key("H350"@) == 350);
    reveal_strlit("H360");
    assert(digits_key("H360"@) == 360);
    reveal_strlit("H370");
    assert(digits_key("H370"@) == 370);
    reveal_strlit("H372");
    assert(digits_key("H372"@) == 372);
    reveal_strlit("H304");
    assert(digits_key("H304"@) == 304);
    reveal_strlit("H334");
    assert(digits_key("H334"@) == 334);
    reveal_strlit("H200");
    assert(digits_key("H200"@) == 200);
    reveal_strlit("H201");
    assert(digits_key("H201"@) == 201);
    reveal_strlit("H202");
    assert(digits_key("H202"@) == 202);
    reveal_strlit("H203");
    assert(digits_key("H203"@) == 203);
    reveal_strlit("H302");
    assert(digits_key("H302"@) == 302);
    reveal_strlit("H312");
    assert(digits_key("H312"@) == 312);
    reveal_strlit("H332");
    assert(digits_key("H332"@) == 332);
    reveal_strlit("H319");
    assert(digits_key("H319"@) == 319);
    reveal_strlit("H317");
    assert(digits_key("H317"@) == 317);
    reveal_strlit("H341");
    assert(digits_key("H341"@) == 341);
    reveal_strlit("H351");
    assert(digits_key("H351"@) == 351);
    reveal_strlit("H361");
    assert(digits_key("H361"@) == 361);
    reveal_strlit("H371");
    assert(digits_key("H371"@) == 371);
    reveal_strlit("H373");
    assert(digits_key("H373"@) == 373);
    reveal_strlit("H400");
    assert(digits_key("H400"@) == 400);
    reveal_strlit("H410");
    assert(digits_key("H410"@) == 410);
    reveal_strlit("H303");
    assert(digits_key("H303"@) == 303);
    reveal_strlit("H313");
    assert(digits_key("H313"@) == 313);
    reveal_strlit("H333");
    assert(digits_key("H333"@) == 333);
    reveal_strlit("H315");
    assert(digits_key("H315"@) == 315);
    reveal_strlit("H335");
    assert(digits_key("H335"@) == 335);
    reveal_strlit("H336");
    assert(digits_key("H336"@) == 336);
    reveal_strlit("H411");
    assert(digits_key("H411"@) == 411);
    reveal_strlit("H412");
    assert(digits_key("H412"@) == 412);
    reveal_strlit("H413");
    assert(digits_key("H413"@) == 413);
}

fn is_high(c: &str) -> (r: bool)
    ensures
        r == high_codes().contains(c@),
{
    same_text(c, "H300") || same_text(c, "H301") || same_text(c, "H310")
        || same_text(c, "H311") || same_text(c, "H330") || same_text(c, "H331")
        || same_text(c, "H314") || same_text(c, "H318")
        || same_text(c, "H340") || same_text(c, "H350") || same_text(c, "H360")
        || same_text(c, "H370") || same_text(c, "H372")
        || same_text(c, "H304")
        || same_text(c, "H334")
        || same_text(c, "H200") || same_text(c, "H201") || same_text(c, "H202")
        || same_text(c, "H203")
}

fn is_medium(c: &str) -> (r: bool)
    ensures
        r == medium_codes().contains(c@),
{
    same_text(c, "H302") || same_text(c, "H312") || same_text(c, "H332")
        || same_text(c, "H319") || same_text(c, "H317")
        || same_text(c, "H341") || same_text(c, "H351") || same_text(c, "H361")
        || same_text(c, "H371") || same_text(c, "H373")
        || same_text(c, "H400") || same_text(c, "H410")
}

fn is_low(c: &str) -> (r: bool)
    ensures
        r == low_codes().contains(c@),
{
    same_text(c, "H303") || same_text(c, "H313") || same_text(c, "H333")
        || same_text(c, "H315")
        || same_text(c, "H335") || same_text(c, "H336")
        || same_text(c, "H411") || same_text(c, "H412") || same_text(c, "H413")
}

/// The tier of one code, as an enumeration.
pub fn hazard_level(code: &str) -> (r: HazardLevel)
    ensures
        r == level_of(code@),
{
    if is_high(code) {
        HazardLevel::High
    } else if is_medium(code) {
        HazardLevel::Medium
    } else if is_low(code) {
        HazardLevel::Low
    } else {
        HazardLevel::Unknown
    }
}

/// The tier of one code, as its label: "High", "Medium", "Low" or "Unknown".
/// Any string is accepted; one outside the table gives "Unknown".
pub fn get_hazard_level(h_code: String) -> (r: String)
    ensures
        r@ == label_of(level_of(h_code@)),
{
    hazard_level(h_code.as_str()).label()
}

} // verus!
