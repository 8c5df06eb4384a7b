use web_hazard_project::assess::{assess, assess_hazards};
use web_hazard_project::level::HazardLevel;
use web_hazard_project::table::{get_hazard_level, hazard_level};

fn level(code: &str) -> String {
    get_hazard_level(code.to_string())
}

fn assess_strs(codes: &[&str]) -> String {
    assess_hazards(codes.iter().map(|c| c.to_string()).collect())
}

const HIGH: [&str; 19] = ["H300", "H301", "H310", "H311", "H330", "H331", "H314", "H318", "H340", "H350", "H360", "H370", "H372", "H304", "H334", "H200", "H201", "H202", "H203"];
const MEDIUM: [&str; 12] = ["H302", "H312", "H332", "H319", "H317", "H341", "H351", "H361", "H371", "H373", "H400", "H410"];
const LOW: [&str; 9] = ["H303", "H313", "H333", "H315", "H335", "H336", "H411", "H412", "H413"];

#[test]
fn every_high_code_is_high() {
    for code in HIGH {
        assert_eq!(level(code), "High", "{}", code);
    }
}

#[test]
fn every_medium_code_is_medium() {
    for code in MEDIUM {
        assert_eq!(level(code), "Medium", "{}", code);
    }
}

#[test]
fn every_low_code_is_low() {
    for code in LOW {
        assert_eq!(level(code), "Low", "{}", code);
    }
}

#[test]
fn codes_outside_the_table_are_unknown() {
    for code in ["H999", "H100", "H220", "H290", "H305", "H316", "H401", "H420", "EUH014"] {
        assert_eq!(level(code), "Unknown", "{}", code);
    }
}

#[test]
fn empty_and_bogus_are_unknown() {
    assert_eq!(level(""), "Unknown");
    assert_eq!(level("bogus"), "Unknown");
}

#[test]
fn lookup_is_case_sensitive() {
    assert_eq!(level("h314"), "Unknown");
    assert_eq!(level("H314"), "High");
}

#[test]
fn lookup_does_not_trim_or_extend() {
    assert_eq!(level(" H314"), "Unknown");
    assert_eq!(level("H314 "), "Unknown");
    assert_eq!(level("H3140"), "Unknown");
    assert_eq!(level("H31"), "Unknown");
    assert_eq!(level("H\u{0663}14"), "Unknown");
    assert_eq!(level("\u{00e9}"), "Unknown");
}

#[test]
fn enum_lookup_agrees_with_labels() {
    assert_eq!(hazard_level("H200"), HazardLevel::High);
    assert_eq!(hazard_level("H410"), HazardLevel::Medium);
    assert_eq!(hazard_level("H336"), HazardLevel::Low);
    assert_eq!(hazard_level("H206"), HazardLevel::Unknown);
}

#[test]
fn ranks_and_labels() {
    let all = [HazardLevel::Unknown, HazardLevel::Low, HazardLevel::Medium, HazardLevel::High];
    let labels = ["Unknown", "Low", "Medium", "High"];
    for (i, l) in all.iter().enumerate() {
        assert_eq!(l.rank() as usize, i);
        assert_eq!(HazardLevel::from_rank(i as u8), *l);
        assert_eq!(l.label(), labels[i]);
    }
    assert_eq!(HazardLevel::from_rank(200), HazardLevel::High);
}

#[test]
fn assess_empty_is_unknown() {
    assert_eq!(assess_hazards(vec![]), "Unknown");
}

#[test]
fn assess_single_low() {
    assert_eq!(assess_strs(&["H413"]), "Low");
}

#[test]
fn assess_medium_beats_low() {
    assert_eq!(assess_strs(&["H413", "H302"]), "Medium");
    assert_eq!(assess_strs(&["H302", "H413"]), "Medium");
}

#[test]
fn assess_high_with_unknown_in_any_order() {
    let orders: [[&str; 3]; 6] = [
        ["H314", "H200", "H999"],
        ["H314", "H999", "H200"],
        ["H200", "H314", "H999"],
        ["H200", "H999", "H314"],
        ["H999", "H314", "H200"],
        ["H999", "H200", "H314"],
    ];
    for codes in orders {
        assert_eq!(assess_strs(&codes), "High");
    }
}

#[test]
fn assess_is_order_independent() {
    let orders: [[&str; 4]; 4] = [
        ["H315", "H413", "bogus", "H319"],
        ["H319", "H315", "H413", "bogus"],
        ["bogus", "H319", "H315", "H413"],
        ["H413", "bogus", "H319", "H315"],
    ];
    for codes in orders {
        assert_eq!(assess_strs(&codes), "Medium");
    }
}

#[test]
fn assess_ignores_duplicates() {
    assert_eq!(assess_strs(&["H315", "H315"]), assess_strs(&["H315"]));
    assert_eq!(assess_strs(&["H315", "H315"]), "Low");
}

#[test]
fn assess_only_unknown_codes() {
    assert_eq!(assess_strs(&["", "bogus", "h300"]), "Unknown");
}

#[test]
fn assess_single_code_matches_lookup() {
    for code in HIGH.iter().chain(MEDIUM.iter()).chain(LOW.iter()).chain(["H999"].iter()) {
        assert_eq!(assess_strs(&[code]), level(code), "{}", code);
    }
}

#[test]
fn assess_enum_form() {
    let codes: Vec<String> = vec!["H303".to_string(), "H372".to_string(), "H411".to_string()];
    assert_eq!(assess(&codes), HazardLevel::High);
    assert_eq!(assess(&[]), HazardLevel::Unknown);
}
