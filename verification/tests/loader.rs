use nse_entropy::dataset::parse_dataset;
use nse_entropy::dataset::parse_line;
use nse_entropy::error::ParseError;
use nse_entropy::stage::StageTag;

fn table() -> Vec<String> {
    vec![
        "h1   1  1  0  1.0078  7.1e-1  0.5    1.0".to_string(),
        "he4  2  4  2  4.0026  2.7e-1  0.3    0.8".to_string(),
        "ni56 28 56 28 55.942  1e-8    2e-1   0.1".to_string(),
    ]
}

#[test]
fn three_lines_three_species_in_order() {
    let lines = table();
    let d = parse_dataset("NSE", &lines).unwrap();
    assert_eq!(d.stage, StageTag::Nse);
    assert_eq!(d.species.len(), 3);
    assert_eq!(d.species[0].symbol, "h1");
    assert_eq!(d.species[1].symbol, "he4");
    assert_eq!(d.species[2].symbol, "ni56");
}

#[test]
fn fields_map_in_fixed_column_order() {
    let lines = table();
    let d = parse_dataset("last", &lines).unwrap();
    let r = &d.species[1];
    assert_eq!(r.symbol, "he4");
    assert_eq!(r.proton_number, "2");
    assert_eq!(r.mass_number, "4");
    assert_eq!(r.neutron_number, "2");
    assert_eq!(r.atomic_mass, "4.0026");
    assert_eq!(r.solar_mass_fraction, "2.7e-1");
    assert_eq!(r.mass_fraction, "0.3");
    assert_eq!(r.isotope_mass_fraction, "0.8");
}

#[test]
fn seven_fields_is_a_parse_error() {
    let mut lines = table();
    lines[1] = "he4 2 4 2 4.0026 2.7e-1 0.3".to_string();
    let r = parse_dataset("NSE", &lines);
    assert_eq!(r, Err(ParseError::MissingFields { line: 1 }));
}

#[test]
fn non_numeric_field_is_a_parse_error() {
    let mut lines = table();
    lines[2] = "ni56 28 56 28 fast 1e-8 2e-1 0.1".to_string();
    let r = parse_dataset("NSE", &lines);
    assert_eq!(r, Err(ParseError::InvalidNumber { line: 2, field: 4 }));
}

#[test]
fn first_malformed_line_is_reported() {
    let mut lines = table();
    lines[1] = "he4 2 4 2 4.0026 0.27 ? 0.8".to_string();
    lines[2] = "ni56 28".to_string();
    let r = parse_dataset("NSE", &lines);
    assert_eq!(r, Err(ParseError::InvalidNumber { line: 1, field: 6 }));
}

#[test]
fn header_line_is_ignored() {
    let mut lines = vec!["symbol Z A N mass solarMF MF isotopeMF".to_string()];
    lines.extend(table());
    let d = parse_dataset("NSE", &lines).unwrap();
    assert_eq!(d.species.len(), 3);
    assert_eq!(d.species[0].symbol, "h1");
    assert_eq!(d.species[2].symbol, "ni56");
}

#[test]
fn only_a_header_yields_an_empty_dataset() {
    let lines = vec!["# composition at freeze-out".to_string()];
    let d = parse_dataset("freezeout", &lines).unwrap();
    assert_eq!(d.species.len(), 0);
}

#[test]
fn a_malformed_line_after_the_header_is_still_an_error() {
    let lines = vec![
        "symbol Z A N mass solarMF MF isotopeMF".to_string(),
        "he4 2 4 2 4.0026 2.7e-1 0.3".to_string(),
    ];
    let r = parse_dataset("NSE", &lines);
    assert_eq!(r, Err(ParseError::MissingFields { line: 1 }));
}

#[test]
fn a_well_formed_first_line_is_not_a_header() {
    let lines = table();
    let d = parse_dataset("NSE", &lines).unwrap();
    assert_eq!(d.species.len(), 3);
    assert_eq!(d.species[0].symbol, "h1");
}

#[test]
fn empty_line_has_no_fields() {
    let mut lines = table();
    lines.push("   ".to_string());
    let r = parse_dataset("NSE", &lines);
    assert_eq!(r, Err(ParseError::MissingFields { line: 3 }));
}

#[test]
fn extra_fields_are_ignored() {
    let lines = vec!["c12 6 12 6 12.0 2e-3 1e-2 0.5 trailing note".to_string()];
    let d = parse_dataset("freezeout", &lines).unwrap();
    assert_eq!(d.stage, StageTag::Freezeout);
    assert_eq!(d.species[0].isotope_mass_fraction, "0.5");
}

#[test]
fn runs_of_whitespace_separate_fields() {
    let r = parse_line("\t o16  8\t16 8   15.994\t\t7e-3 1e-4 0.2  ", 0).unwrap();
    assert_eq!(r.symbol, "o16");
    assert_eq!(r.mass_fraction, "1e-4");
}

#[test]
fn unicode_whitespace_separates_fields() {
    // no-break space, form feed and ideographic space count as separators,
    // as they do for std's split_whitespace
    let r = parse_line("si28\u{00A0}14 28\u{000C}14 27.976\u{3000}1e-3 4e-2 0.6", 0).unwrap();
    assert_eq!(r.symbol, "si28");
    assert_eq!(r.neutron_number, "14");
    assert_eq!(r.mass_fraction, "4e-2");
}

#[test]
fn unknown_stage_label_is_refused() {
    let lines = table();
    assert_eq!(parse_dataset("nse", &lines), Err(ParseError::UnknownStage));
    assert_eq!(parse_dataset("Freezeout", &lines), Err(ParseError::UnknownStage));
    assert_eq!(parse_dataset("", &lines), Err(ParseError::UnknownStage));
}

#[test]
fn empty_table_is_an_empty_dataset() {
    let lines: Vec<String> = Vec::new();
    let d = parse_dataset("Information", &lines).unwrap();
    assert_eq!(d.stage, StageTag::Information);
    assert_eq!(d.species.len(), 0);
}

#[test]
fn species_count_bound() {
    let lines = table();
    let d = parse_dataset("NSE", &lines).unwrap();
    assert!(d.species_count_below(100));
    assert!(d.species_count_below(4));
    assert!(!d.species_count_below(3));
    assert!(!d.species_count_below(0));
}

#[test]
fn stage_labels_round_trip() {
    let tags = [StageTag::Nse, StageTag::Freezeout, StageTag::Last, StageTag::Information];
    for t in tags {
        assert_eq!(StageTag::from_label(t.label().as_str()), Ok(t));
    }
    assert_eq!(StageTag::Nse.label(), "NSE");
    assert_eq!(StageTag::Freezeout.label(), "freezeout");
    assert_eq!(StageTag::Last.label(), "last");
    assert_eq!(StageTag::Information.label(), "Information");
}
