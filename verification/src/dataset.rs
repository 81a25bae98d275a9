//! The composition dataset: per-species records, parsed from table lines.

use vstd::prelude::*;

use crate::error::ParseError;
use crate::numeric::is_float_literal;
use crate::numeric::is_float_token;
use crate::stage::StageTag;
use crate::stage::stage_of_label;
use crate::text::split_fields;
use crate::text::tokens;

verus! {

/// One nuclear species of the composition.
///
/// The seven numeric fields are kept in their textual form; a record built
/// by the loader carries the invariant that each is a decimal
/// floating-point literal, so a caller can convert them without error.
#[derive(Debug, Clone, PartialEq, Eq)]
pub struct SpeciesRecord {
    pub symbol: String,
    pub proton_number: String,
    pub mass_number: String,
    pub neutron_number: String,
    pub atomic_mass: String,
    pub solar_mass_fraction: String,
    pub mass_fraction: String,
    pub isotope_mass_fraction: String,
}

impl SpeciesRecord {
    /// Every numeric field is a decimal floating-point literal.
    pub open spec fn well_formed(self) -> bool {
        &&& is_float_literal(self.proton_number@)
        &&& is_float_literal(self.mass_number@)
        &&& is_float_literal(self.neutron_number@)
        &&& is_float_literal(self.atomic_mass@)
        &&& is_float_literal(self.solar_mass_fraction@)
        &&& is_float_literal(self.mass_fraction@)
        &&& is_float_literal(self.isotope_mass_fraction@)
    }
}

/// The fields of the record are exactly the first eight fields of the line,
/// in the fixed column order.
pub open spec fn record_matches(r: SpeciesRecord, toks: Seq<Seq<char>>) -> bool {
    &&& r.symbol@ == toks[0]
    &&& r.proton_number@ == toks[1]
    &&& r.mass_number@ == toks[2]
    &&& r.neutron_number@ == toks[3]
    &&& r.atomic_mass@ == toks[4]
    &&& r.solar_mass_fraction@ == toks[5]
    &&& r.mass_fraction@ == toks[6]
    &&& r.isotope_mass_fraction@ == toks[7]
}

/// A line is well-formed when it has at least eight fields and fields one
/// through seven are decimal floating-point literals.
pub open spec fn line_well_formed(s: Seq<char>) -> bool {
    &&& tokens(s).len() >= 8
    &&& forall|j: int| 1 <= j < 8 ==> is_float_literal(#[trigger] tokens(s)[j])
}

/// The first numeric field of `toks`, from `j` on, that is not a decimal
/// floating-point literal; 8 when all of them are.
pub open spec fn first_bad_field_from(toks: Seq<Seq<char>>, j: int) -> int
    decreases 8 - j when j <= 8
{
    if j >= 8 {
        8
    } else if !is_float_literal(toks[j]) {
        j
    } else {
        first_bad_field_from(toks, j + 1)
    }
}

/// The first numeric field that is not a decimal floating-point literal.
pub open spec fn first_bad_field(toks: Seq<Seq<char>>) -> int {
    first_bad_field_from(toks, 1)
}

/// The parse error a malformed line `s` at line index `k` is reported with.
pub open spec fn line_error(s: Seq<char>, k: int) -> ParseError
    recommends
        !line_well_formed(s),
        0 <= k,
{
    if tokens(s).len() < 8 {
        ParseError::MissingFields { line: k as usize }
    } else {
        ParseError::InvalidNumber { line: k as usize, field: first_bad_field(tokens(s)) as usize }
    }
}

/// Parses one table line into a species record.
///
/// The line is split on runs of whitespace; a line with fewer than eight
/// fields, or whose numeric fields are not all decimal floating-point
/// literals, is refused.  `line_index` only tags the error.
pub fn parse_line(line: &str, line_index: usize) -> (r: Result<SpeciesRecord, ParseError>)
    ensures
        line_well_formed(line@) ==> r is Ok && record_matches(r->Ok_0, tokens(line@))
            && r->Ok_0.well_formed(),
        !line_well_formed(line@) ==> r == Err::<SpeciesRecord, ParseError>(
            line_error(line@, line_index as int),
        ),
{
    let fields = split_fields(line);
    if fields.len() < 8 {
        return Err(ParseError::MissingFields { line: line_index });
    }
    let mut j: usize = 1;
    while j < 8
        invariant
            1 <= j <= 8,
            fields@.len() >= 8,
            fields@.len() == tokens(line@).len(),
            forall|k: int| 0 <= k < fields@.len() ==> #[trigger] fields@[k]@ == tokens(line@)[k],
            forall|m: int| 1 <= m < j ==> is_float_literal(#[trigger] tokens(line@)[m]),
            first_bad_field(tokens(line@)) == first_bad_field_from(tokens(line@), j as int),
        decreases 8 - j,
    {
        if !is_float_token(fields[j].as_str()) {
            return Err(ParseError::InvalidNumber { line: line_index, field: j });
        }
        j += 1;
    }
    Ok(
        SpeciesRecord {
            symbol: fields[0].clone(),
            proton_number: fields[1].clone(),
            mass_number: fields[2].clone(),
            neutron_number: fields[3].clone(),
            atomic_mass: fields[4].clone(),
            solar_mass_fraction: fields[5].clone(),
            mass_fraction: fields[6].clone(),
            isotope_mass_fraction: fields[7].clone(),
        },
    )
}

/// A composition dataset: a stage tag and the species in file order.
#[derive(Debug, Clone, PartialEq, Eq)]
pub struct Dataset {
    pub stage: StageTag,
    pub species: Vec<SpeciesRecord>,
}

impl Dataset {
    /// Every record carries well-formed numeric text.
    pub open spec fn well_formed(self) -> bool {
        forall|i: int|
            0 <= i < self.species@.len() ==> (#[trigger] self.species@[i]).well_formed()
    }

    /// True exactly when the dataset holds fewer than `limit` species; with
    /// the conventional bound of 100 this is the sanity check on the size of
    /// upstream simulation output.
    pub fn species_count_below(&self, limit: usize) -> (r: bool)
        ensures
            r == (self.species@.len() < limit),
    {
        self.species.len() < limit
    }
}

/// The number of leading lines the loader ignores as a header: one when the
/// table is non-empty and its first line is not a well-formed species line,
/// zero otherwise.
pub open spec fn header_skip(lines: Seq<String>) -> int {
    if lines.len() > 0 && !line_well_formed(lines[0]@) {
        1
    } else {
        0
    }
}

/// Parses the lines of a composition table into a dataset.
///
/// The stage label is checked first; then the lines are parsed in order,
/// and the dataset preserves that order, one record per line.  A table may
/// open with one header line; a first line that is not a well-formed
/// species line is that header and is ignored.  The result is `Ok` exactly
/// when the label is recognized and every line after the header is
/// well-formed; otherwise nothing is returned beyond the error for the
/// first malformed line, whose positions count the header line.
pub fn parse_dataset(stage_label: &str, lines: &Vec<String>) -> (r: Result<Dataset, ParseError>)
    ensures
        r is Ok <==> (stage_of_label(stage_label@) is Some && forall|i: int|
            header_skip(lines@) <= i < lines@.len() ==> line_well_formed(#[trigger] lines@[i]@)),
        r is Ok ==> {
            let d = r->Ok_0;
            let skip = header_skip(lines@);
            &&& Some(d.stage) == stage_of_label(stage_label@)
            &&& d.species@.len() == lines@.len() - skip
            &&& forall|i: int|
                skip <= i < lines@.len() ==> record_matches(
                    d.species@[i - skip],
                    tokens((#[trigger] lines@[i])@),
                )
            &&& d.well_formed()
        },
        stage_of_label(stage_label@) is None ==> r == Err::<Dataset, ParseError>(
            ParseError::UnknownStage,
        ),
        forall|k: int|
            stage_of_label(stage_label@) is Some && header_skip(lines@) <= k < lines@.len()
                && !line_well_formed((#[trigger] lines@[k])@) && (forall|m: int|
                header_skip(lines@) <= m < k ==> line_well_formed((#[trigger] lines@[m])@)) ==> r
                == Err::<Dataset, ParseError>(line_error(lines@[k]@, k)),
{
    let ghost skip = header_skip(lines@);
    let stage = match StageTag::from_label(stage_label) {
        Ok(t) => t,
        Err(e) => {
            return Err(e);
        },
    };
    let mut species: Vec<SpeciesRecord> = Vec::new();
    let mut i: usize = 0;
    if lines.len() > 0 {
        // an optional header: a first line that is no species line is ignored
        match parse_line(lines[0].as_str(), 0) {
            Ok(rec) => species.push(rec),
            Err(_) => {},
        }
        i = 1;
    }
    while i < lines.len()
        invariant
            skip == header_skip(lines@),
            Some(stage) == stage_of_label(stage_label@),
            i <= lines@.len(),
            i == 0 ==> lines@.len() == 0,
            skip <= i,
            species@.len() == i - skip,
            forall|m: int| skip <= m < i ==> line_well_formed((#[trigger] lines@[m])@),
            forall|m: int|
                skip <= m < i ==> record_matches(
                    species@[m - skip],
                    tokens((#[trigger] lines@[m])@),
                ),
            forall|m: int| 0 <= m < species@.len() ==> (#[trigger] species@[m]).well_formed(),
        decreases lines@.len() - i,
    {
        match parse_line(lines[i].as_str(), i) {
            Ok(rec) => species.push(rec),
            Err(e) => {
                return Err(e);
            },
        }
        i += 1;
    }
    Ok(Dataset { stage, species })
}

} // verus!
