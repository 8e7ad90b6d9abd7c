//! The element parser: from two lines of text to an element set.
//!
//! The engine looks at the frame of the two lines itself (their length,
//! that they are ASCII, the line numbers, the blank columns between the
//! fields, the digits of the eccentricity, and the checksum that closes
//! each line) and leaves the fields to the propagation model.

use vstd::prelude::*;
use crate::model::elements_from_tle;
use crate::model::epoch_millis_of;
use crate::model::model_elements;
use crate::model::model_epoch_millis;
use crate::model::LINE_LENGTH;

verus! {

/// Why two lines are no element set.
#[derive(Clone, Copy, Debug, PartialEq, Eq, Structural)]
pub enum ParseError {
    /// One of the lines is not 69 bytes long.
    LineLength,
    /// The last byte of a line is not the checksum of the bytes before it.
    Checksum,
    /// A byte is not ASCII, a line does not start with its number, a
    /// column that must be blank is not, the eccentricity is not seven
    /// digits, or the propagation model cannot read a field: a number is
    /// no number, the exponent of a drag term is malformed, the epoch is
    /// no date.
    Malformed,
}

/// What an element set is to its users: the name it was given, its epoch,
/// and the orbital parameters as the propagation model holds them.
pub struct ElementSetModel {
    pub name: Option<Seq<char>>,
    /// Milliseconds since 1970-01-01T00:00:00 UTC.
    pub epoch_millis: int,
    pub fields: sgp4::Elements,
}

/// A parsed element set. It is never changed once it is made.
#[derive(Debug)]
pub struct ElementSet {
    name: Option<String>,
    epoch_millis: i64,
    fields: sgp4::Elements,
}

/// The characters of an optional name.
pub open spec fn name_view(name: Option<String>) -> Option<Seq<char>> {
    match name {
        Some(s) => Some(s@),
        None => None,
    }
}

/// Every byte of the line is ASCII.
pub open spec fn is_ascii(line: Seq<u8>) -> bool {
    forall|i: int| 0 <= i < line.len() ==> #[trigger] line[i] < 0x80
}

/// The columns of the first line that separate its fields, counted from
/// zero.
pub open spec fn separates_first(column: int) -> bool {
    column == 1 || column == 8 || column == 17 || column == 32 || column == 43 || column == 52
        || column == 61 || column == 63
}

/// The columns of the second line that separate its fields, counted from
/// zero.
pub open spec fn separates_second(column: int) -> bool {
    column == 1 || column == 7 || column == 16 || column == 25 || column == 33 || column == 42
        || column == 51
}

/// The first line starts with the digit 1, and the columns that separate
/// its fields are blank.
pub open spec fn first_line_is_laid_out(line: Seq<u8>) -> bool {
    &&& line.len() == LINE_LENGTH
    &&& line[0] == 0x31
    &&& forall|column: int| separates_first(column) ==> #[trigger] line[column] == 0x20
}

/// The columns of the second line that hold the eccentricity, counted
/// from zero.
pub open spec fn holds_eccentricity(column: int) -> bool {
    26 <= column < 33
}

/// The second line starts with the digit 2, the columns that separate its
/// fields are blank, and the eccentricity is written as seven digits: the
/// decimals of a number in [0, 1).
pub open spec fn second_line_is_laid_out(line: Seq<u8>) -> bool {
    &&& line.len() == LINE_LENGTH
    &&& line[0] == 0x32
    &&& forall|column: int| separates_second(column) ==> #[trigger] line[column] == 0x20
    &&& forall|column: int| holds_eccentricity(column) ==> 0x30 <= #[trigger] line[column] <= 0x39
}

/// What one byte adds to the checksum of its line: a digit its value, a
/// minus sign one, anything else nothing.
pub open spec fn checksum_weight(byte: u8) -> int {
    if 0x30 <= byte <= 0x39 {
        byte - 0x30
    } else if byte == 0x2D {
        1
    } else {
        0
    }
}

/// The sum of the weights of all bytes.
pub open spec fn checksum_sum(payload: Seq<u8>) -> int
    decreases payload.len(),
{
    if payload.len() == 0 {
        0
    } else {
        checksum_sum(payload.drop_last()) + checksum_weight(payload.last())
    }
}

/// The checksum of the bytes of a line that come before its last: the last
/// decimal digit of their weights' sum.
pub open spec fn checksum(payload: Seq<u8>) -> int {
    checksum_sum(payload) % 10
}

/// The line ends in a digit, and that digit is the checksum of the bytes
/// before it.
pub open spec fn checksum_holds(line: Seq<u8>) -> bool {
    &&& line.len() > 0
    &&& 0x30 <= line.last() <= 0x39
    &&& line.last() - 0x30 == checksum(line.drop_last())
}

/// The fault in the frame of the two lines, if there is one. The length is
/// looked at first, then the encoding, then the layout, then the
/// checksums.
pub open spec fn frame_error(line1: Seq<u8>, line2: Seq<u8>) -> Option<ParseError> {
    if line1.len() != LINE_LENGTH || line2.len() != LINE_LENGTH {
        Some(ParseError::LineLength)
    } else if !is_ascii(line1) || !is_ascii(line2) {
        Some(ParseError::Malformed)
    } else if !first_line_is_laid_out(line1) || !second_line_is_laid_out(line2) {
        Some(ParseError::Malformed)
    } else if !checksum_holds(line1) || !checksum_holds(line2) {
        Some(ParseError::Checksum)
    } else {
        None
    }
}

/// The element set with the given name and the fields that the model has
/// read, or `Malformed` where the model has read none.
pub open spec fn element_set_of(name: Option<Seq<char>>, fields: Option<sgp4::Elements>) -> Result<
    ElementSetModel,
    ParseError,
> {
    match fields {
        Some(f) => Ok(ElementSetModel { name, epoch_millis: model_epoch_millis(f) as int, fields: f }),
        None => Err(ParseError::Malformed),
    }
}

/// What `parse` makes of a name and two lines.
pub open spec fn parsed(name: Option<Seq<char>>, line1: Seq<u8>, line2: Seq<u8>) -> Result<
    ElementSetModel,
    ParseError,
> {
    match frame_error(line1, line2) {
        Some(e) => Err(e),
        None => element_set_of(name, model_elements(line1, line2)),
    }
}

impl View for ElementSet {
    type V = ElementSetModel;

    closed spec fn view(&self) -> ElementSetModel {
        ElementSetModel {
            name: name_view(self.name),
            epoch_millis: self.epoch_millis as int,
            fields: self.fields,
        }
    }
}

impl ElementSet {
    /// The epoch that the element set carries is the epoch of its fields.
    #[verifier::type_invariant]
    pub closed spec fn well_formed(self) -> bool {
        self.epoch_millis == model_epoch_millis(self.fields)
    }

    /// Makes an element set of a name and of what the model's parser
    /// returned for two lines.
    pub fn from_model(name: Option<String>, read: Result<sgp4::Elements, sgp4::TleError>) -> (r:
        Result<ElementSet, ParseError>)
        ensures
            match r {
                Ok(e) => e.well_formed() && read.is_ok() && element_set_of(
                    name_view(name),
                    Some(read.unwrap()),
                ) == Ok::<ElementSetModel, ParseError>(e@),
                Err(e) => read.is_err() && e == ParseError::Malformed,
            },
    {
        match read {
            Ok(fields) => {
                let epoch_millis: i64 = epoch_millis_of(&fields);
                Ok(ElementSet { name, epoch_millis, fields })
            },
            Err(_) => Err(ParseError::Malformed),
        }
    }

    /// The name that the element set was given.
    pub fn name(&self) -> (name: &Option<String>)
        ensures
            name_view(*name) == self@.name,
    {
        &self.name
    }

    /// The epoch in milliseconds since 1970-01-01T00:00:00 UTC.
    pub fn epoch_millis(&self) -> (millis: i64)
        ensures
            millis == self@.epoch_millis,
    {
        self.epoch_millis
    }

    /// The orbital parameters, as the propagation model holds them.
    pub fn fields(&self) -> (fields: &sgp4::Elements)
        ensures
            *fields == self@.fields,
    {
        &self.fields
    }

    /// An element set carries the epoch of its fields.
    pub proof fn epoch_is_of_fields(self)
        requires
            self.well_formed(),
        ensures
            self@.epoch_millis == model_epoch_millis(self@.fields),
    {
    }
}

/// Tells whether every byte of a line is ASCII.
pub fn line_is_ascii(line: &[u8]) -> (b: bool)
    ensures
        b == is_ascii(line@),
{
    let mut i: usize = 0;
    while i < line.len()
        invariant
            i <= line.len(),
            forall|k: int| 0 <= k < i ==> #[trigger] line@[k] < 0x80,
        decreases line.len() - i,
    {
        if line[i] >= 0x80 {
            return false;
        }
        i += 1;
    }
    true
}

/// Tells whether a line is laid out as the first line of an element set.
pub fn first_line_has_layout(line: &[u8]) -> (b: bool)
    ensures
        b == first_line_is_laid_out(line@),
{
    line.len() == LINE_LENGTH && line[0] == 0x31 && line[1] == 0x20 && line[8] == 0x20 && line[17]
        == 0x20 && line[32] == 0x20 && line[43] == 0x20 && line[52] == 0x20 && line[61] == 0x20
        && line[63] == 0x20
}

/// Tells whether a line is laid out as the second line of an element set.
pub fn second_line_has_layout(line: &[u8]) -> (b: bool)
    ensures
        b == second_line_is_laid_out(line@),
{
    if !(line.len() == LINE_LENGTH && line[0] == 0x32 && line[1] == 0x20 && line[7] == 0x20
        && line[16] == 0x20 && line[25] == 0x20 && line[33] == 0x20 && line[42] == 0x20 && line[51]
        == 0x20) {
        return false;
    }
    let mut column: usize = 26;
    while column < 33
        invariant
            line.len() == LINE_LENGTH,
            26 <= column <= 33,
            forall|c: int| 26 <= c < column ==> 0x30 <= #[trigger] line@[c] <= 0x39,
        decreases 33 - column,
    {
        if line[column] < 0x30 || line[column] > 0x39 {
            return false;
        }
        column += 1;
    }
    true
}

/// Tells whether a line ends in the checksum of the bytes before it.
pub fn line_checksum_holds(line: &[u8]) -> (b: bool)
    ensures
        b == checksum_holds(line@),
{
    if line.len() == 0 {
        return false;
    }
    let end: usize = line.len() - 1;
    let mut acc: u8 = 0;
    let mut i: usize = 0;
    while i < end
        invariant
            end == line.len() - 1,
            i <= end,
            acc < 10,
            acc == checksum(line@.subrange(0, i as int)),
        decreases end - i,
    {
        let byte: u8 = line[i];
        let weight: u8 = if 0x30 <= byte && byte <= 0x39 {
            byte - 0x30
        } else if byte == 0x2D {
            1
        } else {
            0
        };
        proof {
            let next = line@.subrange(0, i + 1);
            assert(next.drop_last() == line@.subrange(0, i as int));
            assert(next.last() == byte);
        }
        acc = (acc + weight) % 10;
        i += 1;
    }
    proof {
        assert(line@.subrange(0, end as int) == line@.drop_last());
    }
    let last: u8 = line[end];
    0x30 <= last && last <= 0x39 && last - 0x30 == acc
}

/// Parses a two-line element set.
///
/// The lines are refused for their frame alone where one of them is not 69
/// bytes long (`LineLength`), holds a byte that is not ASCII, does not
/// start with its number, has a separating column that is not blank or an
/// eccentricity that is not seven digits (`Malformed`), or does not end in
/// its checksum (`Checksum`). Lines with
/// a sound frame are read by the propagation model, and are `Malformed`
/// where it cannot read them.
pub fn parse(name: Option<String>, line1: &[u8], line2: &[u8]) -> (r: Result<
    ElementSet,
    ParseError,
>)
    ensures
        match r {
            Ok(e) => e.well_formed() && parsed(name_view(name), line1@, line2@) == Ok::<
                ElementSetModel,
                ParseError,
            >(e@),
            Err(e) => parsed(name_view(name), line1@, line2@) == Err::<ElementSetModel, ParseError>(
                e,
            ),
        },
{
    if line1.len() != LINE_LENGTH || line2.len() != LINE_LENGTH {
        return Err(ParseError::LineLength);
    }
    if !line_is_ascii(line1) || !line_is_ascii(line2) {
        return Err(ParseError::Malformed);
    }
    if !first_line_has_layout(line1) || !second_line_has_layout(line2) {
        return Err(ParseError::Malformed);
    }
    if !line_checksum_holds(line1) || !line_checksum_holds(line2) {
        return Err(ParseError::Checksum);
    }
    let read = elements_from_tle(line1, line2);
    ElementSet::from_model(name, read)
}

} // verus!
