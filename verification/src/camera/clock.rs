//! The wall clock, read through the `time` crate. Recordings are named after
//! the moment at which they start; what the clock says of it is taken as it
//! comes, and whatever uses the text is written to work for any text.

use vstd::prelude::*;

verus! {

#[verifier::external_type_specification]
#[verifier::external_body]
pub struct ExOffsetDateTime(time::OffsetDateTime);

#[verifier::external_type_specification]
#[verifier::external_body]
pub struct ExBorrowedFormatItem<'a>(time::format_description::BorrowedFormatItem<'a>);

#[verifier::external_type_specification]
#[verifier::external_body]
pub struct ExInvalidFormatDescription(time::error::InvalidFormatDescription);

#[verifier::external_type_specification]
#[verifier::external_body]
pub struct ExFormatError(time::error::Format);

/// Why no timestamp could be had.
#[derive(Copy, Clone, PartialEq, Eq, Structural, Debug)]
pub enum ClockError {
    /// The layout of the timestamp was not accepted.
    Description,
    /// The current moment could not be written in that layout.
    Format,
}

/// `time::format_description::parse_borrowed` for descriptions of the first
/// version of the syntax. Whether a text parses depends on the text alone.
#[verifier::external_body]
fn parse_description(text: &str) -> (parsed: Result<
    Vec<time::format_description::BorrowedFormatItem<'_>>,
    time::error::InvalidFormatDescription,
>)
    ensures
        parsed.is_ok() == description_parses(text@),
{
    time::format_description::parse_borrowed::<1>(text)
}

/// `time::OffsetDateTime::now_utc`: the moment by the system clock, unspecified.
#[verifier::external_body]
fn now_utc() -> (moment: time::OffsetDateTime) {
    time::OffsetDateTime::now_utc()
}

/// `time::OffsetDateTime::format`: the moment written as the description
/// lays out. Nothing is claimed of the outcome.
#[verifier::external_body]
fn format_moment(
    moment: time::OffsetDateTime,
    description: &Vec<time::format_description::BorrowedFormatItem<'_>>,
) -> (written: Result<String, time::error::Format>) {
    moment.format(description)
}

/// The current moment in UTC, laid out as year, month and day, then hour,
/// minute and second, with hyphens inside each group and a space between the
/// two. A moment that the clock gives but that does not come out in this
/// shape, such as one in a year of five numerals, counts as one that could
/// not be written.
pub fn timestamp() -> (stamp: Result<String, ClockError>)
    ensures
        stamp == Err::<String, ClockError>(ClockError::Description) <==> !description_parses(
            layout(),
        ),
        match stamp {
            Ok(text) => stamp_shaped(text@),
            Err(_) => true,
        },
{
    match parse_description("[year]-[month]-[day] [hour]-[minute]-[second]") {
        Ok(description) => {
            let now = now_utc();
            stamp_from(format_moment(now, &description))
        },
        Err(_) => Err(ClockError::Description),
    }
}

/// Whether `time::format_description::parse_borrowed` takes the text as a
/// description of the first version of the syntax.
pub uninterp spec fn description_parses(text: Seq<char>) -> bool;

/// The description of the layout in which [`timestamp`] writes a moment.
pub open spec fn layout() -> Seq<char> {
    "[year]-[month]-[day] [hour]-[minute]-[second]"@
}

/// Whether a character is one of the ten numerals.
pub open spec fn is_numeral(character: char) -> bool {
    '0' as u32 <= character as u32 <= '9' as u32
}

/// Whether a character may stand at a place of a timestamp: a hyphen inside
/// the date and inside the time, a space between the two, and a numeral
/// everywhere else.
pub open spec fn fits_stamp(place: int, character: char) -> bool {
    if place == 4 || place == 7 || place == 13 || place == 16 {
        character == '-'
    } else if place == 10 {
        character == ' '
    } else {
        is_numeral(character)
    }
}

/// Whether a text has the shape of a timestamp, `YYYY-MM-DD HH-MM-SS`: four
/// numerals, two and two with hyphens between them, a space, and two, two
/// and two numerals with hyphens between them.
pub open spec fn stamp_shaped(text: Seq<char>) -> bool {
    &&& text.len() == 19
    &&& forall|place: int| 0 <= place < 19 ==> fits_stamp(place, #[trigger] text[place])
}

/// Tells whether a text has the shape of a timestamp.
pub fn has_stamp_shape(text: &str) -> (shaped: bool)
    ensures
        shaped == stamp_shaped(text@),
{
    if text.unicode_len() != 19 {
        return false;
    }
    let mut place: usize = 0;
    while place < 19
        invariant
            place <= 19,
            text@.len() == 19,
            forall|before: int| 0 <= before < place ==> fits_stamp(before, #[trigger] text@[before]),
        decreases 19 - place,
    {
        let character = text.get_char(place);
        let code: u32 = character as u32;
        let fits = if place == 4 || place == 7 || place == 13 || place == 16 {
            character == '-'
        } else if place == 10 {
            character == ' '
        } else {
            48 <= code && code <= 57
        };
        if !fits {
            assert(!fits_stamp(place as int, text@[place as int]));
            return false;
        }
        place += 1;
    }
    true
}

/// What [`timestamp`] makes of the outcome of writing the moment: the text
/// as it was written where it has the shape of a timestamp, and else the
/// word that the moment could not be written.
pub fn stamp_from(written: Result<String, time::error::Format>) -> (stamp: Result<
    String,
    ClockError,
>)
    ensures
        match written {
            Ok(text) => stamp == if stamp_shaped(text@) {
                Ok::<String, ClockError>(text)
            } else {
                Err::<String, ClockError>(ClockError::Format)
            },
            Err(_) => stamp == Err::<String, ClockError>(ClockError::Format),
        },
{
    match written {
        Ok(text) => if has_stamp_shape(text.as_str()) {
            Ok(text)
        } else {
            Err(ClockError::Format)
        },
        Err(_) => Err(ClockError::Format),
    }
}

} // verus!
