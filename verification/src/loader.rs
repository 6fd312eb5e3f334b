//! Framing of the lines of a point list: one point per line, its two
//! coordinates separated by a comma.
//!
//! A line is cut at its commas into fields. The first field is the `x`
//! coordinate and the second the `y` coordinate; further fields are ignored. A
//! line without a comma holds no point. What the fields say as numbers is for
//! the caller to read.

use vstd::prelude::*;

verus! {

/// The byte that separates the fields of a line: an ASCII comma.
pub const SEPARATOR: u8 = 44;

/// Where the two coordinate fields of a line lie: `x` in `0..x_end`, `y` in
/// `y_start..y_end`.
#[derive(Clone, Copy, Debug, PartialEq, Eq, Structural)]
pub struct Fields {
    pub x_end: usize,
    pub y_start: usize,
    pub y_end: usize,
}

/// The end of the field that starts at `from`: the first position at or after
/// `from` that holds a separator, or the length of the line if there is none.
pub open spec fn field_end(line: Seq<u8>, from: int) -> int
    decreases line.len() - from,
{
    if from < 0 || from >= line.len() {
        line.len() as int
    } else if line[from] == SEPARATOR {
        from
    } else {
        field_end(line, from + 1)
    }
}

/// A line holds a point if it has a separator, so that a second field exists.
pub open spec fn has_point(line: Seq<u8>) -> bool {
    field_end(line, 0) < line.len()
}

/// The fields of a line that holds a point.
pub open spec fn fields_of(line: Seq<u8>) -> Fields {
    let x_end = field_end(line, 0);
    Fields {
        x_end: x_end as usize,
        y_start: (x_end + 1) as usize,
        y_end: field_end(line, x_end + 1) as usize,
    }
}

/// The bytes of the `x` field of a line that holds a point.
pub open spec fn x_field(line: Seq<u8>) -> Seq<u8> {
    line.subrange(0, field_end(line, 0))
}

/// The bytes of the `y` field of a line that holds a point.
pub open spec fn y_field(line: Seq<u8>) -> Seq<u8> {
    let y_start = field_end(line, 0) + 1;
    line.subrange(y_start, field_end(line, y_start))
}

/// A field ends within the line and at or after its start, holds no
/// separator, and is followed by a separator unless it runs to the end of the
/// line.
pub proof fn field_end_is_first_separator(line: Seq<u8>, from: int)
    requires
        0 <= from <= line.len(),
    ensures
        from <= field_end(line, from) <= line.len(),
        forall|k: int| from <= k < field_end(line, from) ==> line[k] != SEPARATOR,
        field_end(line, from) < line.len() ==> line[field_end(line, from)] == SEPARATOR,
    decreases line.len() - from,
{
    if from < line.len() && line[from] != SEPARATOR {
        field_end_is_first_separator(line, from + 1);
    }
}

/// Neither coordinate field of a line that holds a point contains a
/// separator, and the line begins with the `x` field, a separator and the `y`
/// field.
pub proof fn fields_are_separator_free(line: Seq<u8>)
    requires
        has_point(line),
    ensures
        !x_field(line).contains(SEPARATOR),
        !y_field(line).contains(SEPARATOR),
        (x_field(line) + seq![SEPARATOR] + y_field(line)).is_prefix_of(line),
{
    let x_end = field_end(line, 0);
    field_end_is_first_separator(line, 0);
    field_end_is_first_separator(line, x_end + 1);
    let y_end = field_end(line, x_end + 1);
    let joined = x_field(line) + seq![SEPARATOR] + y_field(line);
    assert(joined.len() == y_end);
    assert(joined =~= line.subrange(0, y_end));
}

fn find_field_end(line: &[u8], from: usize) -> (end: usize)
    requires
        from <= line@.len(),
    ensures
        end == field_end(line@, from as int),
        from <= end <= line@.len(),
{
    let mut i: usize = from;
    while i < line.len() && line[i] != SEPARATOR
        invariant
            from <= i <= line@.len(),
            field_end(line@, from as int) == field_end(line@, i as int),
        decreases line@.len() - i,
    {
        i += 1;
    }
    i
}

/// Cuts a line into its two coordinate fields. A line without a separator
/// holds no point and gives `None`.
pub fn split_record(line: &[u8]) -> (r: Option<Fields>)
    ensures
        r is Some <==> has_point(line@),
        r is Some ==> r == Some(fields_of(line@)),
        r matches Some(f) ==> {
            &&& f.x_end < f.y_start <= f.y_end <= line@.len()
            &&& line@.subrange(0, f.x_end as int) == x_field(line@)
            &&& line@.subrange(f.y_start as int, f.y_end as int) == y_field(line@)
        },
{
    let x_end = find_field_end(line, 0);
    if x_end == line.len() {
        None
    } else {
        let y_start = x_end + 1;
        let y_end = find_field_end(line, y_start);
        Some(Fields { x_end, y_start, y_end })
    }
}

} // verus!
