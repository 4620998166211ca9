//! The order of a list, as the query string of a list request gives it.

use crate::text::{leading, starts_with_char, trim_start_char, without_leading};
use vstd::prelude::*;

verus! {

/// The direction in which a field orders a list.
#[derive(Debug, PartialEq, Eq, Structural)]
pub enum SortDirection {
    /// Smallest first.
    Asc,
    /// Largest first.
    Desc,
}

/// A field to order a list by, and the direction. In a query string it is
/// the field's name, with `-` before it for descending order and `+` or
/// nothing for ascending.
#[derive(Debug)]
pub struct SortSpec<T> {
    pub field: T,
    pub direction: SortDirection,
}

/// The direction that a sort key asks for: descending if it begins with `-`.
pub open spec fn direction_of(data: Seq<char>) -> SortDirection {
    if data.len() > 0 && data[0] == '-' {
        SortDirection::Desc
    } else {
        SortDirection::Asc
    }
}

/// The name of the field in a sort key: what is left once the signs at the
/// front, all `-` or all `+`, and then the blanks at the front are gone.
pub open spec fn field_of(data: Seq<char>) -> Seq<char> {
    let unsigned = if data.len() > 0 && data[0] == '-' {
        without_leading(data, '-')
    } else if data.len() > 0 && data[0] == '+' {
        without_leading(data, '+')
    } else {
        data
    };
    without_leading(unsigned, ' ')
}

/// Takes a sort key apart into the direction and the name of the field.
///
/// A `+` in a query string arrives as a blank, so `sort=+username` is seen
/// as ` username`: blanks before the name are dropped.
pub fn sort_key<'a>(data: &'a str) -> (r: (SortDirection, &'a str))
    ensures
        r.0 == direction_of(data@),
        r.1@ == field_of(data@),
{
    let mut rest = data;
    let mut direction = SortDirection::Asc;
    if starts_with_char(rest, '-') {
        rest = trim_start_char(rest, '-');
        direction = SortDirection::Desc;
    } else if starts_with_char(rest, '+') {
        rest = trim_start_char(rest, '+');
    }
    rest = trim_start_char(rest, ' ');
    (direction, rest)
}

/// What reading the field came to, as far as a result tells.
pub open spec fn field_result<T, E>(r: Result<SortSpec<T>, E>) -> Result<T, E> {
    match r {
        Ok(spec) => Ok(spec.field),
        Err(e) => Err(e),
    }
}

impl<T> SortSpec<T> {
    /// Reads a sort key: takes the direction from its sign and hands the
    /// name of the field to `parse_field`. What `parse_field` makes of the
    /// name is the field; its error is the error of the whole.
    pub fn from_str<'v, E, F: FnOnce(&'v str) -> Result<T, E>>(data: &'v str, parse_field: F) -> (r:
        Result<SortSpec<T>, E>)
        requires
            forall|name: &str| #[trigger] parse_field.requires((name,)),
        ensures
            r matches Ok(spec) ==> spec.direction == direction_of(data@),
            exists|name: &str|
                name@ == field_of(data@) && #[trigger] parse_field.ensures(
                    (name,),
                    field_result(r),
                ),
    {
        let (direction, name) = sort_key(data);
        let r = match parse_field(name) {
            Ok(field) => Ok(SortSpec { field, direction }),
            Err(e) => Err(e),
        };
        proof {
            assert(parse_field.ensures((name,), field_result(r)));
        }
        r
    }

    /// The sign that the direction is written with.
    pub open spec fn sign(self) -> Seq<char> {
        if self.direction == SortDirection::Desc {
            "-"@
        } else {
            Seq::empty()
        }
    }

    /// The sort key as it is written in a query string, given the name of
    /// the field.
    pub fn fmt(&self, field: &str) -> (r: String)
        ensures
            r@ == self.sign() + field@,
    {
        let mut out = String::new();
        match self.direction {
            SortDirection::Desc => {
                out.append("-");
            },
            SortDirection::Asc => {
                proof {
                    assert(out@ + Seq::<char>::empty() =~= out@);
                }
            },
        }
        proof {
            assert(Seq::<char>::empty() + "-"@ =~= "-"@);
        }
        out.append(field);
        out
    }

    /// The sort specification that stands where a request names none.
    pub fn default() -> (r: Option<SortSpec<T>>)
        ensures
            r is None,
    {
        None
    }
}

/// A name without sign or blanks at its front is its own sort key, in
/// ascending order.
pub proof fn lemma_plain_name_is_its_own_key(name: Seq<char>)
    requires
        name.len() > 0,
        name[0] != '-',
        name[0] != '+',
        name[0] != ' ',
    ensures
        direction_of(name) == SortDirection::Asc,
        field_of(name) == name,
{
    assert(leading(name, ' ') == 0);
    assert(name.skip(0) =~= name);
}

/// Writing a sort key and reading it again gives the direction and the name
/// that went in, for a name without sign or blanks at its front.
pub proof fn lemma_written_key_reads_back<T>(spec: SortSpec<T>, name: Seq<char>)
    requires
        name.len() > 0,
        name[0] != '-',
        name[0] != '+',
        name[0] != ' ',
    ensures
        direction_of(spec.sign() + name) == spec.direction,
        field_of(spec.sign() + name) == name,
{
    reveal_strlit("-");
    let key = spec.sign() + name;
    if spec.direction == SortDirection::Desc {
        assert(key[0] == '-');
        assert(key[1] == name[0]);
        crate::text::lemma_leading_is(key, '-', 1);
        assert(key.skip(1) =~= name);
        assert(leading(name, ' ') == 0);
        assert(name.skip(0) =~= name);
    } else {
        assert(key =~= name);
        lemma_plain_name_is_its_own_key(name);
    }
}

} // verus!
