//! Conditions on a field, as the query string of a list request gives them:
//! an operator by name, and the value or values to compare with.

use crate::error::ParseError;
use crate::text::{decimal_text, digit_char, digits, same_text, split_char, split_on};
use vstd::prelude::*;

verus! {

/// A condition on a field.
///
/// A list request adds conditions through query parameters of the form
/// `filter[field].op=value`; `filter.field.op=value` and
/// `filter[field]op=value` mean the same. Without an operator the
/// condition is `Eq`. The operands of `EqAny` come separated by commas, so
/// none of them can hold a comma.
#[derive(Debug)]
pub enum FilterOperator<T> {
    /// The field equals the operand: `filter[field].eq=value`.
    Eq(T),
    /// The field differs from the operand: `filter[field].ne=value`.
    Ne(T),
    /// The field is greater than the operand: `filter[field].gt=value`.
    Gt(T),
    /// The field is greater than or equal to the operand.
    Ge(T),
    /// The field is less than the operand: `filter[field].lt=value`.
    Lt(T),
    /// The field is less than or equal to the operand.
    Le(T),
    /// The field equals one of the operands: `filter[field].in=a,b,c`.
    EqAny(Vec<T>),
}

/// The operators, by what they compare.
#[derive(Debug, Clone, Copy, PartialEq, Eq, Structural)]
pub enum Operator {
    Eq,
    Ne,
    Gt,
    Ge,
    Lt,
    Le,
    In,
}

/// The operator that a name stands for.
pub open spec fn operator_named(op: Seq<char>) -> Option<Operator> {
    if op == "eq"@ {
        Some(Operator::Eq)
    } else if op == "ne"@ {
        Some(Operator::Ne)
    } else if op == "gt"@ {
        Some(Operator::Gt)
    } else if op == "ge"@ {
        Some(Operator::Ge)
    } else if op == "lt"@ {
        Some(Operator::Lt)
    } else if op == "le"@ {
        Some(Operator::Le)
    } else if op == "in"@ {
        Some(Operator::In)
    } else {
        None
    }
}

impl Operator {
    /// The operator that a name stands for.
    pub fn named(op: &str) -> (r: Option<Operator>)
        ensures
            r == operator_named(op@),
    {
        if same_text(op, "eq") {
            Some(Operator::Eq)
        } else if same_text(op, "ne") {
            Some(Operator::Ne)
        } else if same_text(op, "gt") {
            Some(Operator::Gt)
        } else if same_text(op, "ge") {
            Some(Operator::Ge)
        } else if same_text(op, "lt") {
            Some(Operator::Lt)
        } else if same_text(op, "le") {
            Some(Operator::Le)
        } else if same_text(op, "in") {
            Some(Operator::In)
        } else {
            None
        }
    }
}

/// A type whose values can stand as operands: it says which texts it reads,
/// and which value each of them denotes.
pub trait Operand: Sized {
    /// Whether `text` can be read as a value.
    spec fn accepts(text: Seq<char>) -> bool;

    /// Whether `value` is what `text` reads as.
    spec fn denotes(text: Seq<char>, value: Self) -> bool;

    /// Reads a value.
    fn parse_operand(text: &str) -> (r: Result<Self, ParseError>)
        ensures
            match r {
                Ok(value) => Self::accepts(text@) && Self::denotes(text@, value),
                Err(_) => !Self::accepts(text@),
            },
    ;
}

pub open spec fn is_digit(c: char) -> bool {
    '0' <= c && c <= '9'
}

/// The number that a run of decimal digits writes.
pub open spec fn digits_value(s: Seq<char>) -> int
    decreases s.len(),
{
    if s.len() == 0 {
        0
    } else {
        digits_value(s.drop_last()) * 10 + (s.last() as int - '0' as int)
    }
}

/// The integer that a text writes: an optional sign, then one or more
/// decimal digits and nothing else.
pub open spec fn integer_of(s: Seq<char>) -> Option<int> {
    let signed = s.len() > 0 && (s[0] == '+' || s[0] == '-');
    let body = if signed {
        s.drop_first()
    } else {
        s
    };
    if body.len() > 0 && forall|i: int| 0 <= i < body.len() ==> is_digit(#[trigger] body[i]) {
        Some(
            if signed && s[0] == '-' {
                -digits_value(body)
            } else {
                digits_value(body)
            },
        )
    } else {
        None
    }
}

/// The truth value that a text writes.
pub open spec fn bool_of(s: Seq<char>) -> Option<bool> {
    if s == "true"@ {
        Some(true)
    } else if s == "false"@ {
        Some(false)
    } else {
        None
    }
}

/// Calls `str::parse::<i32>`. std documents the texts it reads as an
/// optional sign followed by decimal digits only, and fails on a value
/// outside the type: the contract says that and no more.
#[verifier::external_body]
fn parse_i32(text: &str) -> (r: Result<i32, core::num::ParseIntError>)
    ensures
        match r {
            Ok(value) => integer_of(text@) == Some(value as int),
            Err(_) => match integer_of(text@) {
                Some(n) => n < i32::MIN || n > i32::MAX,
                None => true,
            },
        },
{
    text.parse::<i32>()
}

/// Calls `str::parse::<i64>`. std documents the texts it reads as an
/// optional sign followed by decimal digits only, and fails on a value
/// outside the type: the contract says that and no more.
#[verifier::external_body]
fn parse_i64(text: &str) -> (r: Result<i64, core::num::ParseIntError>)
    ensures
        match r {
            Ok(value) => integer_of(text@) == Some(value as int),
            Err(_) => match integer_of(text@) {
                Some(n) => n < i64::MIN || n > i64::MAX,
                None => true,
            },
        },
{
    text.parse::<i64>()
}

/// Calls `str::parse::<bool>`, which reads `true` and `false` and nothing
/// else.
#[verifier::external_body]
fn parse_bool(text: &str) -> (r: Result<bool, core::str::ParseBoolError>)
    ensures
        match r {
            Ok(value) => bool_of(text@) == Some(value),
            Err(_) => bool_of(text@) is None,
        },
{
    text.parse::<bool>()
}

impl Operand for i32 {
    open spec fn accepts(text: Seq<char>) -> bool {
        integer_of(text) matches Some(n) && i32::MIN <= n <= i32::MAX
    }

    open spec fn denotes(text: Seq<char>, value: i32) -> bool {
        integer_of(text) == Some(value as int)
    }

    fn parse_operand(text: &str) -> (r: Result<i32, ParseError>) {
        match parse_i32(text) {
            Ok(value) => Ok(value),
            Err(e) => Err(ParseError::IntError(e)),
        }
    }
}

impl Operand for i64 {
    open spec fn accepts(text: Seq<char>) -> bool {
        integer_of(text) matches Some(n) && i64::MIN <= n <= i64::MAX
    }

    open spec fn denotes(text: Seq<char>, value: i64) -> bool {
        integer_of(text) == Some(value as int)
    }

    fn parse_operand(text: &str) -> (r: Result<i64, ParseError>) {
        match parse_i64(text) {
            Ok(value) => Ok(value),
            Err(e) => Err(ParseError::IntError(e)),
        }
    }
}

impl Operand for bool {
    open spec fn accepts(text: Seq<char>) -> bool {
        bool_of(text) is Some
    }

    open spec fn denotes(text: Seq<char>, value: bool) -> bool {
        bool_of(text) == Some(value)
    }

    fn parse_operand(text: &str) -> (r: Result<bool, ParseError>) {
        match parse_bool(text) {
            Ok(value) => Ok(value),
            Err(e) => Err(ParseError::BoolError(e)),
        }
    }
}

impl Operand for String {
    open spec fn accepts(text: Seq<char>) -> bool {
        true
    }

    open spec fn denotes(text: Seq<char>, value: String) -> bool {
        value@ == text
    }

    fn parse_operand(text: &str) -> (r: Result<String, ParseError>) {
        Ok(String::from_str(text))
    }
}

/// Reads the operand of a condition that takes one.
pub fn parse_single_operand<T: Operand>(input: &str) -> (r: Result<T, ParseError>)
    ensures
        match r {
            Ok(value) => T::accepts(input@) && T::denotes(input@, value),
            Err(_) => !T::accepts(input@),
        },
{
    T::parse_operand(input)
}

/// Whether each of `texts` can be read as a value.
pub open spec fn all_accepted<T: Operand>(texts: Seq<Seq<char>>) -> bool {
    forall|i: int| 0 <= i < texts.len() ==> T::accepts(#[trigger] texts[i])
}

/// Whether `values` are what `texts` read as, one for one.
pub open spec fn all_denoted<T: Operand>(texts: Seq<Seq<char>>, values: Seq<T>) -> bool {
    values.len() == texts.len() && forall|i: int|
        0 <= i < texts.len() ==> T::denotes(texts[i], #[trigger] values[i])
}

/// Whether `values` are, each in a `Some`, what `texts` read as, one for one.
pub open spec fn all_denoted_some<T: Operand>(
    texts: Seq<Seq<char>>,
    values: Seq<Option<T>>,
) -> bool {
    values.len() == texts.len() && forall|i: int|
        0 <= i < texts.len() ==> (#[trigger] values[i]) is Some && T::denotes(
            texts[i],
            values[i]->Some_0,
        )
}

/// Reads the operands of a condition that takes a list: the pieces between
/// commas, each read by itself. There is no way to write an operand that
/// holds a comma.
pub fn parse_vec_operand<T: Operand>(input: &str) -> (r: Result<Vec<T>, ParseError>)
    ensures
        match r {
            Ok(values) => all_accepted::<T>(split_on(input@, ',')) && all_denoted::<T>(
                split_on(input@, ','),
                values@,
            ),
            Err(_) => !all_accepted::<T>(split_on(input@, ',')),
        },
{
    let segments = split_char(input, ',');
    let ghost texts = split_on(input@, ',');
    let mut out: Vec<T> = Vec::new();
    let mut i: usize = 0;
    while i < segments.len()
        invariant
            i <= segments.len(),
            texts == split_on(input@, ','),
            segments@.len() == texts.len(),
            forall|j: int| 0 <= j < segments@.len() ==> (#[trigger] segments@[j])@ == texts[j],
            out@.len() == i,
            forall|j: int| 0 <= j < i ==> T::accepts(#[trigger] texts[j]),
            forall|j: int| 0 <= j < i ==> T::denotes(texts[j], #[trigger] out@[j]),
        decreases segments.len() - i,
    {
        proof {
            assert(segments@[i as int]@ == texts[i as int]);
        }
        match T::parse_operand(segments[i]) {
            Ok(value) => {
                out.push(value);
            },
            Err(e) => {
                proof {
                    assert(!T::accepts(texts[i as int]));
                }
                return Err(e);
            },
        }
        i += 1;
    }
    Ok(out)
}

/// The operator of a condition.
pub open spec fn operator_of<T>(f: FilterOperator<T>) -> Operator {
    match f {
        FilterOperator::Eq(_) => Operator::Eq,
        FilterOperator::Ne(_) => Operator::Ne,
        FilterOperator::Gt(_) => Operator::Gt,
        FilterOperator::Ge(_) => Operator::Ge,
        FilterOperator::Lt(_) => Operator::Lt,
        FilterOperator::Le(_) => Operator::Le,
        FilterOperator::EqAny(_) => Operator::In,
    }
}

/// The operands of a condition: one, or for `EqAny` any number.
pub open spec fn operands_of<T>(f: FilterOperator<T>) -> Seq<T> {
    match f {
        FilterOperator::Eq(v) => seq![v],
        FilterOperator::Ne(v) => seq![v],
        FilterOperator::Gt(v) => seq![v],
        FilterOperator::Ge(v) => seq![v],
        FilterOperator::Lt(v) => seq![v],
        FilterOperator::Le(v) => seq![v],
        FilterOperator::EqAny(vs) => vs@,
    }
}

/// The texts that the operands of a condition are read from: the whole
/// value, or for `in` its pieces between commas.
pub open spec fn operand_texts(op: Operator, value: Seq<char>) -> Seq<Seq<char>> {
    if op == Operator::In {
        split_on(value, ',')
    } else {
        seq![value]
    }
}

/// Whether an error names `op` as an operator that is not known.
pub open spec fn unknown_operator(e: ParseError, op: Seq<char>) -> bool {
    e matches ParseError::UnknownOperator(name) && name@ == op
}

/// The operator that a condition on a field that may be null ends up with
/// when it is read from a value: `eq` and `in` keep their meaning, every
/// other operator reads as `ne`.
pub open spec fn option_operator(op: Operator) -> Operator {
    match op {
        Operator::Eq => Operator::Eq,
        Operator::In => Operator::In,
        _ => Operator::Ne,
    }
}

impl<T: Operand> FilterOperator<Option<T>> {
    /// The condition that compares with null. `in` gives a condition with
    /// no operands; any other known operator takes null for its operand. A
    /// name that is no operator is turned down.
    pub fn from_none(op: &str) -> (r: Result<Self, ParseError>)
        ensures
            match r {
                Ok(f) => operator_named(op@) == Some(operator_of(f)) && (if operator_of(f)
                    == Operator::In {
                    operands_of(f).len() == 0
                } else {
                    operands_of(f) == seq![None::<T>]
                }),
                Err(e) => operator_named(op@) is None && unknown_operator(e, op@),
            },
    {
        match Operator::named(op) {
            Some(Operator::Eq) => Ok(FilterOperator::Eq(None)),
            Some(Operator::Ne) => Ok(FilterOperator::Ne(None)),
            Some(Operator::Gt) => Ok(FilterOperator::Gt(None)),
            Some(Operator::Ge) => Ok(FilterOperator::Ge(None)),
            Some(Operator::Lt) => Ok(FilterOperator::Lt(None)),
            Some(Operator::Le) => Ok(FilterOperator::Le(None)),
            Some(Operator::In) => Ok(FilterOperator::EqAny(Vec::new())),
            None => Err(ParseError::UnknownOperator(op.to_owned())),
        }
    }

    /// Reads a condition on a field that may be null from an operator and a
    /// value that is not null. The operands are read as by `try_parse` and
    /// each is wrapped in `Some`. `eq` and `in` keep their operator; every
    /// other operator gives a `Ne` condition.
    pub fn try_parse_option(op: &str, value: &str) -> (r: Result<Self, ParseError>)
        ensures
            match operator_named(op@) {
                None => r matches Err(e) && unknown_operator(e, op@),
                Some(o) => match r {
                    Ok(f) => {
                        &&& all_accepted::<T>(operand_texts(o, value@))
                        &&& operator_of(f) == option_operator(o)
                        &&& all_denoted_some::<T>(operand_texts(o, value@), operands_of(f))
                    },
                    Err(_) => !all_accepted::<T>(operand_texts(o, value@)),
                },
            },
    {
        let plain: FilterOperator<T> = match FilterOperator::try_parse(op, value) {
            Ok(f) => f,
            Err(e) => {
                return Err(e);
            },
        };
        let ghost texts = operand_texts(operator_named(op@)->Some_0, value@);
        let ghost given = operands_of(plain);
        let wrapped = match plain {
            FilterOperator::Eq(v) => FilterOperator::Eq(Some(v)),
            FilterOperator::Ne(v) => FilterOperator::Ne(Some(v)),
            FilterOperator::Gt(v) => FilterOperator::Ne(Some(v)),
            FilterOperator::Ge(v) => FilterOperator::Ne(Some(v)),
            FilterOperator::Lt(v) => FilterOperator::Ne(Some(v)),
            FilterOperator::Le(v) => FilterOperator::Ne(Some(v)),
            FilterOperator::EqAny(vs) => {
                let mut vs = vs;
                let n = vs.len();
                let mut turned: Vec<T> = Vec::new();
                let mut i: usize = 0;
                while i < n
                    invariant
                        n == given.len(),
                        i <= n,
                        vs@.len() == n - i,
                        forall|j: int| 0 <= j < n - i ==> vs@[j] == given[j],
                        turned@.len() == i,
                        forall|j: int| 0 <= j < i ==> turned@[j] == given[n - 1 - j],
                    decreases n - i,
                {
                    match vs.pop() {
                        Some(v) => {
                            turned.push(v);
                        },
                        None => {},
                    }
                    i += 1;
                }
                let mut out: Vec<Option<T>> = Vec::new();
                let mut k: usize = 0;
                while k < n
                    invariant
                        n == given.len(),
                        k <= n,
                        turned@.len() == n - k,
                        forall|j: int| 0 <= j < n - k ==> turned@[j] == given[n - 1 - j],
                        out@.len() == k,
                        forall|j: int| 0 <= j < k ==> (#[trigger] out@[j]) == Some(given[j]),
                    decreases n - k,
                {
                    match turned.pop() {
                        Some(v) => {
                            out.push(Some(v));
                        },
                        None => {},
                    }
                    k += 1;
                }
                FilterOperator::EqAny(out)
            },
        };
        proof {
            let got = operands_of(wrapped);
            assert(got.len() == given.len());
            assert forall|i: int| 0 <= i < given.len() implies (#[trigger] got[i]) == Some(
                given[i],
            ) by {}
            assert forall|i: int| 0 <= i < texts.len() implies (#[trigger] got[i]) is Some
                && T::denotes(texts[i], got[i]->Some_0) by {
                assert(got[i] == Some(given[i]));
            }
        }
        Ok(wrapped)
    }
}

impl<T: Operand> FilterOperator<T> {
    /// Reads a condition from the name of an operator and a value. A name
    /// that is no operator is turned down before the value is looked at;
    /// `in` takes the pieces of the value between commas for its operands,
    /// every other operator the whole value for its one operand; an operand
    /// that cannot be read is an error.
    pub fn try_parse(op: &str, value: &str) -> (r: Result<Self, ParseError>)
        ensures
            match operator_named(op@) {
                None => r matches Err(e) && unknown_operator(e, op@),
                Some(o) => match r {
                    Ok(f) => {
                        &&& operator_of(f) == o
                        &&& all_accepted::<T>(operand_texts(o, value@))
                        &&& all_denoted::<T>(operand_texts(o, value@), operands_of(f))
                    },
                    Err(_) => !all_accepted::<T>(operand_texts(o, value@)),
                },
            },
    {
        let o = match Operator::named(op) {
            Some(o) => o,
            None => {
                return Err(ParseError::UnknownOperator(op.to_owned()));
            },
        };
        proof {
            assert(seq![value@][0] == value@);
        }
        match o {
            Operator::In => match parse_vec_operand::<T>(value) {
                Ok(values) => Ok(FilterOperator::EqAny(values)),
                Err(e) => Err(e),
            },
            _ => {
                let operand = match parse_single_operand::<T>(value) {
                    Ok(v) => v,
                    Err(e) => {
                        return Err(e);
                    },
                };
                let f = match o {
                    Operator::Eq => FilterOperator::Eq(operand),
                    Operator::Ne => FilterOperator::Ne(operand),
                    Operator::Gt => FilterOperator::Gt(operand),
                    Operator::Ge => FilterOperator::Ge(operand),
                    Operator::Lt => FilterOperator::Lt(operand),
                    _ => FilterOperator::Le(operand),
                };
                proof {
                    assert(operands_of(f) =~= seq![operand]);
                }
                Ok(f)
            },
        }
    }
}

/// The digits of a number are digits, and write the number.
pub proof fn lemma_digits_value(n: nat)
    ensures
        digits(n).len() > 0,
        forall|i: int| 0 <= i < digits(n).len() ==> is_digit(#[trigger] digits(n)[i]),
        digits_value(digits(n)) == n,
    decreases n,
{
    if n < 10 {
        let s = digits(n);
        assert(s.drop_last() =~= Seq::<char>::empty());
        assert(digits_value(s.drop_last()) == 0);
    } else {
        lemma_digits_value(n / 10);
        let s = digits(n);
        assert(s.drop_last() =~= digits(n / 10));
        assert(s.last() == digit_char((n % 10) as int));
    }
}

/// What `decimal` writes for an integer reads back as that integer.
pub proof fn lemma_decimal_reads_back(n: int)
    ensures
        integer_of(decimal_text(n)) == Some(n),
{
    if n < 0 {
        let body = digits((-n) as nat);
        lemma_digits_value((-n) as nat);
        let s = decimal_text(n);
        assert(s[0] == '-');
        assert(s.drop_first() =~= body);
    } else {
        lemma_digits_value(n as nat);
        let s = decimal_text(n);
        assert(is_digit(s[0]));
    }
}

/// A name stands for at most one operator, and each operator has its name:
/// what `try_parse` reads under `eq`, `ne`, `gt`, `ge`, `lt`, `le` and `in`
/// are conditions of seven different kinds.
pub proof fn lemma_operator_names()
    ensures
        operator_named("eq"@) == Some(Operator::Eq),
        operator_named("ne"@) == Some(Operator::Ne),
        operator_named("gt"@) == Some(Operator::Gt),
        operator_named("ge"@) == Some(Operator::Ge),
        operator_named("lt"@) == Some(Operator::Lt),
        operator_named("le"@) == Some(Operator::Le),
        operator_named("in"@) == Some(Operator::In),
{
    reveal_strlit("eq");
    reveal_strlit("ne");
    reveal_strlit("gt");
    reveal_strlit("ge");
    reveal_strlit("lt");
    reveal_strlit("le");
    reveal_strlit("in");
    assert("ne"@[0] != "eq"@[0]);
    assert("gt"@[0] != "eq"@[0]);
    assert("gt"@[0] != "ne"@[0]);
    assert("ge"@[0] != "eq"@[0]);
    assert("ge"@[0] != "ne"@[0]);
    assert("ge"@[1] != "gt"@[1]);
    assert("lt"@[0] != "eq"@[0]);
    assert("lt"@[0] != "ne"@[0]);
    assert("lt"@[0] != "gt"@[0]);
    assert("lt"@[0] != "ge"@[0]);
    assert("le"@[0] != "eq"@[0]);
    assert("le"@[0] != "ne"@[0]);
    assert("le"@[0] != "gt"@[0]);
    assert("le"@[0] != "ge"@[0]);
    assert("le"@[1] != "lt"@[1]);
    assert("in"@[0] != "eq"@[0]);
    assert("in"@[0] != "ne"@[0]);
    assert("in"@[0] != "gt"@[0]);
    assert("in"@[0] != "ge"@[0]);
    assert("in"@[0] != "lt"@[0]);
    assert("in"@[0] != "le"@[0]);
}

} // verus!
