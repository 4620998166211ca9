use rp1::error::ParseError;
use rp1::filter::{parse_single_operand, parse_vec_operand, FilterOperator, Operand, Operator};

fn text_of<T: std::fmt::Debug>(r: &Result<FilterOperator<T>, ParseError>) -> String {
    match r {
        Ok(f) => format!("{:?}", kind(f)),
        Err(e) => e.message(),
    }
}

fn kind<T>(f: &FilterOperator<T>) -> &'static str {
    match f {
        FilterOperator::Eq(_) => "eq",
        FilterOperator::Ne(_) => "ne",
        FilterOperator::Gt(_) => "gt",
        FilterOperator::Ge(_) => "ge",
        FilterOperator::Lt(_) => "lt",
        FilterOperator::Le(_) => "le",
        FilterOperator::EqAny(_) => "in",
    }
}

#[test]
fn every_operator_is_read_by_its_name() {
    for name in ["eq", "ne", "gt", "ge", "lt", "le"] {
        let f: FilterOperator<i32> = FilterOperator::try_parse(name, "42").ok().unwrap();
        assert_eq!(kind(&f), name);
        match f {
            FilterOperator::Eq(v)
            | FilterOperator::Ne(v)
            | FilterOperator::Gt(v)
            | FilterOperator::Ge(v)
            | FilterOperator::Lt(v)
            | FilterOperator::Le(v) => assert_eq!(v, 42),
            FilterOperator::EqAny(_) => panic!("one operand was given"),
        }
    }
    assert_eq!(Operator::named("in"), Some(Operator::In));
    assert_eq!(Operator::named("EQ"), None);
    assert_eq!(Operator::named(""), None);
}

#[test]
fn in_takes_the_pieces_between_commas() {
    let f: FilterOperator<i32> = FilterOperator::try_parse("in", "1,-2,+3").ok().unwrap();
    match f {
        FilterOperator::EqAny(values) => assert_eq!(values, vec![1, -2, 3]),
        _ => panic!("in gives a list"),
    }
    let f: FilterOperator<String> = FilterOperator::try_parse("in", "alice,,bob,").ok().unwrap();
    match f {
        FilterOperator::EqAny(values) => assert_eq!(values, vec!["alice", "", "bob", ""]),
        _ => panic!("in gives a list"),
    }
    let f: FilterOperator<String> = FilterOperator::try_parse("in", "").ok().unwrap();
    match f {
        FilterOperator::EqAny(values) => assert_eq!(values, vec![""]),
        _ => panic!("in gives a list"),
    }
}

#[test]
fn unknown_operator_is_named_in_the_error() {
    let r: Result<FilterOperator<i32>, ParseError> = FilterOperator::try_parse("like", "42");
    match r {
        Err(ParseError::UnknownOperator(op)) => assert_eq!(op, "like"),
        _ => panic!("like is no operator"),
    }
    let r: Result<FilterOperator<i32>, ParseError> = FilterOperator::try_parse("like", "x");
    assert_eq!(text_of(&r), "Unknown operator 'like'");
    let r: Result<FilterOperator<Option<i32>>, ParseError> = FilterOperator::from_none("is");
    assert!(matches!(r, Err(ParseError::UnknownOperator(op)) if op == "is"));
    let r: Result<FilterOperator<Option<i32>>, ParseError> =
        FilterOperator::try_parse_option("is", "1");
    assert!(matches!(r, Err(ParseError::UnknownOperator(op)) if op == "is"));
}

#[test]
fn operand_that_cannot_be_read_is_an_error() {
    let r: Result<FilterOperator<i32>, ParseError> = FilterOperator::try_parse("eq", "4x");
    assert!(matches!(r, Err(ParseError::IntError(_))));
    assert_eq!(text_of(&r), "Could not parse integer: invalid digit found in string");
    let r: Result<FilterOperator<i32>, ParseError> = FilterOperator::try_parse("in", "1,two,3");
    assert!(matches!(r, Err(ParseError::IntError(_))));
    let r: Result<FilterOperator<bool>, ParseError> = FilterOperator::try_parse("ne", "yes");
    assert!(matches!(r, Err(ParseError::BoolError(_))));
    assert_eq!(
        text_of(&r),
        "Could not parse boolean: provided string was not `true` or `false`"
    );
}

#[test]
fn integers_are_an_optional_sign_and_digits() {
    assert_eq!(i32::parse_operand("0").ok(), Some(0));
    assert_eq!(i32::parse_operand("+5").ok(), Some(5));
    assert_eq!(i32::parse_operand("-0").ok(), Some(0));
    assert_eq!(i32::parse_operand("007").ok(), Some(7));
    assert_eq!(i32::parse_operand("2147483647").ok(), Some(i32::MAX));
    assert_eq!(i32::parse_operand("-2147483648").ok(), Some(i32::MIN));
    assert!(i32::parse_operand("2147483648").is_err());
    assert!(i32::parse_operand("-2147483649").is_err());
    assert!(i32::parse_operand("").is_err());
    assert!(i32::parse_operand("-").is_err());
    assert!(i32::parse_operand("+").is_err());
    assert!(i32::parse_operand(" 5").is_err());
    assert!(i32::parse_operand("5 ").is_err());
    assert!(i32::parse_operand("+-5").is_err());
    assert!(i32::parse_operand("1_000").is_err());
    assert_eq!(i64::parse_operand("9223372036854775807").ok(), Some(i64::MAX));
    assert_eq!(i64::parse_operand("-9223372036854775808").ok(), Some(i64::MIN));
    assert!(i64::parse_operand("9223372036854775808").is_err());
    assert_eq!(i64::parse_operand("2147483648").ok(), Some(2147483648));
}

#[test]
fn booleans_and_strings_as_operands() {
    assert_eq!(bool::parse_operand("true").ok(), Some(true));
    assert_eq!(bool::parse_operand("false").ok(), Some(false));
    assert!(bool::parse_operand("True").is_err());
    assert!(bool::parse_operand("").is_err());
    assert_eq!(String::parse_operand("").ok(), Some(String::new()));
    assert_eq!(String::parse_operand("a,b").ok(), Some(String::from("a,b")));
    assert_eq!(parse_single_operand::<String>("x y").ok(), Some(String::from("x y")));
    assert_eq!(parse_vec_operand::<i64>("10,20").ok(), Some(vec![10, 20]));
    assert!(parse_vec_operand::<i64>("10,").is_err());
}

#[test]
fn null_can_be_compared_with() {
    for name in ["eq", "ne", "gt", "ge", "lt", "le"] {
        let f: FilterOperator<Option<i32>> = FilterOperator::from_none(name).ok().unwrap();
        assert_eq!(kind(&f), name);
        match f {
            FilterOperator::Eq(v)
            | FilterOperator::Ne(v)
            | FilterOperator::Gt(v)
            | FilterOperator::Ge(v)
            | FilterOperator::Lt(v)
            | FilterOperator::Le(v) => assert_eq!(v, None),
            FilterOperator::EqAny(_) => panic!("one operand was given"),
        }
    }
    let f: FilterOperator<Option<i32>> = FilterOperator::from_none("in").ok().unwrap();
    assert!(matches!(f, FilterOperator::EqAny(values) if values.is_empty()));
}

#[test]
fn values_of_a_field_that_may_be_null_are_wrapped() {
    let f: FilterOperator<Option<i32>> = FilterOperator::try_parse_option("eq", "7").ok().unwrap();
    assert!(matches!(f, FilterOperator::Eq(Some(7))));
    let f: FilterOperator<Option<i32>> = FilterOperator::try_parse_option("ne", "7").ok().unwrap();
    assert!(matches!(f, FilterOperator::Ne(Some(7))));
    let f: FilterOperator<Option<i32>> =
        FilterOperator::try_parse_option("in", "7,8,9").ok().unwrap();
    match f {
        FilterOperator::EqAny(values) => assert_eq!(values, vec![Some(7), Some(8), Some(9)]),
        _ => panic!("in gives a list"),
    }
    let r: Result<FilterOperator<Option<i32>>, ParseError> =
        FilterOperator::try_parse_option("eq", "seven");
    assert!(matches!(r, Err(ParseError::IntError(_))));
}

#[test]
fn ordering_operators_on_a_field_that_may_be_null_read_as_ne() {
    for name in ["gt", "ge", "lt", "le"] {
        let f: FilterOperator<Option<i32>> =
            FilterOperator::try_parse_option(name, "7").ok().unwrap();
        assert!(matches!(f, FilterOperator::Ne(Some(7))), "{} on a value", name);
    }
}
