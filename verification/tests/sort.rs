use rp1::sort::{sort_key, SortDirection, SortSpec};

#[derive(Debug, PartialEq)]
enum Column {
    Id,
    Username,
}

fn column(name: &str) -> Result<Column, String> {
    match name {
        "id" => Ok(Column::Id),
        "username" => Ok(Column::Username),
        other => Err(format!("no column {}", other)),
    }
}

#[test]
fn a_bare_name_sorts_ascending() {
    assert_eq!(sort_key("username"), (SortDirection::Asc, "username"));
    let spec = SortSpec::from_str("username", column).ok().unwrap();
    assert_eq!(spec.field, Column::Username);
    assert_eq!(spec.direction, SortDirection::Asc);
}

#[test]
fn minus_sorts_descending() {
    assert_eq!(sort_key("-username"), (SortDirection::Desc, "username"));
    let spec = SortSpec::from_str("-id", column).ok().unwrap();
    assert_eq!(spec.field, Column::Id);
    assert_eq!(spec.direction, SortDirection::Desc);
}

#[test]
fn plus_sorts_ascending_also_where_it_arrives_as_a_blank() {
    assert_eq!(sort_key("+username"), (SortDirection::Asc, "username"));
    assert_eq!(sort_key(" username"), (SortDirection::Asc, "username"));
    assert_eq!(sort_key("+ username"), (SortDirection::Asc, "username"));
    assert_eq!(sort_key("-  username"), (SortDirection::Desc, "username"));
}

#[test]
fn every_sign_of_the_leading_run_is_dropped() {
    assert_eq!(sort_key("--id"), (SortDirection::Desc, "id"));
    assert_eq!(sort_key("++id"), (SortDirection::Asc, "id"));
    assert_eq!(sort_key("-+id"), (SortDirection::Desc, "+id"));
    assert_eq!(sort_key("+-id"), (SortDirection::Asc, "-id"));
    assert_eq!(sort_key(""), (SortDirection::Asc, ""));
    assert_eq!(sort_key("-"), (SortDirection::Desc, ""));
    assert_eq!(sort_key("id-"), (SortDirection::Asc, "id-"));
}

#[test]
fn an_unknown_field_is_the_error_of_the_field_parser() {
    let r = SortSpec::from_str("-email", column);
    assert_eq!(r.err(), Some(String::from("no column email")));
}

#[test]
fn a_sort_key_is_written_with_its_sign() {
    let spec = SortSpec { field: Column::Username, direction: SortDirection::Desc };
    assert_eq!(spec.fmt("username"), "-username");
    let spec = SortSpec { field: Column::Username, direction: SortDirection::Asc };
    assert_eq!(spec.fmt("username"), "username");
    let again = SortSpec::from_str(&spec.fmt("username"), column).ok().unwrap();
    assert_eq!(again.field, Column::Username);
    assert_eq!(again.direction, SortDirection::Asc);
    assert!(SortSpec::<Column>::default().is_none());
}
