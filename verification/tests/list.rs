use rocket::form::name::NameView;

use rp1::filter::FilterOperator;
use rp1::helper::{page_limit, page_offset};
use rp1::sort::{SortDirection, SortSpec};

#[derive(Debug, Clone, PartialEq, Eq)]
struct User {
    id: i32,
    username: String,
}

#[derive(Debug, Clone, Copy, PartialEq, Eq)]
enum Column {
    Id,
    Username,
}

fn column(name: &str) -> Result<Column, String> {
    match name {
        "id" => Ok(Column::Id),
        "username" => Ok(Column::Username),
        other => Err(format!("no column {}", other)),
    }
}

fn holds<T: PartialOrd>(value: &T, condition: &FilterOperator<T>) -> bool {
    match condition {
        FilterOperator::Eq(v) => value == v,
        FilterOperator::Ne(v) => value != v,
        FilterOperator::Gt(v) => value > v,
        FilterOperator::Ge(v) => value >= v,
        FilterOperator::Lt(v) => value < v,
        FilterOperator::Le(v) => value <= v,
        FilterOperator::EqAny(vs) => vs.iter().any(|v| value == v),
    }
}

/// A table in memory that answers list requests as the list endpoint does:
/// conditions first, then the order, then the page.
struct Table {
    rows: Vec<User>,
}

impl Table {
    fn create(&mut self, username: &str) -> User {
        let user = User { id: 81 + self.rows.len() as i32, username: username.to_string() };
        self.rows.push(user.clone());
        user
    }

    fn get(&self, uri: &str) -> Vec<User> {
        let query = uri.split_once('?').map(|(_, query)| query).unwrap_or("");
        let mut rows = self.rows.clone();
        let mut sort: Vec<SortSpec<Column>> = Vec::new();
        let mut offset = None;
        let mut limit = None;
        for pair in query.split('&').filter(|pair| !pair.is_empty()) {
            let (name, value) = pair.split_once('=').unwrap_or((pair, ""));
            let value = value.replace('+', " ");
            let mut name = NameView::new(name);
            let first = name.key().map(|key| key.as_str()).unwrap_or("");
            match first {
                "sort" => sort.push(SortSpec::from_str(value.as_str(), column).unwrap()),
                "offset" => offset = Some(value.parse().unwrap()),
                "limit" => limit = Some(value.parse().unwrap()),
                "filter" => {
                    name.shift();
                    let field = name.key().expect("a filter names its field").as_str();
                    name.shift();
                    let operator = name.key().map(|key| key.as_str()).unwrap_or("eq");
                    match field {
                        "id" => {
                            let condition = FilterOperator::try_parse(operator, &value).unwrap();
                            rows.retain(|row| holds(&row.id, &condition));
                        }
                        "username" => {
                            let condition = FilterOperator::try_parse(operator, &value).unwrap();
                            rows.retain(|row| holds(&row.username, &condition));
                        }
                        other => panic!("no field {}", other),
                    }
                }
                other => panic!("no parameter {}", other),
            }
        }
        for spec in sort.iter().rev() {
            match spec.field {
                Column::Id => rows.sort_by(|a, b| a.id.cmp(&b.id)),
                Column::Username => rows.sort_by(|a, b| a.username.cmp(&b.username)),
            }
            if spec.direction == SortDirection::Desc {
                rows.reverse();
            }
        }
        let offset = page_offset(offset) as usize;
        let limit = page_limit(limit, 100) as usize;
        rows.into_iter().skip(offset).take(limit).collect()
    }
}

fn three_users() -> (Table, User, User, User) {
    let mut table = Table { rows: Vec::new() };
    let create_user_1 = table.create("alice");
    let create_user_2 = table.create("eve");
    let create_user_3 = table.create("bob");
    (table, create_user_1, create_user_2, create_user_3)
}

#[test]
fn endpoints_retrieve_list_user() {
    let (table, create_user_1, create_user_2, create_user_3) = three_users();

    let users = table.get("/users");

    assert_eq!(&users, &[create_user_1, create_user_2, create_user_3]);
}

#[test]
fn retrieve_list_user_sort() {
    let (table, create_user_1, create_user_2, create_user_3) = three_users();

    // a to z
    let users = table.get("/users?sort=username");
    assert_eq!(&users, &[create_user_1.clone(), create_user_3.clone(), create_user_2.clone()]);

    // a to z, but different
    let users = table.get("/users?sort=+username");
    assert_eq!(&users, &[create_user_1.clone(), create_user_3.clone(), create_user_2.clone()]);

    // z to a
    let users = table.get("/users?sort=-username");
    assert_eq!(&users, &[create_user_2, create_user_3, create_user_1]);
}

#[test]
fn retrieve_list_user_filter() {
    let (table, create_user_1, create_user_2, create_user_3) = three_users();

    let users = table.get("/users?filter[username]in=alice");
    assert_eq!(&users, &[create_user_1.clone()]);

    let users = table.get("/users?limit=2");
    assert_eq!(&users, &[create_user_1.clone(), create_user_2.clone()]);

    let users = table.get(&format!("/users?filter[id]gt={}", create_user_1.id));
    assert_eq!(&users, &[create_user_2.clone(), create_user_3.clone(),]);

    let users = table.get("/users?offset=1");
    assert_eq!(&users, &[create_user_2, create_user_3]);
}

#[test]
fn a_filter_is_written_in_three_ways() {
    let (table, create_user_1, _, create_user_3) = three_users();
    for uri in [
        "/users?filter[username].ne=eve",
        "/users?filter.username.ne=eve",
        "/users?filter[username]ne=eve",
    ] {
        assert_eq!(&table.get(uri), &[create_user_1.clone(), create_user_3.clone()], "{}", uri);
    }
    assert_eq!(&table.get("/users?filter[username]=bob"), &[create_user_3.clone()]);
    assert_eq!(
        &table.get("/users?filter[username].in=bob,alice&sort=-username"),
        &[create_user_3, create_user_1]
    );
}

#[test]
fn a_page_has_at_least_one_row_and_at_most_the_limit() {
    assert_eq!(page_offset(None), 0);
    assert_eq!(page_offset(Some(-5)), 0);
    assert_eq!(page_offset(Some(0)), 0);
    assert_eq!(page_offset(Some(7)), 7);
    assert_eq!(page_offset(Some(i64::MIN)), 0);
    assert_eq!(page_limit(None, 100), 100);
    assert_eq!(page_limit(Some(2), 100), 2);
    assert_eq!(page_limit(Some(100), 100), 100);
    assert_eq!(page_limit(Some(101), 100), 100);
    assert_eq!(page_limit(Some(0), 100), 1);
    assert_eq!(page_limit(Some(-3), 100), 1);
    assert_eq!(page_limit(None, 0), 1);
    assert_eq!(page_limit(Some(5), -25), 1);
    assert_eq!(page_limit(Some(i64::MAX), i64::MAX), i64::MAX);
    for (offset, limit, max) in [(None, None, 100), (Some(-1), Some(3), 2), (Some(9), Some(0), 1)] {
        assert_eq!(page_offset(offset), i64::max(0, offset.unwrap_or(0)));
        assert_eq!(page_limit(limit, max), i64::max(1, i64::min(max, limit.unwrap_or(max))));
    }
    let (table, create_user_1, _, _) = three_users();
    assert_eq!(&table.get("/users?limit=0"), &[create_user_1.clone()]);
    assert_eq!(&table.get("/users?limit=-7&offset=-2"), &[create_user_1]);
    assert_eq!(table.get("/users?offset=3").len(), 0);
}
