use rp1::macros::crud_impl::{crud, crud_impl};
use rp1::macros::error::Error;
use rp1::macros::model::{Attribute, Field, GenericArgument, ItemStruct, PathArguments, Type};
use rp1::macros::props::{CrudField, CrudPropsBuilder};
use rp1::macros::props::{is_option_ty, option_ty_arg};
use rp1::macros::derive::common::derive_auth_param;
use rp1::macros::derive::delete::derive_crud_delete;
use rp1::macros::derive::read::derive_crud_read;
use rp1::macros::derive::create::{derive_crud_without_create, derive_new_type};
use rp1::macros::derive::update::{derive_crud_without_update, derive_update_types};
use rp1::macros::derive::list::derive_crud_list;
use rp1::macros::derive::marker::{
    derive_crud_insertable, derive_crud_updatable, derive_update_type, is_generated_or_primary_key,
};
use rp1::macros::derive::common::derive_field_list;

fn attr(path: &str, tokens: &str) -> Attribute {
    Attribute { path: path.to_string(), tokens: tokens.to_string() }
}

fn plain(name: &str) -> Type {
    Type::Path {
        qualifier: String::new(),
        ident: name.to_string(),
        arguments: PathArguments::Empty,
    }
}

fn option_of(name: &str) -> Type {
    Type::Path {
        qualifier: String::new(),
        ident: "Option".to_string(),
        arguments: PathArguments::AngleBracketed(vec![GenericArgument {
            is_type: true,
            text: name.to_string(),
        }]),
    }
}

fn field(name: &str, ty: Type, attrs: Vec<Attribute>) -> Field {
    Field { attrs, vis: String::new(), ident: Some(name.to_string()), ty }
}

fn comment_struct() -> ItemStruct {
    ItemStruct {
        attrs: vec![attr("derive", "(Debug)"), attr("serde", "(rename_all = \"camelCase\")")],
        vis: String::new(),
        ident: "Comment".to_string(),
        generics: String::new(),
        fields: vec![
            field("id", plain("i32"), vec![attr("primary_key", "")]),
            field("content", plain("String"), vec![]),
            field("approved", plain("bool"), vec![attr("serde", "(default)")]),
            field("post_id", plain("i32"), vec![]),
            field("user_id", option_of("i32"), vec![attr("not_sortable", "")]),
            field("anonymous_user", option_of("String"), vec![attr("not_filterable", "")]),
            field(
                "created_at",
                Type::Other("chrono::NaiveDateTime".to_string()),
                vec![attr("generated", "")],
            ),
        ],
    }
}

fn builder() -> CrudPropsBuilder {
    CrudPropsBuilder {
        database_struct: "Db".to_string(),
        schema_path: None,
        create: true,
        read: true,
        update: true,
        delete: true,
        list: true,
        module_name: None,
        table_name: Some("comments".to_string()),
        max_limit: None,
        auth: true,
        partials: true,
        validation: true,
    }
}

fn item_names(items: &[syn::Item]) -> Vec<String> {
    let mut names = Vec::new();
    for item in items {
        match item {
            syn::Item::Struct(s) => names.push(format!("struct {}", s.ident)),
            syn::Item::Enum(e) => names.push(format!("enum {}", e.ident)),
            syn::Item::Fn(f) => names.push(format!("fn {}", f.sig.ident)),
            syn::Item::Mod(m) => names.push(format!("mod {}", m.ident)),
            _ => {}
        }
    }
    names
}

fn module_items(code: &str) -> Vec<syn::Item> {
    let file = syn::parse_file(code).expect("the generated text is Rust");
    for item in file.items {
        if let syn::Item::Mod(m) = item {
            return m.content.expect("the module has a body").1;
        }
    }
    panic!("no module was generated");
}

#[test]
fn generated_text_is_rust_with_all_endpoints() {
    let code = crud_impl(builder(), comment_struct()).ok().expect("a primary key is there");
    let names = item_names(&module_items(&code));
    for expected in [
        "struct Comment",
        "enum Fields",
        "struct NewComment",
        "fn create_fn_help",
        "fn create_fn_json",
        "fn create_fn_form",
        "fn read_fn",
        "struct PatchComment",
        "struct PutComment",
        "fn update_put_fn_help",
        "fn update_patch_fn_help",
        "fn update_patch_fn_json",
        "fn update_patch_fn_form",
        "fn update_put_fn_json",
        "fn update_put_fn_form",
        "fn delete_fn",
        "struct PartialComment",
        "struct PartialCommentOutput",
        "enum SortableFields",
        "struct CommentFilterSpec",
        "struct FilterSpecContext",
        "fn list_fn",
    ] {
        assert!(names.iter().any(|n| n == expected), "{} is missing from {:?}", expected, names);
    }
}

#[test]
fn module_is_named_in_snake_case_and_reexported() {
    let mut item = comment_struct();
    item.ident = "BlogPost".to_string();
    item.vis = "pub(crate)".to_string();
    let code = crud(builder(), item);
    let file = syn::parse_file(&code).expect("the generated text is Rust");
    let names = item_names(&file.items);
    assert_eq!(names, vec!["mod blog_post".to_string()]);
    let tokens: proc_macro2::TokenStream = code.parse().unwrap();
    let text = tokens.to_string();
    assert!(text.ends_with("pub (crate) use self :: blog_post :: BlogPost ;"), "{}", text);
}

#[test]
fn switched_off_operations_leave_no_handlers() {
    let mut b = builder();
    b.create = false;
    b.update = false;
    b.delete = false;
    b.list = false;
    b.auth = false;
    let code = crud_impl(b, comment_struct()).ok().unwrap();
    let names = item_names(&module_items(&code));
    assert_eq!(
        names,
        vec!["struct Comment".to_string(), "enum Fields".to_string(), "fn read_fn".to_string()]
    );
    let tokens: proc_macro2::TokenStream = code.parse().unwrap();
    let text = tokens.to_string();
    assert!(text.contains("rocket :: routes ! [read_fn]"), "{}", text);
    assert!(text.contains("type InsertType = () ;"));
    assert!(text.contains("type PutType = () ;"));
    assert!(!text.contains("auth_user"));
}

#[test]
fn routes_are_listed_in_the_order_of_the_operations() {
    let code = crud_impl(builder(), comment_struct()).ok().unwrap();
    let tokens: proc_macro2::TokenStream = code.parse().unwrap();
    let text = tokens.to_string();
    assert!(text.contains(
        "rocket :: routes ! [create_fn_form , create_fn_json , read_fn , update_patch_fn_json , \
         update_patch_fn_form , update_put_fn_json , update_put_fn_form , delete_fn , list_fn]"
    ));
}

#[test]
fn page_size_defaults_to_one_hundred() {
    let code = crud_impl(builder(), comment_struct()).ok().unwrap();
    assert!(code.contains("::rp1::helper::page_limit(limit, 100i64)"));
    let mut b = builder();
    b.max_limit = Some(-25);
    let code = crud_impl(b, comment_struct()).ok().unwrap();
    assert!(code.contains("::rp1::helper::page_limit(limit, -25i64)"));
}

#[test]
fn missing_primary_key_is_an_error() {
    let mut item = comment_struct();
    item.fields[0].attrs.clear();
    assert!(matches!(crud_impl(builder(), item), Err(Error::MissingPrimaryKey)));
}

#[test]
fn two_primary_keys_are_an_error() {
    let mut item = comment_struct();
    item.fields[1].attrs.push(attr("primary_key", ""));
    assert!(matches!(crud_impl(builder(), item), Err(Error::AggregatePrimaryKeyNotSupported)));
}

#[test]
fn unnamed_field_is_an_error_before_the_primary_key_is_looked_for() {
    let mut item = comment_struct();
    item.fields[0].attrs.clear();
    item.fields[3].ident = None;
    assert!(matches!(crud_impl(builder(), item), Err(Error::UnnamedFieldsNotSupported)));
}

#[test]
fn markers_are_read_and_taken_off() {
    let f = field(
        "user_id",
        option_of("i32"),
        vec![
            attr("generated", ""),
            attr("serde", "(default)"),
            attr("not_sortable", ""),
            attr("validate", "(email)"),
        ],
    );
    let c = CrudField::try_from(&f).ok().unwrap();
    assert!(c.is_generated);
    assert!(!c.is_primary_key);
    assert!(!c.is_sortable);
    assert!(c.is_filterable);
    assert!(c.is_option);
    assert_eq!(c.attrs.len(), 2);
    assert_eq!(c.attrs[0].path, "serde");
    assert_eq!(c.attrs[1].path, "validate");
    assert_eq!(c.to_code(), "#[serde (default)]#[validate (email)] user_id: Option<i32>");
}

#[test]
fn update_field_of_an_optional_field_tells_absent_from_null() {
    let f = field("subtitle", option_of("String"), vec![]);
    let c = CrudField::try_from(&f).ok().unwrap().as_update_field();
    assert_eq!(
        c.to_code(),
        "#[serde (default, deserialize_with = \"::rp1::helper::double_option\")] subtitle: \
         Option<Option<String>>"
    );
    let f = field("title", plain("String"), vec![]);
    let c = CrudField::try_from(&f).ok().unwrap().as_update_field();
    assert_eq!(c.to_code(), " title: Option<String>");
    assert!(!c.is_option);
}

fn tokens_of(code: &str) -> String {
    let tokens: proc_macro2::TokenStream = code.parse().expect("the text is made of tokens");
    tokens.to_string()
}

fn props() -> rp1::macros::props::CrudProps {
    builder().build(comment_struct()).ok().expect("a primary key is there")
}

fn struct_fields(items: &[syn::Item], name: &str) -> Vec<(String, String)> {
    for item in items {
        if let syn::Item::Struct(s) = item {
            if s.ident == name {
                return s
                    .fields
                    .iter()
                    .map(|f| {
                        let ty = &f.ty;
                        (
                            f.ident.as_ref().unwrap().to_string(),
                            quote::ToTokens::to_token_stream(ty).to_string().replace(' ', ""),
                        )
                    })
                    .collect();
            }
        }
    }
    panic!("no struct {}", name);
}

fn enum_variants(items: &[syn::Item], name: &str) -> Vec<String> {
    for item in items {
        if let syn::Item::Enum(e) = item {
            if e.ident == name {
                return e.variants.iter().map(|v| v.ident.to_string()).collect();
            }
        }
    }
    panic!("no enum {}", name);
}

fn pairs(items: &[(&str, &str)]) -> Vec<(String, String)> {
    items.iter().map(|(a, b)| (a.to_string(), b.to_string())).collect()
}

#[test]
fn names_are_made_from_the_name_of_the_record() {
    let p = props();
    assert_eq!(p.ident, "Comment");
    assert_eq!(p.new_ident, "NewComment");
    assert_eq!(p.update_ident, "UpdateComment");
    assert_eq!(p.patch_ident, "PatchComment");
    assert_eq!(p.put_ident, "PutComment");
    assert_eq!(p.filter_ident, "CommentFilterSpec");
    assert_eq!(p.partial_ident, "PartialComment");
    assert_eq!(p.partial_output_ident, "PartialCommentOutput");
    assert_eq!(p.module_name, "comment");
    assert_eq!(p.table_name, "comments");
    assert_eq!(p.schema_path, "crate::schema");
    assert_eq!(p.max_limit, 100);
    assert_eq!(p.primary_type.to_code(), "i32");
    assert_eq!(p.original_visibility, "");
    assert_eq!(p.item.vis, "pub");

    let mut b = builder();
    b.schema_path = Some("crate::db::schema".to_string());
    b.module_name = Some("comments_api".to_string());
    b.table_name = None;
    b.max_limit = Some(25);
    let mut item = comment_struct();
    item.ident = "HTTPLogEntry".to_string();
    let p = b.build(item).ok().unwrap();
    assert_eq!(p.schema_path, "crate::db::schema");
    assert_eq!(p.module_name, "comments_api");
    assert_eq!(p.table_name, "http_log_entry");
    assert_eq!(p.max_limit, 25);
}

#[test]
fn fields_are_classified_by_their_markers() {
    let p = props();
    let names = |fields: Vec<CrudField>| -> Vec<String> {
        fields.into_iter().map(|f| f.ident).collect()
    };
    assert_eq!(
        names(p.sortable_fields()),
        ["id", "content", "approved", "post_id", "anonymous_user", "created_at"]
    );
    assert_eq!(
        names(p.filterable_fields()),
        ["id", "content", "approved", "post_id", "user_id", "created_at"]
    );
    assert_eq!(
        names(p.user_supplied_fields()),
        ["content", "approved", "post_id", "user_id", "anonymous_user"]
    );
    assert_eq!(names(p.non_user_supplied_fields()), ["id", "created_at"]);
    assert_eq!(names(p.put_fields()).len(), 7);
    let patch = p.patch_fields();
    assert_eq!(patch.len(), 5);
    assert_eq!(patch[3].to_code(),
        "#[serde (default, deserialize_with = \"::rp1::helper::double_option\")] user_id: Option<Option<i32>>");
    assert_eq!(patch[0].to_code(), " content: Option<String>");
    let updatable = p.updatable_fields();
    assert_eq!(updatable.len(), 5);
    assert_eq!(updatable[0].to_code(), " content: Option<String>");
}

#[test]
fn an_option_is_known_by_its_last_segment() {
    assert!(is_option_ty(&option_of("i32")));
    assert_eq!(option_ty_arg(&option_of("i32")).unwrap().text, "i32");
    assert!(!is_option_ty(&plain("i32")));
    assert!(!is_option_ty(&plain("Option")));
    assert!(!is_option_ty(&Type::Other("&Option<i32>".to_string())));
    let qualified = Type::Path {
        qualifier: "::std::option::".to_string(),
        ident: "Option".to_string(),
        arguments: PathArguments::AngleBracketed(vec![GenericArgument {
            is_type: true,
            text: "Vec<u8>".to_string(),
        }]),
    };
    assert!(is_option_ty(&qualified));
    assert_eq!(qualified.to_code(), "::std::option::Option<Vec<u8>>");
    assert_eq!(qualified.in_option().to_code(), "Option<::std::option::Option<Vec<u8>>>");
    let lifetime_last = Type::Path {
        qualifier: String::new(),
        ident: "Option".to_string(),
        arguments: PathArguments::AngleBracketed(vec![
            GenericArgument { is_type: true, text: "i32".to_string() },
            GenericArgument { is_type: false, text: "'a".to_string() },
        ]),
    };
    assert!(!is_option_ty(&lifetime_last));
    assert_eq!(lifetime_last.to_code(), "Option<i32, 'a>");
    let no_arguments = Type::Path {
        qualifier: String::new(),
        ident: "Option".to_string(),
        arguments: PathArguments::AngleBracketed(vec![]),
    };
    assert!(!is_option_ty(&no_arguments));
    let vec_of = Type::Path {
        qualifier: String::new(),
        ident: "Vec".to_string(),
        arguments: PathArguments::AngleBracketed(vec![GenericArgument {
            is_type: true,
            text: "i32".to_string(),
        }]),
    };
    assert!(!is_option_ty(&vec_of));
    let called = Type::Path {
        qualifier: String::new(),
        ident: "Option".to_string(),
        arguments: PathArguments::Parenthesized("(i32) -> i32".to_string()),
    };
    assert!(!is_option_ty(&called));
    assert_eq!(called.to_code(), "Option(i32) -> i32");
    assert!(rp1::macros::props::enabled());
}

#[test]
fn the_authorisation_parameter_is_there_where_authorisation_is_on() {
    let p = props();
    assert_eq!(
        derive_auth_param(&p),
        Some(
            "auth_user: <Comment as ::rp1::access_control::CheckPermissions>::AuthUser,"
                .to_string()
        )
    );
    let mut b = builder();
    b.auth = false;
    let p = b.build(comment_struct()).ok().unwrap();
    assert_eq!(derive_auth_param(&p), None);
}

#[test]
fn delete_looks_the_row_up_only_to_ask_for_permission() {
    let (code, routes) = derive_crud_delete(&props());
    assert_eq!(routes, ["delete_fn"]);
    assert_eq!(
        tokens_of(&code),
        tokens_of(
            r#"
            #[::rocket::delete("/<id>")]
            async fn delete_fn(
                db: Db,
                id: i32,
                auth_user: <Comment as ::rp1::access_control::CheckPermissions>::AuthUser,
            ) -> ::rp1::CrudResult<::rocket::serde::json::Value> {
                let row = db.run(move |conn| {
                    crate::schema::comments::table.find(id).first::<Comment>(conn)
                }).await?;
                if !<Comment as ::rp1::CheckPermissions>::allow_delete(&row, &auth_user) {
                    return Err(::rp1::CrudError::NotFound);
                }
                let deleted = db.run(move |conn| {
                    diesel::delete(crate::schema::comments::table.find(id)).execute(conn)
                }).await?;
                Ok(::rocket::serde::json::json!({ "deleted": deleted, }))
            }
            "#
        )
    );
    let mut b = builder();
    b.auth = false;
    let (code, _) = derive_crud_delete(&b.build(comment_struct()).ok().unwrap());
    assert_eq!(
        tokens_of(&code),
        tokens_of(
            r#"
            #[::rocket::delete("/<id>")]
            async fn delete_fn(
                db: Db,
                id: i32,
            ) -> ::rp1::CrudResult<::rocket::serde::json::Value> {
                let deleted = db.run(move |conn| {
                    diesel::delete(crate::schema::comments::table.find(id)).execute(conn)
                }).await?;
                Ok(::rocket::serde::json::json!({ "deleted": deleted, }))
            }
            "#
        )
    );
}

#[test]
fn read_reports_a_row_that_may_not_be_read_as_not_found() {
    let (code, routes) = derive_crud_read(&props());
    assert_eq!(routes, ["read_fn"]);
    assert_eq!(
        tokens_of(&code),
        tokens_of(
            r#"
            #[::rocket::get("/<id>")]
            async fn read_fn(
                db: Db,
                id: i32,
                auth_user: <Comment as ::rp1::access_control::CheckPermissions>::AuthUser,
            ) -> ::rp1::CrudJsonResult<Comment> {
                let row = db.run(move |conn| {
                    crate::schema::comments::table.find(id).first::<Comment>(conn)
                }).await?;
                let row = if <Comment as ::rp1::CheckPermissions>::allow_read(&row, &auth_user) {
                    row
                } else {
                    return Err(::rp1::CrudError::NotFound);
                };
                Ok(::rocket::serde::json::Json(row))
            }
            "#
        )
    );
}

#[test]
fn the_new_type_holds_what_the_caller_supplies() {
    let p = props();
    let code = derive_new_type(&p);
    let file = syn::parse_file(&code).expect("the generated text is Rust");
    assert_eq!(
        struct_fields(&file.items, "NewComment"),
        pairs(&[
            ("content", "String"),
            ("approved", "bool"),
            ("post_id", "i32"),
            ("user_id", "Option<i32>"),
            ("anonymous_user", "Option<String>"),
        ])
    );
    let text = tokens_of(&code);
    assert!(text.contains("# [table_name = \"comments\"]"), "{}", text);
    assert!(text.contains("# [serde (rename_all = \"camelCase\")]"), "{}", text);
    assert!(!text.contains("# [derive (Debug)]"), "{}", text);
    assert!(text.contains("# [derive (:: validator :: Validate)]"), "{}", text);
    assert!(text.contains("# [serde (default)] approved : bool"), "{}", text);

    let mut b = builder();
    b.validation = false;
    let code = derive_new_type(&b.build(comment_struct()).ok().unwrap());
    assert!(!tokens_of(&code).contains("validator"));

    assert_eq!(
        tokens_of(&derive_crud_without_create(&p)),
        tokens_of("impl ::rp1::CrudInsertable for Comment { type InsertType = (); }")
    );
}

#[test]
fn the_update_types_hold_a_change_and_a_replacement() {
    let p = props();
    let code = derive_update_types(&p);
    let file = syn::parse_file(&code).expect("the generated text is Rust");
    assert_eq!(
        struct_fields(&file.items, "PatchComment"),
        pairs(&[
            ("content", "Option<String>"),
            ("approved", "Option<bool>"),
            ("post_id", "Option<i32>"),
            ("user_id", "Option<Option<i32>>"),
            ("anonymous_user", "Option<Option<String>>"),
        ])
    );
    assert_eq!(
        struct_fields(&file.items, "PutComment"),
        pairs(&[
            ("id", "i32"),
            ("content", "String"),
            ("approved", "bool"),
            ("post_id", "i32"),
            ("user_id", "Option<i32>"),
            ("anonymous_user", "Option<String>"),
            ("created_at", "chrono::NaiveDateTime"),
        ])
    );
    let text = tokens_of(&code);
    assert!(text.contains(
        "if self . id != base . id { return Err (:: rp1 :: CrudError :: UnchangeableField \
         (stringify ! (id) . to_owned ())) ; }"
    ));
    assert!(text.contains("created_at : base . created_at . clone ()"));
    assert!(!text.contains("content : base . content . clone ()"));
    assert!(text.contains("type PatchType = PatchComment ; type PutType = PutComment ;"));
    assert_eq!(
        tokens_of(&derive_crud_without_update(&p)),
        tokens_of("impl ::rp1::CrudUpdatable for Comment { type PatchType = (); type PutType = (); }")
    );
}

#[test]
fn the_list_orders_and_narrows_by_the_fields_that_allow_it() {
    let (code, routes) = derive_crud_list(&props());
    assert_eq!(routes, ["list_fn"]);
    let file = syn::parse_file(&code).expect("the generated text is Rust");
    assert_eq!(
        enum_variants(&file.items, "SortableFields"),
        ["id", "content", "approved", "post_id", "anonymous_user", "created_at"]
    );
    assert_eq!(
        struct_fields(&file.items, "CommentFilterSpec"),
        pairs(&[
            ("id", "Vec<::rp1::FilterOperator<i32>>"),
            ("content", "Vec<::rp1::FilterOperator<String>>"),
            ("approved", "Vec<::rp1::FilterOperator<bool>>"),
            ("post_id", "Vec<::rp1::FilterOperator<i32>>"),
            ("user_id", "Vec<::rp1::FilterOperator<Option<i32>>>"),
            ("created_at", "Vec<::rp1::FilterOperator<chrono::NaiveDateTime>>"),
        ])
    );
    assert_eq!(
        struct_fields(&file.items, "PartialComment")[1],
        ("content".to_string(), "Option<String>".to_string())
    );
    assert_eq!(
        struct_fields(&file.items, "PartialComment")[4],
        ("user_id".to_string(), "Option<i32>".to_string())
    );
    assert_eq!(
        struct_fields(&file.items, "PartialCommentOutput")[4],
        ("user_id".to_string(), "Option<Option<i32>>".to_string())
    );
    let text = tokens_of(&code);
    assert!(text.contains("\"/?<sort>&<offset>&<limit>&<filter>&<include>&<exclude>\""));
    assert!(text.contains(":: rp1 :: FilterOperator :: try_parse_option (field_operator , value)"));
    assert_eq!(text.matches(":: rp1 :: FilterOperator :: from_none (field_operator)").count(), 1);
    assert_eq!(text.matches(":: rp1 :: FilterOperator :: try_parse (field_operator , value)").count(), 5);
    assert!(text.contains("filter_list (& auth_user)"));

    let mut b = builder();
    b.partials = false;
    b.auth = false;
    let (code, _) = derive_crud_list(&b.build(comment_struct()).ok().unwrap());
    let file = syn::parse_file(&code).expect("the generated text is Rust");
    let names = item_names(&file.items);
    assert!(!names.iter().any(|n| n.starts_with("struct Partial")), "{:?}", names);
    let text = tokens_of(&code);
    assert!(text.contains("\"/?<sort>&<offset>&<limit>&<filter>\""));
    assert!(text.contains("let query = Some (query) ;"));
    assert!(text.contains(". select (crate :: schema :: comments :: all_columns)"));
    assert!(text.contains("-> :: rp1 :: CrudJsonResult < Vec < Comment >>"), "{}", text);
}

#[test]
fn the_field_list_names_every_field() {
    let code = derive_field_list(&props());
    let file = syn::parse_file(&code).expect("the generated text is Rust");
    assert_eq!(
        enum_variants(&file.items, "Fields"),
        ["id", "content", "approved", "post_id", "user_id", "anonymous_user", "created_at"]
    );
    let text = tokens_of(&code);
    assert!(text.contains("vec ! [Fields :: id , Fields :: content ,"));
    assert!(text.contains("Fields :: created_at => stringify ! (created_at)"));
}

#[test]
fn the_plain_types_mark_the_record() {
    let p = props();
    let code = derive_crud_insertable(&p.user_supplied_fields(), &p);
    let file = syn::parse_file(&code).expect("the generated text is Rust");
    assert_eq!(struct_fields(&file.items, "NewComment").len(), 5);
    let text = tokens_of(&code);
    assert!(text.contains("impl :: rp1 :: CrudInsertableMarker for Comment { }"), "{}", text);
    assert!(text.contains("# [table_name = \"comments\"] struct NewComment {"), "{}", text);

    let code = derive_update_type(&p);
    let file = syn::parse_file(&code).expect("the generated text is Rust");
    assert_eq!(
        struct_fields(&file.items, "UpdateComment"),
        pairs(&[
            ("content", "Option<String>"),
            ("approved", "Option<bool>"),
            ("post_id", "Option<i32>"),
            ("user_id", "Option<Option<i32>>"),
            ("anonymous_user", "Option<Option<String>>"),
        ])
    );
    let text = tokens_of(&code);
    assert!(text.contains("impl :: rp1 :: CrudUpdatableMarker for Comment { }"), "{}", text);
    assert!(text.contains("# [derive (Default)]"), "{}", text);
    assert_eq!(tokens_of(&derive_crud_updatable(p.user_supplied_fields(), &p)), text);

    let mut b = builder();
    b.validation = false;
    let p = b.build(comment_struct()).ok().unwrap();
    assert!(!derive_update_type(&p).contains("validator"));
    assert!(derive_crud_updatable(p.user_supplied_fields(), &p).contains("validator"));
    let one = derive_crud_updatable(p.sortable_fields().into_iter().take(1).collect(), &p);
    let file = syn::parse_file(&one).expect("the generated text is Rust");
    assert_eq!(struct_fields(&file.items, "UpdateComment"), pairs(&[("id", "Option<i32>")]));

    assert!(is_generated_or_primary_key(&attr("generated", "")));
    assert!(is_generated_or_primary_key(&attr("primary_key", "")));
    assert!(!is_generated_or_primary_key(&attr("not_sortable", "")));
    assert!(!is_generated_or_primary_key(&attr("crate::generated", "")));
}
