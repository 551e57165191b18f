use geekorm_sql::builder::columntypes::{ColumnOptions, ColumnType};
use geekorm_sql::builder::QueryBuilder;
use geekorm_sql::derive::data::{disables_from_string, variant_from_key, variant_keys, VariantDef};
use geekorm_sql::derive::multitable::one_to_many;
use geekorm_sql::values::value::Value;
use geekorm_sql::derive::attr::{AttributeGroup, AttributeItem, GeekAttribute, GeekAttributeKeys, GeekAttributeValue};
use geekorm_sql::derive::column::{ColumnDerive, ColumnMode, ColumnsDerive, FieldInit, FieldParam};
use geekorm_sql::derive::columntypes::{parse_path, ColumnOptionsDerive, ColumnTypeDerive, FieldType, GenericArg};
use geekorm_sql::derive::backend::{fetch_target, ForeignArg};
use geekorm_sql::derive::table::TableDerive;
use geekorm_sql::derive::DeriveFeatures;

fn all_features() -> DeriveFeatures {
    DeriveFeatures { new: true, rand: true, hash: true, uuid: true, chrono: true }
}

fn no_features() -> DeriveFeatures {
    DeriveFeatures { new: false, rand: false, hash: false, uuid: false, chrono: false }
}

fn path(name: &str) -> FieldType {
    FieldType::Path { name: name.to_string(), argument: GenericArg::Absent }
}

fn wrapped(name: &str, inner: FieldType) -> FieldType {
    FieldType::Path { name: name.to_string(), argument: GenericArg::Type(Box::new(inner)) }
}

fn item(name: &str, value: Option<GeekAttributeValue>) -> AttributeItem {
    AttributeItem { name: name.to_string(), value }
}

fn geekorm(items: Vec<AttributeItem>) -> AttributeGroup {
    AttributeGroup { path: "geekorm".to_string(), items }
}

#[test]
fn column_options_derive_setters_and_default() {
    let mut options = ColumnOptionsDerive::default();
    assert_eq!(options, ColumnOptionsDerive { primary_key: false, unique: false, not_null: true, auto_increment: false });
    options.set_unique(true);
    options.set_notnull(false);
    options.set_auto_increment(true);
    assert_eq!(options, ColumnOptionsDerive { primary_key: false, unique: true, not_null: false, auto_increment: true });
    assert_eq!(
        options.to_column_options(),
        ColumnOptions { primary_key: false, unique: true, not_null: false, auto_increment: true }
    );
    assert_eq!(ColumnTypeDerive::ForeignKey.to_column_type(), ColumnType::ForeignKey);
}

#[test]
fn parse_path_reads_column_types() {
    let f = all_features();
    let d = ColumnOptionsDerive::default();
    assert_eq!(parse_path(&path("String"), &f).unwrap(), (ColumnTypeDerive::Text, d));
    assert_eq!(parse_path(&path("u64"), &f).unwrap(), (ColumnTypeDerive::Integer, d));
    assert_eq!(parse_path(&path("bool"), &f).unwrap(), (ColumnTypeDerive::Boolean, d));
    assert_eq!(parse_path(&path("Vec"), &f).unwrap(), (ColumnTypeDerive::Blob, d));
    assert_eq!(parse_path(&path("Uuid"), &f).unwrap(), (ColumnTypeDerive::Text, d));
    assert_eq!(parse_path(&path("Uuid"), &no_features()).unwrap(), (ColumnTypeDerive::Blob, d));
    assert_eq!(parse_path(&FieldType::Slice, &f).unwrap(), (ColumnTypeDerive::Text, d));
    assert_eq!(
        parse_path(&path("PrimaryKeyInteger"), &f).unwrap(),
        (
            ColumnTypeDerive::Integer,
            ColumnOptionsDerive { primary_key: true, unique: false, not_null: false, auto_increment: true }
        )
    );
    assert_eq!(
        parse_path(&wrapped("PrimaryKey", path("Integer")), &f).unwrap(),
        (
            ColumnTypeDerive::Integer,
            ColumnOptionsDerive { primary_key: true, unique: false, not_null: false, auto_increment: true }
        )
    );
    assert_eq!(
        parse_path(&wrapped("PrimaryKey", path("String")), &f).unwrap(),
        (
            ColumnTypeDerive::Text,
            ColumnOptionsDerive { primary_key: true, unique: false, not_null: false, auto_increment: false }
        )
    );
}

#[test]
fn parse_path_option_is_nullable_and_errors() {
    let f = all_features();
    assert_eq!(
        parse_path(&wrapped("Option", path("i32")), &f).unwrap(),
        (
            ColumnTypeDerive::Integer,
            ColumnOptionsDerive { primary_key: false, unique: false, not_null: false, auto_increment: false }
        )
    );
    assert_eq!(parse_path(&path("Option"), &f).unwrap_err().message, "Unsupported Option type");
    assert_eq!(parse_path(&path("PrimaryKey"), &f).unwrap_err().message, "Unsupported PrimaryKey type");
    assert_eq!(parse_path(&FieldType::Other, &f).unwrap_err().message, "Unsupported column type");
    assert_eq!(
        parse_path(&wrapped("Option", FieldType::Other), &f).unwrap_err().message,
        "Unsupported column type"
    );
}

#[test]
fn attributes_parse_and_validate() {
    let f = all_features();
    let a = GeekAttribute::parse(item("primary_key", None), &f).unwrap();
    assert_eq!(a.key, Some(GeekAttributeKeys::PrimaryKey));
    let err = GeekAttribute::parse(item("colour", None), &f).unwrap_err();
    assert_eq!(err.message, "Unknown attribute `colour`");
    let err = GeekAttribute::parse(item("rand", None), &no_features()).unwrap_err();
    assert_eq!(err.message, "The `rand` attribute requires the `rand` feature to be enabled");
    let err = GeekAttribute::parse(item("password", None), &no_features()).unwrap_err();
    assert_eq!(err.message, "The `hash` or `password` attribute requires the `hash` feature to be enabled");

    let algorithms = vec!["Pbkdf2".to_string(), "Argon2".to_string()];
    let a = GeekAttribute::parse(item("primary_key", Some(GeekAttributeValue::Bool(true))), &f).unwrap();
    assert_eq!(a.validate(&algorithms).unwrap_err().message, "The `primary_key` attribute does not require a value");
    let a = GeekAttribute::parse(item("foreign_key", Some(GeekAttributeValue::String("Users".to_string()))), &f).unwrap();
    assert_eq!(
        a.validate(&algorithms).unwrap_err().message,
        "The `foreign_key` attribute requires a table.column value"
    );
    let a = GeekAttribute::parse(item("foreign_key", Some(GeekAttributeValue::String("Users.id".to_string()))), &f).unwrap();
    assert!(a.validate(&algorithms).is_ok());
    let a = GeekAttribute::parse(item("hash_algorithm", Some(GeekAttributeValue::String("Md5".to_string()))), &f).unwrap();
    assert_eq!(
        a.validate(&algorithms).unwrap_err().message,
        "The `hash_algorithm` attribute requires a supported hashing algorithm"
    );
    let a = GeekAttribute::parse(item("new", Some(GeekAttributeValue::Int(3))), &f).unwrap();
    assert_eq!(a.validate(&algorithms).unwrap_err().message, "The `new` attribute requires a string value");
}

#[test]
fn parse_all_reads_only_geekorm_lists_and_stops_at_first_error() {
    let f = all_features();
    let algorithms = vec!["Pbkdf2".to_string()];
    let groups = vec![
        AttributeGroup { path: "serde".to_string(), items: vec![item("colour", None)] },
        geekorm(vec![item("unique", None), item("rename", Some(GeekAttributeValue::String("full_name".to_string())))]),
        geekorm(vec![item("skip", None)]),
    ];
    let attrs = GeekAttribute::parse_all(&groups, &f, &algorithms).unwrap();
    let keys: Vec<_> = attrs.iter().map(|a| a.key).collect();
    assert_eq!(keys, vec![Some(GeekAttributeKeys::Unique), Some(GeekAttributeKeys::Rename), Some(GeekAttributeKeys::Skip)]);

    let groups = vec![geekorm(vec![item("unique", None), item("colour", None), item("primary_key", Some(GeekAttributeValue::Int(1)))])];
    let err = GeekAttribute::parse_all(&groups, &f, &algorithms).unwrap_err();
    assert_eq!(err.message, "Unknown attribute `colour`");
}

fn column(attrs: Vec<AttributeItem>, itype: FieldType) -> Result<ColumnDerive, geekorm_sql::derive::DeriveError> {
    ColumnDerive::from_field(Some("field".to_string()), itype, vec![geekorm(attrs)], &all_features(), &vec!["Pbkdf2".to_string()])
}

#[test]
fn attributes_shape_the_column() {
    let c = column(
        vec![item("unique", None), item("rename", Some(GeekAttributeValue::String("full_name".to_string())))],
        path("String"),
    )
    .unwrap();
    assert_eq!(c.name, "field");
    assert_eq!(c.alias, "full_name");
    assert!(c.is_unique());
    assert!(c.is_searchable());
    assert!(!c.is_primary_key());

    let c = column(vec![item("primary_key", None)], path("String")).unwrap();
    assert!(c.is_primary_key());
    assert_eq!(c.coltype, ColumnTypeDerive::Integer);
    assert!(c.options.auto_increment);

    let c = column(vec![item("auto_increment", Some(GeekAttributeValue::Bool(false))), item("not_null", None)], path("Option")).unwrap_err();
    assert_eq!(c.message, "Unsupported Option type");

    let c = column(vec![item("foreign_key", Some(GeekAttributeValue::String("Users.id".to_string())))], path("i32")).unwrap();
    assert!(c.is_foreign_key());
    assert_eq!(c.foreign_key.as_deref(), Some("Users.id"));

    let err = ColumnDerive::from_field(None, path("i32"), vec![], &all_features(), &vec![]).unwrap_err();
    assert_eq!(err.message, "Column must have an identifier");
}

#[test]
fn random_and_new_modes_decide_the_constructor() {
    let c = column(
        vec![
            item("rand", None),
            item("rand_length", Some(GeekAttributeValue::Int(42))),
            item("rand_prefix", Some(GeekAttributeValue::String("gorm".to_string()))),
        ],
        path("String"),
    )
    .unwrap();
    assert_eq!(c.mode, Some(ColumnMode::Rand { len: 42, prefix: Some("gorm".to_string()), env: None }));
    assert_eq!(c.initializer(), FieldInit::Random { len: 42, prefix: "gorm_".to_string() });
    assert_eq!(c.param(), None);
    assert_eq!(c.random_helper(), (42, "gorm".to_string()));

    let c = column(vec![item("new", Some(GeekAttributeValue::String("chrono::Utc::now()".to_string())))], path("DateTime")).unwrap();
    assert_eq!(c.initializer(), FieldInit::Data("chrono::Utc::now()".to_string()));
    assert_eq!(c.param(), None);

    let c = column(vec![item("skip", None)], path("String")).unwrap();
    assert_eq!(c.initializer(), FieldInit::Default);
    assert_eq!(c.param(), None);

    let c = column(vec![], wrapped("Option", path("String"))).unwrap();
    assert_eq!(c.initializer(), FieldInit::NoneValue);
    assert_eq!(c.param(), None);

    let c = column(vec![], wrapped("ForeignKey", path("i32"))).unwrap();
    assert_eq!(c.initializer(), FieldInit::ForeignKey);
    assert_eq!(c.param(), Some(FieldParam::ForeignKeyInto));

    let c = column(vec![], path("String")).unwrap();
    assert_eq!(c.initializer(), FieldInit::Into);
    assert_eq!(c.param(), Some(FieldParam::Into));
    assert_eq!(c.random_helper(), (10, String::new()));
}

#[test]
fn columns_derive_queries() {
    let columns = ColumnsDerive {
        columns: vec![
            column(vec![], path("PrimaryKeyInteger")).unwrap(),
            column(vec![item("hash", None)], path("String")).unwrap(),
            column(vec![item("foreign_key", Some(GeekAttributeValue::String("Users.id".to_string())))], path("i32")).unwrap(),
            column(vec![item("rand", None)], path("String")).unwrap(),
        ],
    };
    assert!(columns.get_primary_key().unwrap().is_primary_key());
    assert_eq!(columns.get_foreign_keys().len(), 1);
    assert_eq!(columns.get_hash_columns().len(), 1);
    assert_eq!(columns.get_random_columns().len(), 1);
    assert_eq!(columns.params(), vec![FieldParam::Into, FieldParam::Into]);
    assert_eq!(
        columns.initializers(),
        vec![FieldInit::PrimaryKey, FieldInit::Hash, FieldInit::Into, FieldInit::Random { len: 32, prefix: String::new() }]
    );
}

#[test]
fn table_rename_uses_the_last_name() {
    let mut table = TableDerive { name: "Users".to_string(), columns: ColumnsDerive { columns: vec![] }, database: None };
    let f = all_features();
    let attrs = vec![
        GeekAttribute::parse(item("rename", Some(GeekAttributeValue::String("people".to_string()))), &f).unwrap(),
        GeekAttribute::parse(item("unique", None), &f).unwrap(),
        GeekAttribute::parse(item("rename", Some(GeekAttributeValue::String("members".to_string()))), &f).unwrap(),
    ];
    table.apply_attributes(&attrs);
    assert_eq!(table.name, "members");
    assert_eq!(table.database_name(), "Database");
}

fn users_derive() -> TableDerive {
    TableDerive {
        name: "Users".to_string(),
        columns: ColumnsDerive {
            columns: vec![
                ColumnDerive::from_field(Some("id".to_string()), path("PrimaryKeyInteger"), vec![], &all_features(), &vec![]).unwrap(),
                ColumnDerive::from_field(Some("name".to_string()), path("String"), vec![], &all_features(), &vec![]).unwrap(),
            ],
        },
        database: None,
    }
}

#[test]
fn derived_table_writes_documented_queries() {

    let table = users_derive().to_table();
    let create = QueryBuilder::create().table(&table).build().unwrap();
    assert_eq!(create.query, "CREATE TABLE IF NOT EXISTS Users (id INTEGER PRIMARY KEY AUTOINCREMENT, name TEXT NOT NULL);");
    let select = QueryBuilder::select().table(&table).build().unwrap();
    assert_eq!(select.query, "SELECT id, name FROM Users;");
    let insert = QueryBuilder::insert()
        .table(&table)
        .add_value("id", Value::from(0))
        .add_value("name", Value::from(""))
        .build()
        .unwrap();
    assert_eq!(insert.query, "INSERT INTO Users (name) VALUES (?);");
    let update = QueryBuilder::update()
        .table(&table)
        .add_value("id", Value::from(0))
        .add_value("name", Value::from(""))
        .build()
        .unwrap();
    assert_eq!(update.query, "UPDATE Users SET name = ? WHERE id = 0;");
    let count = QueryBuilder::count().table(&table).build().unwrap();
    assert_eq!(count.query, "SELECT COUNT(1) FROM Users;");
}

#[test]
fn backend_plan_lists_columns_by_role() {
    let columns = ColumnsDerive {
        columns: vec![
            column(vec![], path("PrimaryKeyInteger")).unwrap(),
            column(vec![item("unique", None)], path("String")).unwrap(),
            column(vec![item("skip", None)], path("String")).unwrap(),
            column(vec![item("foreign_key", Some(GeekAttributeValue::String("Users.id".to_string())))], path("i32")).unwrap(),
        ],
    };
    let args = vec![ForeignArg::NotPath, ForeignArg::NotPath, ForeignArg::NotPath, ForeignArg::TypePath("Users".to_string())];
    let plan = columns.backend_plan(&args).unwrap();
    assert_eq!(plan.saved.len(), 3);
    assert_eq!(plan.fetch_types, vec!["Users".to_string()]);
    assert!(plan.fetch_by_primary_key);
    assert!(plan.updates.is_empty());
    assert_eq!(plan.searched, vec!["field".to_string()]);
    assert_eq!(plan.unique, vec!["field".to_string()]);
    assert_eq!(plan.fetched, vec!["field".to_string()]);
    assert_eq!(plan.lookups.iter().map(|l| l.1).collect::<Vec<_>>(), vec![false, true, false]);
}

#[test]
fn one_to_many_link_table() {

    let users = users_derive();
    let sessions = column(vec![item("foreign_key", Some(GeekAttributeValue::String("Sessions.id".to_string())))], path("Vec")).unwrap();
    let link = one_to_many(&users, &sessions, "Sessions").unwrap();
    assert_eq!(link.name, "Users_Sessions");
    let names: Vec<_> = link.columns.columns.iter().map(|c| c.name.clone()).collect();
    assert_eq!(names, vec!["id".to_string(), "users_id".to_string(), "sessions_id".to_string()]);
    assert_eq!(link.columns.columns[1].foreign_key.as_deref(), Some("Users.id"));
    assert_eq!(link.columns.columns[2].foreign_key.as_deref(), Some("Sessions.id"));
    assert_eq!(link.columns.columns[2].column_type, ColumnType::ForeignKey);

    let plain = column(vec![], path("String")).unwrap();
    assert_eq!(
        one_to_many(&users, &plain, "Sessions").unwrap_err().message,
        "Column must be a foreign key to create a one-to-many relationship"
    );
    let keyless = TableDerive { name: "Logs".to_string(), columns: ColumnsDerive { columns: vec![] }, database: None };
    assert_eq!(
        one_to_many(&keyless, &sessions, "Sessions").unwrap_err().message,
        "Table `Logs` must have a primary key to create a one-to-many relationship"
    );
}

#[test]
fn data_enum_variant_texts() {

    let variant = |ident: &str, attrs: Vec<AttributeItem>| VariantDef {
        ident: ident.to_string(),
        unit: true,
        discriminant: false,
        attrs: if attrs.is_empty() { vec![] } else { vec![geekorm(attrs)] },
    };
    let variants = vec![
        variant("Admin", vec![]),
        variant("Moderator", vec![]),
        variant("User", vec![item("key", Some(GeekAttributeValue::String("UserAccounts".to_string())))]),
        variant("r#Guest", vec![item("key", Some(GeekAttributeValue::Int(7)))]),
        variant("r#Other", vec![]),
    ];
    let keys = variant_keys(&variants, &all_features(), &vec![]).unwrap();
    assert_eq!(keys, vec!["Admin", "Moderator", "UserAccounts", "7", "Other"]);
    assert_eq!(variant_from_key(&keys, "UserAccounts"), Some(2));
    assert_eq!(variant_from_key(&keys, "Admin"), Some(0));
    assert_eq!(variant_from_key(&keys, "admin"), None);

    let bad = vec![VariantDef { ident: "A".to_string(), unit: false, discriminant: false, attrs: vec![] }];
    assert_eq!(variant_keys(&bad, &all_features(), &vec![]).unwrap_err().message, "Only unit variants are supported");
    let bad = vec![VariantDef { ident: "A".to_string(), unit: true, discriminant: true, attrs: vec![] }];
    assert_eq!(variant_keys(&bad, &all_features(), &vec![]).unwrap_err().message, "Discriminant values are not supported");
    let bad = vec![variant("A", vec![item("key", Some(GeekAttributeValue::Bool(true)))])];
    assert_eq!(
        variant_keys(&bad, &all_features(), &vec![]).unwrap_err().message,
        "Expected string or int value for `rename` attribute"
    );

    let f = all_features();
    let attrs = vec![GeekAttribute::parse(item("disable", Some(GeekAttributeValue::String("from_string".to_string()))), &f).unwrap()];
    assert!(disables_from_string(&attrs));
    assert!(!disables_from_string(&vec![]));
}

#[test]
fn default_derived_column() {
    let c = ColumnDerive::default();
    assert_eq!(c.identifier, "column");
    assert_eq!(c.name, "");
    assert_eq!(c.coltype, ColumnTypeDerive::Text);
    assert_eq!(c.options, ColumnOptionsDerive::default());
    assert_eq!(c.initializer(), FieldInit::Into);
}

#[test]
fn rand_length_written_as_a_string() {
    let c = column(
        vec![
            item("unique", None),
            item("rand", None),
            item("rand_length", Some(GeekAttributeValue::String("42".to_string()))),
            item("rand_prefix", Some(GeekAttributeValue::String("gorm_".to_string()))),
        ],
        path("String"),
    )
    .unwrap();
    assert_eq!(c.mode, Some(ColumnMode::Rand { len: 42, prefix: Some("gorm_".to_string()), env: None }));

    let c = column(
        vec![item("rand", None), item("rand_length", Some(GeekAttributeValue::String("forty".to_string())))],
        path("String"),
    )
    .unwrap();
    assert_eq!(c.mode, Some(ColumnMode::Rand { len: 32, prefix: None, env: None }));
}

#[test]
fn table_key_names_the_table() {
    let mut table = TableDerive { name: "Users".to_string(), columns: ColumnsDerive { columns: vec![] }, database: None };
    let f = all_features();
    let attrs = vec![GeekAttribute::parse(item("key", Some(GeekAttributeValue::String("people".to_string()))), &f).unwrap()];
    table.apply_attributes(&attrs);
    assert_eq!(table.name, "people");
}

fn keyed(key: GeekAttributeKeys, value: GeekAttributeValue) -> GeekAttribute {
    GeekAttribute { name: String::new(), key: Some(key), value: Some(value) }
}

#[test]
fn update_and_save_expressions() {
    let mut c = column(vec![], path("DateTime")).unwrap();
    c.attributes = vec![
        keyed(GeekAttributeKeys::OnUpdate, GeekAttributeValue::String("chrono::Utc::now()".to_string())),
        keyed(GeekAttributeKeys::OnSave, GeekAttributeValue::String("0".to_string())),
    ];
    c.apply_attributes().unwrap();
    assert_eq!(c.update.as_deref(), Some("chrono::Utc::now()"));
    assert_eq!(c.save.as_deref(), Some("0"));

    let mut v = column(vec![], path("bool")).unwrap();
    v.attributes = vec![keyed(GeekAttributeKeys::OnValidate, GeekAttributeValue::Bool(true))];
    v.apply_attributes().unwrap();
    assert_eq!(v.update.as_deref(), Some("true"));
    assert_eq!(v.save.as_deref(), Some("true"));

    let columns = ColumnsDerive { columns: vec![c] };
    let plan = columns.backend_plan(&vec![ForeignArg::NotPath]).unwrap();
    assert_eq!(plan.updates, vec![("field".to_string(), "chrono::Utc::now()".to_string())]);
    assert!(!plan.fetch_by_primary_key);

    let mut bad = column(vec![], path("DateTime")).unwrap();
    bad.attributes = vec![keyed(GeekAttributeKeys::OnUpdate, GeekAttributeValue::String("\"unclosed".to_string()))];
    bad.apply_attributes().unwrap();
    let columns = ColumnsDerive { columns: vec![bad] };
    let err = columns.backend_plan(&vec![ForeignArg::NotPath]).unwrap_err();
    assert_eq!(err.message, "Failed to parse data for New mode");
    assert_eq!(columns.update_checks(), vec![false]);
    let err = columns.plan_from_checks(&vec![ForeignArg::NotPath], &vec![false]).unwrap_err();
    assert_eq!(err.message, "Failed to parse data for New mode");
    let plan = columns.plan_from_checks(&vec![ForeignArg::NotPath], &vec![true]).unwrap();
    assert_eq!(plan.updates, vec![("field".to_string(), "\"unclosed".to_string())]);
}

#[test]
fn foreign_key_field_types() {
    assert_eq!(fetch_target(&ForeignArg::TypePath("Users".to_string())).unwrap(), "Users");
    assert_eq!(
        fetch_target(&ForeignArg::NotPath).unwrap_err().message,
        "Only path types are supported for foreign keys"
    );
    assert_eq!(
        fetch_target(&ForeignArg::NotBracketed).unwrap_err().message,
        "Only angle bracketed arguments are supported for foreign keys"
    );
    assert_eq!(
        fetch_target(&ForeignArg::Other).unwrap_err().message,
        "Only type arguments are supported for foreign keys"
    );
    let fk = column(vec![item("foreign_key", Some(GeekAttributeValue::String("Users.id".to_string())))], path("i32")).unwrap();
    let columns = ColumnsDerive { columns: vec![fk] };
    let err = columns.backend_plan(&vec![ForeignArg::NotBracketed]).unwrap_err();
    assert_eq!(err.message, "Only angle bracketed arguments are supported for foreign keys");
}
