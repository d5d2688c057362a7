use rustyroad::database::all_mysql_types;
use rustyroad::database::all_postgres_types;
use rustyroad::database::all_sqlite_types;
use rustyroad::database::Database;
use rustyroad::database::DatabaseType;
use rustyroad::database::DatabaseTypes;
use rustyroad::database::DataTypeCategory;
use rustyroad::database::MySqlTypes;
use rustyroad::database::PostgresTypes;
use rustyroad::database::SqliteTypes;

#[test]
fn database_new_maps_each_dialect_name() {
    let db = Database::new(
        "test".to_string(),
        "user".to_string(),
        "pass".to_string(),
        "localhost".to_string(),
        "5432".to_string(),
        "sqlite".to_string(),
    );
    assert_eq!(db.database_type, DatabaseType::Sqlite);
    assert_eq!(db.name, "test");
    assert_eq!(db.username, "user");
    assert_eq!(db.password, "pass");
    assert_eq!(db.host, "localhost");
    assert_eq!(db.port, "5432");

    let mk = |ty: &str| {
        Database::new(
            String::new(),
            String::new(),
            String::new(),
            String::new(),
            String::new(),
            ty.to_string(),
        )
        .database_type
    };
    assert_eq!(mk("postgres"), DatabaseType::Postgres);
    assert_eq!(mk("mysql"), DatabaseType::Mysql);
    assert_eq!(mk("mongo"), DatabaseType::Mongo);
}

#[test]
fn database_new_defaults_unknown_dialect_to_postgres() {
    let db = Database::new(
        String::new(),
        String::new(),
        String::new(),
        String::new(),
        String::new(),
        "oracle".to_string(),
    );
    assert_eq!(db.database_type, DatabaseType::Postgres);
}

#[test]
fn postgres_categories() {
    assert!(matches!(
        PostgresTypes::Boolean.category(),
        DataTypeCategory::Numeric
    ));
    assert!(matches!(
        PostgresTypes::TimestampWithTimeZone.category(),
        DataTypeCategory::DateTime
    ));
    assert!(matches!(
        PostgresTypes::Polygon.category(),
        DataTypeCategory::Geometric
    ));
    assert!(matches!(
        PostgresTypes::Inet.category(),
        DataTypeCategory::NetworkAddress
    ));
    assert!(matches!(
        PostgresTypes::Uuid.category(),
        DataTypeCategory::UUID
    ));
    assert!(matches!(
        PostgresTypes::Domain.category(),
        DataTypeCategory::Other
    ));
}

#[test]
fn mysql_categories() {
    assert!(matches!(
        MySqlTypes::Bit.category(),
        DataTypeCategory::BitString
    ));
    assert!(matches!(
        MySqlTypes::BigInt.category(),
        DataTypeCategory::Numeric
    ));
    assert!(matches!(
        MySqlTypes::Year.category(),
        DataTypeCategory::DateTime
    ));
    assert!(matches!(
        MySqlTypes::LongText.category(),
        DataTypeCategory::Text
    ));
    assert!(matches!(
        MySqlTypes::GeometryCollection.category(),
        DataTypeCategory::Geometric
    ));
    assert!(matches!(
        MySqlTypes::Unknown.category(),
        DataTypeCategory::Other
    ));
}

#[test]
fn sqlite_categories() {
    assert!(matches!(
        SqliteTypes::Integer.category(),
        DataTypeCategory::Numeric
    ));
    assert!(matches!(
        SqliteTypes::DateTime.category(),
        DataTypeCategory::DateTime
    ));
    assert!(matches!(
        SqliteTypes::Text.category(),
        DataTypeCategory::Text
    ));
    assert!(matches!(
        SqliteTypes::Blob.category(),
        DataTypeCategory::Other
    ));
}

#[test]
fn catalog_add_and_get_by_category() {
    let mut catalog = DatabaseTypes::new();
    catalog.add_postgres_type(PostgresTypes::Boolean);
    catalog.add_postgres_type(PostgresTypes::Point);
    catalog.add_postgres_type(PostgresTypes::Serial);
    catalog.add_mysql_type(MySqlTypes::Int);
    catalog.add_sqlite_type(SqliteTypes::Real);

    let numeric = catalog.get_postgres_types(&DataTypeCategory::Numeric);
    assert_eq!(
        numeric,
        Some(vec![PostgresTypes::Boolean, PostgresTypes::Serial])
    );
    let geometric = catalog.get_postgres_types(&DataTypeCategory::Geometric);
    assert_eq!(geometric, Some(vec![PostgresTypes::Point]));
    assert_eq!(catalog.get_postgres_types(&DataTypeCategory::Json), None);

    assert_eq!(
        catalog.get_mysql_types(&DataTypeCategory::Numeric),
        Some(vec![MySqlTypes::Int])
    );
    assert_eq!(catalog.get_mysql_types(&DataTypeCategory::Text), None);

    assert_eq!(
        catalog.get_sqlite_types(&DataTypeCategory::Numeric),
        Some(vec![SqliteTypes::Real])
    );
    assert_eq!(catalog.get_sqlite_types(&DataTypeCategory::DateTime), None);
}

#[test]
fn types_in_category_per_dialect() {
    let mysql_numeric =
        DataTypeCategory::Numeric.get_data_types_from_data_type_category(DatabaseType::Mysql);
    assert_eq!(
        mysql_numeric.mysql.types,
        vec![
            MySqlTypes::TinyInt,
            MySqlTypes::SmallInt,
            MySqlTypes::MediumInt,
            MySqlTypes::Int,
            MySqlTypes::BigInt,
            MySqlTypes::Float,
            MySqlTypes::Double,
            MySqlTypes::Decimal,
            MySqlTypes::NewDecimal,
        ]
    );
    assert!(mysql_numeric.postgres.types.is_empty());
    assert!(mysql_numeric.sqlite.types.is_empty());

    let pg_search =
        DataTypeCategory::Search.get_data_types_from_data_type_category(DatabaseType::Postgres);
    assert_eq!(
        pg_search.postgres.types,
        vec![PostgresTypes::TsVector, PostgresTypes::TsQuery]
    );

    let sqlite_datetime =
        DataTypeCategory::DateTime.get_data_types_from_data_type_category(DatabaseType::Sqlite);
    assert_eq!(
        sqlite_datetime.sqlite.types,
        vec![SqliteTypes::Date, SqliteTypes::Time, SqliteTypes::DateTime]
    );

    let mongo =
        DataTypeCategory::Numeric.get_data_types_from_data_type_category(DatabaseType::Mongo);
    assert!(mongo.postgres.types.is_empty());
    assert!(mongo.mysql.types.is_empty());
    assert!(mongo.sqlite.types.is_empty());
}

#[test]
fn every_native_type_has_exactly_one_category() {
    // Totality: calling category on every enumerated type returns without
    // any gap, for each dialect's full catalog.
    assert_eq!(all_postgres_types().len(), 29);
    assert_eq!(all_mysql_types().len(), 44);
    assert_eq!(all_sqlite_types().len(), 10);
    for t in all_postgres_types() {
        let _ = t.category();
    }
    for t in all_mysql_types() {
        let _ = t.category();
    }
    for t in all_sqlite_types() {
        let _ = t.category();
    }
}
