//! Database targets and the per-dialect type catalog: each dialect's native
//! column types, grouped into semantic categories, with ordered lookup of the
//! types that fall in a category.

use vstd::prelude::*;

verus! {

use crate::text::str_eq;

/// A connection descriptor for one target database, plus the dispatch key
/// (`database_type`) that picks the execution strategy.
#[derive(Debug, Clone, PartialEq, Eq)]
pub struct Database {
    pub name: String,
    pub username: String,
    pub password: String,
    pub host: String,
    pub port: String,
    pub database_type: DatabaseType,
}

/// The supported database engines.
#[derive(Debug, Clone, Copy, PartialEq, Eq, Structural)]
pub enum DatabaseType {
    Postgres,
    Mysql,
    Sqlite,
    Mongo,
}

/// The dialect named by a configuration string; anything unrecognized falls
/// back to Postgres.
pub open spec fn spec_database_type_of(s: Seq<char>) -> DatabaseType {
    if s == "postgres"@ {
        DatabaseType::Postgres
    } else if s == "mysql"@ {
        DatabaseType::Mysql
    } else if s == "sqlite"@ {
        DatabaseType::Sqlite
    } else if s == "mongo"@ {
        DatabaseType::Mongo
    } else {
        DatabaseType::Postgres
    }
}

impl Database {
    /// Builds a target from its configuration fields; the dialect string is
    /// matched exactly, and an unrecognized one defaults to Postgres.
    pub fn new(
        name: String,
        username: String,
        password: String,
        host: String,
        port: String,
        database_type: String,
    ) -> (r: Database)
        ensures
            r.name == name,
            r.username == username,
            r.password == password,
            r.host == host,
            r.port == port,
            r.database_type == spec_database_type_of(database_type@),
    {
        let dt: DatabaseType = if str_eq(database_type.as_str(), "postgres") {
            DatabaseType::Postgres
        } else if str_eq(database_type.as_str(), "mysql") {
            DatabaseType::Mysql
        } else if str_eq(database_type.as_str(), "sqlite") {
            DatabaseType::Sqlite
        } else if str_eq(database_type.as_str(), "mongo") {
            DatabaseType::Mongo
        } else {
            DatabaseType::Postgres
        };
        Database { name, username, password, host, port, database_type: dt }
    }
}

/// A cross-dialect grouping of native types by semantic purpose.
#[derive(Debug, Clone, Copy, PartialEq, Eq, Structural)]
pub enum DataTypeCategory {
    Numeric,
    DateTime,
    Text,
    Geometric,
    NetworkAddress,
    Json,
    Search,
    Array,
    UUID,
    Monetary,
    BitString,
    Interval,
    Composite,
    Range,
    Other,
}

/// Postgres native column types.
#[derive(Debug, Clone, Copy, PartialEq, Eq, Structural)]
pub enum PostgresTypes {
    Boolean,
    Serial,
    Uuid,
    Array,
    Json,
    JsonB,
    HStore,
    TsVector,
    TsQuery,
    CiText,
    Point,
    Line,
    Lseg,
    Box,
    Path,
    Polygon,
    Circle,
    Inet,
    Cidr,
    Money,
    Bit,
    BitVarying,
    Interval,
    TimeWithTimeZone,
    TimestampWithTimeZone,
    Enum,
    Composite,
    Domain,
    Range,
}

impl PostgresTypes {
    /// The category a Postgres native type belongs to; total, with exactly
    /// one category per type.
    pub open spec fn spec_category(self) -> DataTypeCategory {
        match self {
            PostgresTypes::Boolean => DataTypeCategory::Numeric,
            PostgresTypes::Serial => DataTypeCategory::Numeric,
            PostgresTypes::Bit => DataTypeCategory::Numeric,
            PostgresTypes::BitVarying => DataTypeCategory::Numeric,
            PostgresTypes::Money => DataTypeCategory::Numeric,
            PostgresTypes::TimeWithTimeZone => DataTypeCategory::DateTime,
            PostgresTypes::TimestampWithTimeZone => DataTypeCategory::DateTime,
            PostgresTypes::Interval => DataTypeCategory::DateTime,
            PostgresTypes::Json => DataTypeCategory::Text,
            PostgresTypes::JsonB => DataTypeCategory::Text,
            PostgresTypes::HStore => DataTypeCategory::Text,
            PostgresTypes::CiText => DataTypeCategory::Text,
            PostgresTypes::Enum => DataTypeCategory::Text,
            PostgresTypes::Point => DataTypeCategory::Geometric,
            PostgresTypes::Line => DataTypeCategory::Geometric,
            PostgresTypes::Lseg => DataTypeCategory::Geometric,
            PostgresTypes::Box => DataTypeCategory::Geometric,
            PostgresTypes::Path => DataTypeCategory::Geometric,
            PostgresTypes::Polygon => DataTypeCategory::Geometric,
            PostgresTypes::Circle => DataTypeCategory::Geometric,
            PostgresTypes::Inet => DataTypeCategory::NetworkAddress,
            PostgresTypes::Cidr => DataTypeCategory::NetworkAddress,
            PostgresTypes::TsVector => DataTypeCategory::Search,
            PostgresTypes::TsQuery => DataTypeCategory::Search,
            PostgresTypes::Array => DataTypeCategory::Array,
            PostgresTypes::Uuid => DataTypeCategory::UUID,
            PostgresTypes::Composite => DataTypeCategory::Composite,
            PostgresTypes::Range => DataTypeCategory::Range,
            PostgresTypes::Domain => DataTypeCategory::Other,
        }
    }

    /// The category a Postgres native type belongs to.
    pub fn category(&self) -> (c: DataTypeCategory)
        ensures
            c == self.spec_category(),
    {
        match self {
            PostgresTypes::Boolean => DataTypeCategory::Numeric,
            PostgresTypes::Serial => DataTypeCategory::Numeric,
            PostgresTypes::Bit => DataTypeCategory::Numeric,
            PostgresTypes::BitVarying => DataTypeCategory::Numeric,
            PostgresTypes::Money => DataTypeCategory::Numeric,
            PostgresTypes::TimeWithTimeZone => DataTypeCategory::DateTime,
            PostgresTypes::TimestampWithTimeZone => DataTypeCategory::DateTime,
            PostgresTypes::Interval => DataTypeCategory::DateTime,
            PostgresTypes::Json => DataTypeCategory::Text,
            PostgresTypes::JsonB => DataTypeCategory::Text,
            PostgresTypes::HStore => DataTypeCategory::Text,
            PostgresTypes::CiText => DataTypeCategory::Text,
            PostgresTypes::Enum => DataTypeCategory::Text,
            PostgresTypes::Point => DataTypeCategory::Geometric,
            PostgresTypes::Line => DataTypeCategory::Geometric,
            PostgresTypes::Lseg => DataTypeCategory::Geometric,
            PostgresTypes::Box => DataTypeCategory::Geometric,
            PostgresTypes::Path => DataTypeCategory::Geometric,
            PostgresTypes::Polygon => DataTypeCategory::Geometric,
            PostgresTypes::Circle => DataTypeCategory::Geometric,
            PostgresTypes::Inet => DataTypeCategory::NetworkAddress,
            PostgresTypes::Cidr => DataTypeCategory::NetworkAddress,
            PostgresTypes::TsVector => DataTypeCategory::Search,
            PostgresTypes::TsQuery => DataTypeCategory::Search,
            PostgresTypes::Array => DataTypeCategory::Array,
            PostgresTypes::Uuid => DataTypeCategory::UUID,
            PostgresTypes::Composite => DataTypeCategory::Composite,
            PostgresTypes::Range => DataTypeCategory::Range,
            PostgresTypes::Domain => DataTypeCategory::Other,
        }
    }
}

/// MySQL native column types.
#[derive(Debug, Clone, Copy, PartialEq, Eq, Structural)]
pub enum MySqlTypes {
    Bit,
    TinyInt,
    SmallInt,
    MediumInt,
    Int,
    BigInt,
    Float,
    Double,
    Decimal,
    Date,
    DateTime,
    Time,
    Timestamp,
    Year,
    Char,
    VarChar,
    Binary,
    VarBinary,
    TinyBlob,
    Blob,
    MediumBlob,
    LongBlob,
    TinyText,
    Text,
    MediumText,
    LongText,
    Enum,
    SetType,
    Geometry,
    Point,
    LineString,
    Polygon,
    MultiPoint,
    MultiLineString,
    MultiPolygon,
    GeometryCollection,
    Json,
    BinaryJson,
    BitField,
    NewDecimal,
    EnumInner,
    SetInner,
    GeometryInner,
    Unknown,
}

impl MySqlTypes {
    /// The category a MySQL native type belongs to; total, with exactly one
    /// category per type.
    pub open spec fn spec_category(self) -> DataTypeCategory {
        match self {
            MySqlTypes::Bit => DataTypeCategory::BitString,
            MySqlTypes::TinyInt => DataTypeCategory::Numeric,
            MySqlTypes::SmallInt => DataTypeCategory::Numeric,
            MySqlTypes::MediumInt => DataTypeCategory::Numeric,
            MySqlTypes::Int => DataTypeCategory::Numeric,
            MySqlTypes::BigInt => DataTypeCategory::Numeric,
            MySqlTypes::Float => DataTypeCategory::Numeric,
            MySqlTypes::Double => DataTypeCategory::Numeric,
            MySqlTypes::Decimal => DataTypeCategory::Numeric,
            MySqlTypes::NewDecimal => DataTypeCategory::Numeric,
            MySqlTypes::Date => DataTypeCategory::DateTime,
            MySqlTypes::DateTime => DataTypeCategory::DateTime,
            MySqlTypes::Time => DataTypeCategory::DateTime,
            MySqlTypes::Timestamp => DataTypeCategory::DateTime,
            MySqlTypes::Year => DataTypeCategory::DateTime,
            MySqlTypes::Char => DataTypeCategory::Text,
            MySqlTypes::VarChar => DataTypeCategory::Text,
            MySqlTypes::Binary => DataTypeCategory::Text,
            MySqlTypes::VarBinary => DataTypeCategory::Text,
            MySqlTypes::TinyBlob => DataTypeCategory::Text,
            MySqlTypes::Blob => DataTypeCategory::Text,
            MySqlTypes::MediumBlob => DataTypeCategory::Text,
            MySqlTypes::LongBlob => DataTypeCategory::Text,
            MySqlTypes::TinyText => DataTypeCategory::Text,
            MySqlTypes::Text => DataTypeCategory::Text,
            MySqlTypes::MediumText => DataTypeCategory::Text,
            MySqlTypes::LongText => DataTypeCategory::Text,
            MySqlTypes::Enum => DataTypeCategory::Text,
            MySqlTypes::SetType => DataTypeCategory::Text,
            MySqlTypes::Json => DataTypeCategory::Text,
            MySqlTypes::BinaryJson => DataTypeCategory::Text,
            MySqlTypes::Geometry => DataTypeCategory::Geometric,
            MySqlTypes::Point => DataTypeCategory::Geometric,
            MySqlTypes::LineString => DataTypeCategory::Geometric,
            MySqlTypes::Polygon => DataTypeCategory::Geometric,
            MySqlTypes::MultiPoint => DataTypeCategory::Geometric,
            MySqlTypes::MultiLineString => DataTypeCategory::Geometric,
            MySqlTypes::MultiPolygon => DataTypeCategory::Geometric,
            MySqlTypes::GeometryCollection => DataTypeCategory::Geometric,
            MySqlTypes::BitField => DataTypeCategory::Other,
            MySqlTypes::EnumInner => DataTypeCategory::Other,
            MySqlTypes::SetInner => DataTypeCategory::Other,
            MySqlTypes::GeometryInner => DataTypeCategory::Other,
            MySqlTypes::Unknown => DataTypeCategory::Other,
        }
    }

    /// The category a MySQL native type belongs to.
    pub fn category(&self) -> (c: DataTypeCategory)
        ensures
            c == self.spec_category(),
    {
        match self {
            MySqlTypes::Bit => DataTypeCategory::BitString,
            MySqlTypes::TinyInt => DataTypeCategory::Numeric,
            MySqlTypes::SmallInt => DataTypeCategory::Numeric,
            MySqlTypes::MediumInt => DataTypeCategory::Numeric,
            MySqlTypes::Int => DataTypeCategory::Numeric,
            MySqlTypes::BigInt => DataTypeCategory::Numeric,
            MySqlTypes::Float => DataTypeCategory::Numeric,
            MySqlTypes::Double => DataTypeCategory::Numeric,
            MySqlTypes::Decimal => DataTypeCategory::Numeric,
            MySqlTypes::NewDecimal => DataTypeCategory::Numeric,
            MySqlTypes::Date => DataTypeCategory::DateTime,
            MySqlTypes::DateTime => DataTypeCategory::DateTime,
            MySqlTypes::Time => DataTypeCategory::DateTime,
            MySqlTypes::Timestamp => DataTypeCategory::DateTime,
            MySqlTypes::Year => DataTypeCategory::DateTime,
            MySqlTypes::Char => DataTypeCategory::Text,
            MySqlTypes::VarChar => DataTypeCategory::Text,
            MySqlTypes::Binary => DataTypeCategory::Text,
            MySqlTypes::VarBinary => DataTypeCategory::Text,
            MySqlTypes::TinyBlob => DataTypeCategory::Text,
            MySqlTypes::Blob => DataTypeCategory::Text,
            MySqlTypes::MediumBlob => DataTypeCategory::Text,
            MySqlTypes::LongBlob => DataTypeCategory::Text,
            MySqlTypes::TinyText => DataTypeCategory::Text,
            MySqlTypes::Text => DataTypeCategory::Text,
            MySqlTypes::MediumText => DataTypeCategory::Text,
            MySqlTypes::LongText => DataTypeCategory::Text,
            MySqlTypes::Enum => DataTypeCategory::Text,
            MySqlTypes::SetType => DataTypeCategory::Text,
            MySqlTypes::Json => DataTypeCategory::Text,
            MySqlTypes::BinaryJson => DataTypeCategory::Text,
            MySqlTypes::Geometry => DataTypeCategory::Geometric,
            MySqlTypes::Point => DataTypeCategory::Geometric,
            MySqlTypes::LineString => DataTypeCategory::Geometric,
            MySqlTypes::Polygon => DataTypeCategory::Geometric,
            MySqlTypes::MultiPoint => DataTypeCategory::Geometric,
            MySqlTypes::MultiLineString => DataTypeCategory::Geometric,
            MySqlTypes::MultiPolygon => DataTypeCategory::Geometric,
            MySqlTypes::GeometryCollection => DataTypeCategory::Geometric,
            MySqlTypes::BitField => DataTypeCategory::Other,
            MySqlTypes::EnumInner => DataTypeCategory::Other,
            MySqlTypes::SetInner => DataTypeCategory::Other,
            MySqlTypes::GeometryInner => DataTypeCategory::Other,
            MySqlTypes::Unknown => DataTypeCategory::Other,
        }
    }
}

/// SQLite native column types.
#[derive(Debug, Clone, Copy, PartialEq, Eq, Structural)]
pub enum SqliteTypes {
    Integer,
    Real,
    Text,
    Blob,
    Numeric,
    Date,
    Time,
    DateTime,
    Boolean,
    Unknown,
}

impl SqliteTypes {
    /// The category a SQLite native type belongs to; total, with exactly one
    /// category per type.
    pub open spec fn spec_category(self) -> DataTypeCategory {
        match self {
            SqliteTypes::Integer => DataTypeCategory::Numeric,
            SqliteTypes::Real => DataTypeCategory::Numeric,
            SqliteTypes::Numeric => DataTypeCategory::Numeric,
            SqliteTypes::Date => DataTypeCategory::DateTime,
            SqliteTypes::Time => DataTypeCategory::DateTime,
            SqliteTypes::DateTime => DataTypeCategory::DateTime,
            SqliteTypes::Text => DataTypeCategory::Text,
            SqliteTypes::Blob => DataTypeCategory::Other,
            SqliteTypes::Boolean => DataTypeCategory::Other,
            SqliteTypes::Unknown => DataTypeCategory::Other,
        }
    }

    /// The category a SQLite native type belongs to.
    pub fn category(&self) -> (c: DataTypeCategory)
        ensures
            c == self.spec_category(),
    {
        match self {
            SqliteTypes::Integer => DataTypeCategory::Numeric,
            SqliteTypes::Real => DataTypeCategory::Numeric,
            SqliteTypes::Numeric => DataTypeCategory::Numeric,
            SqliteTypes::Date => DataTypeCategory::DateTime,
            SqliteTypes::Time => DataTypeCategory::DateTime,
            SqliteTypes::DateTime => DataTypeCategory::DateTime,
            SqliteTypes::Text => DataTypeCategory::Text,
            SqliteTypes::Blob => DataTypeCategory::Other,
            SqliteTypes::Boolean => DataTypeCategory::Other,
            SqliteTypes::Unknown => DataTypeCategory::Other,
        }
    }
}

/// The Postgres native types kept by a catalog, in insertion order.
#[derive(Debug, Clone, PartialEq, Eq)]
pub struct PostgresTypeMap {
    pub types: Vec<PostgresTypes>,
}

/// The MySQL native types kept by a catalog, in insertion order.
#[derive(Debug, Clone, PartialEq, Eq)]
pub struct MySqlTypeMap {
    pub types: Vec<MySqlTypes>,
}

/// The SQLite native types kept by a catalog, in insertion order.
#[derive(Debug, Clone, PartialEq, Eq)]
pub struct SqliteTypeMap {
    pub types: Vec<SqliteTypes>,
}

/// A catalog of native types for all dialects, queried by category.
#[derive(Debug, Clone, PartialEq, Eq)]
pub struct DatabaseTypes {
    pub postgres: PostgresTypeMap,
    pub mysql: MySqlTypeMap,
    pub sqlite: SqliteTypeMap,
}

impl DatabaseTypes {
    /// An empty catalog.
    pub fn new() -> (r: Self)
        ensures
            r.postgres.types@ == Seq::<PostgresTypes>::empty(),
            r.mysql.types@ == Seq::<MySqlTypes>::empty(),
            r.sqlite.types@ == Seq::<SqliteTypes>::empty(),
    {
        DatabaseTypes {
            postgres: PostgresTypeMap { types: Vec::new() },
            mysql: MySqlTypeMap { types: Vec::new() },
            sqlite: SqliteTypeMap { types: Vec::new() },
        }
    }

    /// Records one Postgres native type.
    pub fn add_postgres_type(&mut self, ty: PostgresTypes)
        ensures
            final(self).postgres.types@ == old(self).postgres.types@.push(ty),
            final(self).mysql == old(self).mysql,
            final(self).sqlite == old(self).sqlite,
    {
        self.postgres.types.push(ty);
    }

    /// Records one MySQL native type.
    pub fn add_mysql_type(&mut self, ty: MySqlTypes)
        ensures
            final(self).mysql.types@ == old(self).mysql.types@.push(ty),
            final(self).postgres == old(self).postgres,
            final(self).sqlite == old(self).sqlite,
    {
        self.mysql.types.push(ty);
    }

    /// Records one SQLite native type.
    pub fn add_sqlite_type(&mut self, ty: SqliteTypes)
        ensures
            final(self).sqlite.types@ == old(self).sqlite.types@.push(ty),
            final(self).postgres == old(self).postgres,
            final(self).mysql == old(self).mysql,
    {
        self.sqlite.types.push(ty);
    }

    /// The recorded Postgres types of the given category, in insertion
    /// order; nothing of that category yields `None`.
    pub fn get_postgres_types(&self, category: &DataTypeCategory) -> (r: Option<
        Vec<PostgresTypes>,
    >)
        ensures
            match r {
                Some(v) => v@ == self.postgres.types@.filter(
                    |t: PostgresTypes| t.spec_category() == *category,
                ) && v@.len() > 0,
                None => self.postgres.types@.filter(
                    |t: PostgresTypes| t.spec_category() == *category,
                ).len() == 0,
            },
    {
        let v = filter_postgres_types(&self.postgres.types, category);
        if v.len() == 0 {
            None
        } else {
            Some(v)
        }
    }

    /// The recorded MySQL types of the given category, in insertion order;
    /// nothing of that category yields `None`.
    pub fn get_mysql_types(&self, category: &DataTypeCategory) -> (r: Option<Vec<MySqlTypes>>)
        ensures
            match r {
                Some(v) => v@ == self.mysql.types@.filter(
                    |t: MySqlTypes| t.spec_category() == *category,
                ) && v@.len() > 0,
                None => self.mysql.types@.filter(
                    |t: MySqlTypes| t.spec_category() == *category,
                ).len() == 0,
            },
    {
        let v = filter_mysql_types(&self.mysql.types, category);
        if v.len() == 0 {
            None
        } else {
            Some(v)
        }
    }

    /// The recorded SQLite types of the given category, in insertion order;
    /// nothing of that category yields `None`.
    pub fn get_sqlite_types(&self, category: &DataTypeCategory) -> (r: Option<Vec<SqliteTypes>>)
        ensures
            match r {
                Some(v) => v@ == self.sqlite.types@.filter(
                    |t: SqliteTypes| t.spec_category() == *category,
                ) && v@.len() > 0,
                None => self.sqlite.types@.filter(
                    |t: SqliteTypes| t.spec_category() == *category,
                ).len() == 0,
            },
    {
        let v = filter_sqlite_types(&self.sqlite.types, category);
        if v.len() == 0 {
            None
        } else {
            Some(v)
        }
    }
}

/// The Postgres types of `types` that fall in `category`, in order.
fn filter_postgres_types(types: &Vec<PostgresTypes>, category: &DataTypeCategory) -> (r: Vec<
    PostgresTypes,
>)
    ensures
        r@ == types@.filter(|t: PostgresTypes| t.spec_category() == *category),
{
    let mut v: Vec<PostgresTypes> = Vec::new();
    let mut i: usize = 0;
    let n = types.len();
    while i < n
        invariant
            i <= n,
            n == types@.len(),
            v@ == types@.subrange(0, i as int).filter(
                |t: PostgresTypes| t.spec_category() == *category,
            ),
        decreases n - i,
    {
        let t = types[i];
        proof {
            reveal(Seq::filter);
            assert(types@.subrange(0, i + 1).drop_last() =~= types@.subrange(0, i as int));
        }
        if t.category() == *category {
            v.push(t);
        }
        i = i + 1;
    }
    proof {
        assert(types@.subrange(0, n as int) =~= types@);
    }
    v
}

/// The MySQL types of `types` that fall in `category`, in order.
fn filter_mysql_types(types: &Vec<MySqlTypes>, category: &DataTypeCategory) -> (r: Vec<MySqlTypes>)
    ensures
        r@ == types@.filter(|t: MySqlTypes| t.spec_category() == *category),
{
    let mut v: Vec<MySqlTypes> = Vec::new();
    let mut i: usize = 0;
    let n = types.len();
    while i < n
        invariant
            i <= n,
            n == types@.len(),
            v@ == types@.subrange(0, i as int).filter(
                |t: MySqlTypes| t.spec_category() == *category,
            ),
        decreases n - i,
    {
        let t = types[i];
        proof {
            reveal(Seq::filter);
            assert(types@.subrange(0, i + 1).drop_last() =~= types@.subrange(0, i as int));
        }
        if t.category() == *category {
            v.push(t);
        }
        i = i + 1;
    }
    proof {
        assert(types@.subrange(0, n as int) =~= types@);
    }
    v
}

/// The SQLite types of `types` that fall in `category`, in order.
fn filter_sqlite_types(types: &Vec<SqliteTypes>, category: &DataTypeCategory) -> (r: Vec<
    SqliteTypes,
>)
    ensures
        r@ == types@.filter(|t: SqliteTypes| t.spec_category() == *category),
{
    let mut v: Vec<SqliteTypes> = Vec::new();
    let mut i: usize = 0;
    let n = types.len();
    while i < n
        invariant
            i <= n,
            n == types@.len(),
            v@ == types@.subrange(0, i as int).filter(
                |t: SqliteTypes| t.spec_category() == *category,
            ),
        decreases n - i,
    {
        let t = types[i];
        proof {
            reveal(Seq::filter);
            assert(types@.subrange(0, i + 1).drop_last() =~= types@.subrange(0, i as int));
        }
        if t.category() == *category {
            v.push(t);
        }
        i = i + 1;
    }
    proof {
        assert(types@.subrange(0, n as int) =~= types@);
    }
    v
}

/// Every Postgres native type, in declaration order.
pub open spec fn spec_all_postgres_types() -> Seq<PostgresTypes> {
    seq![
        PostgresTypes::Boolean,
        PostgresTypes::Serial,
        PostgresTypes::Uuid,
        PostgresTypes::Array,
        PostgresTypes::Json,
        PostgresTypes::JsonB,
        PostgresTypes::HStore,
        PostgresTypes::TsVector,
        PostgresTypes::TsQuery,
        PostgresTypes::CiText,
        PostgresTypes::Point,
        PostgresTypes::Line,
        PostgresTypes::Lseg,
        PostgresTypes::Box,
        PostgresTypes::Path,
        PostgresTypes::Polygon,
        PostgresTypes::Circle,
        PostgresTypes::Inet,
        PostgresTypes::Cidr,
        PostgresTypes::Money,
        PostgresTypes::Bit,
        PostgresTypes::BitVarying,
        PostgresTypes::Interval,
        PostgresTypes::TimeWithTimeZone,
        PostgresTypes::TimestampWithTimeZone,
        PostgresTypes::Enum,
        PostgresTypes::Composite,
        PostgresTypes::Domain,
        PostgresTypes::Range,
    ]
}

/// Every Postgres native type, in declaration order.
pub fn all_postgres_types() -> (r: Vec<PostgresTypes>)
    ensures
        r@ == spec_all_postgres_types(),
{
    let mut v: Vec<PostgresTypes> = Vec::new();
    v.push(PostgresTypes::Boolean);
    v.push(PostgresTypes::Serial);
    v.push(PostgresTypes::Uuid);
    v.push(PostgresTypes::Array);
    v.push(PostgresTypes::Json);
    v.push(PostgresTypes::JsonB);
    v.push(PostgresTypes::HStore);
    v.push(PostgresTypes::TsVector);
    v.push(PostgresTypes::TsQuery);
    v.push(PostgresTypes::CiText);
    v.push(PostgresTypes::Point);
    v.push(PostgresTypes::Line);
    v.push(PostgresTypes::Lseg);
    v.push(PostgresTypes::Box);
    v.push(PostgresTypes::Path);
    v.push(PostgresTypes::Polygon);
    v.push(PostgresTypes::Circle);
    v.push(PostgresTypes::Inet);
    v.push(PostgresTypes::Cidr);
    v.push(PostgresTypes::Money);
    v.push(PostgresTypes::Bit);
    v.push(PostgresTypes::BitVarying);
    v.push(PostgresTypes::Interval);
    v.push(PostgresTypes::TimeWithTimeZone);
    v.push(PostgresTypes::TimestampWithTimeZone);
    v.push(PostgresTypes::Enum);
    v.push(PostgresTypes::Composite);
    v.push(PostgresTypes::Domain);
    v.push(PostgresTypes::Range);
    proof {
        assert(v@ =~= spec_all_postgres_types());
    }
    v
}

/// Every MySQL native type, in declaration order.
pub open spec fn spec_all_mysql_types() -> Seq<MySqlTypes> {
    seq![
        MySqlTypes::Bit,
        MySqlTypes::TinyInt,
        MySqlTypes::SmallInt,
        MySqlTypes::MediumInt,
        MySqlTypes::Int,
        MySqlTypes::BigInt,
        MySqlTypes::Float,
        MySqlTypes::Double,
        MySqlTypes::Decimal,
        MySqlTypes::Date,
        MySqlTypes::DateTime,
        MySqlTypes::Time,
        MySqlTypes::Timestamp,
        MySqlTypes::Year,
        MySqlTypes::Char,
        MySqlTypes::VarChar,
        MySqlTypes::Binary,
        MySqlTypes::VarBinary,
        MySqlTypes::TinyBlob,
        MySqlTypes::Blob,
        MySqlTypes::MediumBlob,
        MySqlTypes::LongBlob,
        MySqlTypes::TinyText,
        MySqlTypes::Text,
        MySqlTypes::MediumText,
        MySqlTypes::LongText,
        MySqlTypes::Enum,
        MySqlTypes::SetType,
        MySqlTypes::Geometry,
        MySqlTypes::Point,
        MySqlTypes::LineString,
        MySqlTypes::Polygon,
        MySqlTypes::MultiPoint,
        MySqlTypes::MultiLineString,
        MySqlTypes::MultiPolygon,
        MySqlTypes::GeometryCollection,
        MySqlTypes::Json,
        MySqlTypes::BinaryJson,
        MySqlTypes::BitField,
        MySqlTypes::NewDecimal,
        MySqlTypes::EnumInner,
        MySqlTypes::SetInner,
        MySqlTypes::GeometryInner,
        MySqlTypes::Unknown,
    ]
}

/// Every MySQL native type, in declaration order.
pub fn all_mysql_types() -> (r: Vec<MySqlTypes>)
    ensures
        r@ == spec_all_mysql_types(),
{
    let mut v: Vec<MySqlTypes> = Vec::new();
    v.push(MySqlTypes::Bit);
    v.push(MySqlTypes::TinyInt);
    v.push(MySqlTypes::SmallInt);
    v.push(MySqlTypes::MediumInt);
    v.push(MySqlTypes::Int);
    v.push(MySqlTypes::BigInt);
    v.push(MySqlTypes::Float);
    v.push(MySqlTypes::Double);
    v.push(MySqlTypes::Decimal);
    v.push(MySqlTypes::Date);
    v.push(MySqlTypes::DateTime);
    v.push(MySqlTypes::Time);
    v.push(MySqlTypes::Timestamp);
    v.push(MySqlTypes::Year);
    v.push(MySqlTypes::Char);
    v.push(MySqlTypes::VarChar);
    v.push(MySqlTypes::Binary);
    v.push(MySqlTypes::VarBinary);
    v.push(MySqlTypes::TinyBlob);
    v.push(MySqlTypes::Blob);
    v.push(MySqlTypes::MediumBlob);
    v.push(MySqlTypes::LongBlob);
    v.push(MySqlTypes::TinyText);
    v.push(MySqlTypes::Text);
    v.push(MySqlTypes::MediumText);
    v.push(MySqlTypes::LongText);
    v.push(MySqlTypes::Enum);
    v.push(MySqlTypes::SetType);
    v.push(MySqlTypes::Geometry);
    v.push(MySqlTypes::Point);
    v.push(MySqlTypes::LineString);
    v.push(MySqlTypes::Polygon);
    v.push(MySqlTypes::MultiPoint);
    v.push(MySqlTypes::MultiLineString);
    v.push(MySqlTypes::MultiPolygon);
    v.push(MySqlTypes::GeometryCollection);
    v.push(MySqlTypes::Json);
    v.push(MySqlTypes::BinaryJson);
    v.push(MySqlTypes::BitField);
    v.push(MySqlTypes::NewDecimal);
    v.push(MySqlTypes::EnumInner);
    v.push(MySqlTypes::SetInner);
    v.push(MySqlTypes::GeometryInner);
    v.push(MySqlTypes::Unknown);
    proof {
        assert(v@ =~= spec_all_mysql_types());
    }
    v
}

/// Every SQLite native type, in declaration order.
pub open spec fn spec_all_sqlite_types() -> Seq<SqliteTypes> {
    seq![
        SqliteTypes::Integer,
        SqliteTypes::Real,
        SqliteTypes::Text,
        SqliteTypes::Blob,
        SqliteTypes::Numeric,
        SqliteTypes::Date,
        SqliteTypes::Time,
        SqliteTypes::DateTime,
        SqliteTypes::Boolean,
        SqliteTypes::Unknown,
    ]
}

/// Every SQLite native type, in declaration order.
pub fn all_sqlite_types() -> (r: Vec<SqliteTypes>)
    ensures
        r@ == spec_all_sqlite_types(),
{
    let mut v: Vec<SqliteTypes> = Vec::new();
    v.push(SqliteTypes::Integer);
    v.push(SqliteTypes::Real);
    v.push(SqliteTypes::Text);
    v.push(SqliteTypes::Blob);
    v.push(SqliteTypes::Numeric);
    v.push(SqliteTypes::Date);
    v.push(SqliteTypes::Time);
    v.push(SqliteTypes::DateTime);
    v.push(SqliteTypes::Boolean);
    v.push(SqliteTypes::Unknown);
    proof {
        assert(v@ =~= spec_all_sqlite_types());
    }
    v
}

impl DataTypeCategory {
    /// The dialect's native types that fall in this category, in declaration
    /// order, in a catalog whose other dialects are left empty; Mongo
    /// catalogues no native types, so every part stays empty.
    pub fn get_data_types_from_data_type_category(&self, database_type: DatabaseType) -> (r:
        DatabaseTypes)
        ensures
            r.postgres.types@ == (if database_type is Postgres {
                spec_all_postgres_types().filter(|t: PostgresTypes| t.spec_category() == *self)
            } else {
                Seq::<PostgresTypes>::empty()
            }),
            r.mysql.types@ == (if database_type is Mysql {
                spec_all_mysql_types().filter(|t: MySqlTypes| t.spec_category() == *self)
            } else {
                Seq::<MySqlTypes>::empty()
            }),
            r.sqlite.types@ == (if database_type is Sqlite {
                spec_all_sqlite_types().filter(|t: SqliteTypes| t.spec_category() == *self)
            } else {
                Seq::<SqliteTypes>::empty()
            }),
    {
        let mut r = DatabaseTypes::new();
        match database_type {
            DatabaseType::Postgres => {
                r.postgres.types = filter_postgres_types(&all_postgres_types(), self);
            },
            DatabaseType::Mysql => {
                r.mysql.types = filter_mysql_types(&all_mysql_types(), self);
            },
            DatabaseType::Sqlite => {
                r.sqlite.types = filter_sqlite_types(&all_sqlite_types(), self);
            },
            DatabaseType::Mongo => {},
        }
        r
    }
}

} // verus!
