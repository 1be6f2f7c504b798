//! The enumerations that the database stores as integers.
use vstd::prelude::*;

verus! {

/// The things content can be; `Other` means it has to be assigned by hand
/// or does not exist yet.
#[derive(Clone, Copy, PartialEq, Eq, Structural, Debug)]
pub enum ContentType {
    Other,
    Movie,
    Episode,
    Song,
}

/// All things that can be inside collections.
#[derive(Clone, Copy, PartialEq, Eq, Structural, Debug)]
pub enum TableId {
    Collection,
    Content,
}

/// All different types of collections.
#[derive(Clone, Copy, PartialEq, Eq, Structural, Debug)]
pub enum CollectionType {
    UserCollection,
    Franchise,
    Season,
    Series,
    Theme,
}

impl ContentType {
    /// The integer that stands for the content type in the database.
    pub open spec fn code(self) -> i64 {
        match self {
            ContentType::Other => 0,
            ContentType::Movie => 1,
            ContentType::Episode => 2,
            ContentType::Song => 3,
        }
    }

    /// The integer stored for this content type.
    pub fn to_sql(&self) -> (r: i64)
        ensures
            r == self.code(),
    {
        match self {
            ContentType::Other => 0,
            ContentType::Movie => 1,
            ContentType::Episode => 2,
            ContentType::Song => 3,
        }
    }

    /// The content type an integer column holds; `None` for an integer
    /// that stands for none.
    pub fn column_result(value: i64) -> (r: Option<ContentType>)
        ensures
            r matches Some(c) ==> c.code() == value,
            r is None <==> !(0 <= value <= 3),
    {
        match value {
            0 => Some(ContentType::Other),
            1 => Some(ContentType::Movie),
            2 => Some(ContentType::Episode),
            3 => Some(ContentType::Song),
            _ => None,
        }
    }
}

impl TableId {
    /// The integer that stands for the table in the database.
    pub open spec fn code(self) -> i64 {
        match self {
            TableId::Collection => 0,
            TableId::Content => 1,
        }
    }

    /// The integer stored for this table.
    pub fn to_sql(&self) -> (r: i64)
        ensures
            r == self.code(),
    {
        match self {
            TableId::Collection => 0,
            TableId::Content => 1,
        }
    }

    /// The table an integer column names; `None` for an integer that
    /// names none.
    pub fn column_result(value: i64) -> (r: Option<TableId>)
        ensures
            r matches Some(t) ==> t.code() == value,
            r is None <==> !(0 <= value <= 1),
    {
        match value {
            0 => Some(TableId::Collection),
            1 => Some(TableId::Content),
            _ => None,
        }
    }
}

impl CollectionType {
    /// The integer that stands for the collection type in the database.
    pub open spec fn code(self) -> i64 {
        match self {
            CollectionType::UserCollection => 0,
            CollectionType::Franchise => 1,
            CollectionType::Season => 2,
            CollectionType::Series => 3,
            CollectionType::Theme => 4,
        }
    }

    /// The integer stored for this collection type.
    pub fn to_sql(&self) -> (r: i64)
        ensures
            r == self.code(),
    {
        match self {
            CollectionType::UserCollection => 0,
            CollectionType::Franchise => 1,
            CollectionType::Season => 2,
            CollectionType::Series => 3,
            CollectionType::Theme => 4,
        }
    }

    /// The collection type an integer column holds; `None` for an integer
    /// that stands for none.
    pub fn column_result(value: i64) -> (r: Option<CollectionType>)
        ensures
            r matches Some(c) ==> c.code() == value,
            r is None <==> !(0 <= value <= 4),
    {
        match value {
            0 => Some(CollectionType::UserCollection),
            1 => Some(CollectionType::Franchise),
            2 => Some(CollectionType::Season),
            3 => Some(CollectionType::Series),
            4 => Some(CollectionType::Theme),
            _ => None,
        }
    }
}

/// Storing a content type and reading it back gives the same content type,
/// and distinct content types are stored as distinct integers.
pub proof fn content_type_roundtrip(a: ContentType, b: ContentType)
    ensures
        0 <= a.code() <= 3,
        a.code() == b.code() ==> a == b,
{
}

/// Storing a table id and reading it back gives the same table id, and
/// distinct table ids are stored as distinct integers.
pub proof fn table_id_roundtrip(a: TableId, b: TableId)
    ensures
        0 <= a.code() <= 1,
        a.code() == b.code() ==> a == b,
{
}

/// Storing a collection type and reading it back gives the same collection
/// type, and distinct collection types are stored as distinct integers.
pub proof fn collection_type_roundtrip(a: CollectionType, b: CollectionType)
    ensures
        0 <= a.code() <= 4,
        a.code() == b.code() ==> a == b,
{
}

} // verus!
