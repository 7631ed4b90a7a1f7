use vstd::prelude::*;
use crate::model::Addon;

verus! {

/// One value of a result row, as the database hands it over.
#[derive(Clone, Debug)]
pub enum Column {
    Null,
    Integer(i64),
    Text(String),
}

/// How rows of the record set become addons.
#[derive(Clone, Copy, Debug, PartialEq, Eq)]
pub enum MappingMode {
    /// Three columns read by position; a row without them is left out.
    Positional,
    /// Every column of the addon, decoded as a whole; a row that does not
    /// decode fails the request.
    Typed,
}

/// The statement whose rows `Positional` reads: id, repository, download count.
pub const POSITIONAL_QUERY: &'static str = "SELECT id, repository, total_download_count FROM addon";

/// The statement whose rows `Typed` reads, one column for each field of an addon.
pub const TYPED_QUERY: &'static str = "SELECT id, repository, repository_name, source, description, homepage, image_url, owner_image_url, owner_name, total_download_count, updated_at FROM addon";

/// The fixed statement that the catalog runs in the given mode.
pub fn query_for(mode: MappingMode) -> (r: &'static str)
    ensures
        mode == MappingMode::Positional ==> r@ == POSITIONAL_QUERY@,
        mode == MappingMode::Typed ==> r@ == TYPED_QUERY@,
{
    match mode {
        MappingMode::Positional => POSITIONAL_QUERY,
        MappingMode::Typed => TYPED_QUERY,
    }
}

/// The value at a position of a row; a position past the end reads as null.
pub open spec fn column_at(row: Seq<Column>, i: int) -> Column {
    if 0 <= i < row.len() {
        row[i]
    } else {
        Column::Null
    }
}

pub open spec fn integer_of(c: Column) -> Option<i64> {
    match c {
        Column::Integer(n) => Some(n),
        _ => None,
    }
}

pub open spec fn text_of(c: Column) -> Option<String> {
    match c {
        Column::Text(s) => Some(s),
        _ => None,
    }
}

/// A column that may be null: `Some(None)` for null, `None` for a value of
/// the wrong kind.
pub open spec fn optional_integer_of(c: Column) -> Option<Option<i64>> {
    match c {
        Column::Null => Some(None),
        Column::Integer(n) => Some(Some(n)),
        Column::Text(_) => None,
    }
}

pub open spec fn optional_text_of(c: Column) -> Option<Option<String>> {
    match c {
        Column::Null => Some(None),
        Column::Text(s) => Some(Some(s)),
        Column::Integer(_) => None,
    }
}

/// The addon that a positional row gives: id, repository and download count
/// must be there with the right kind, and nothing else is read.
pub open spec fn positional_addon(row: Seq<Column>) -> Option<Addon> {
    let id = integer_of(column_at(row, 0));
    let repository = text_of(column_at(row, 1));
    let downloads = integer_of(column_at(row, 2));
    if id is Some && repository is Some && downloads is Some {
        Some(
            Addon {
                id: id->Some_0,
                repository: repository->Some_0,
                repository_name: None,
                source: None,
                description: None,
                homepage: None,
                image_url: None,
                owner_image_url: None,
                owner_name: None,
                total_download_count: Some(downloads->Some_0),
                updated_at: None,
            },
        )
    } else {
        None
    }
}

/// The addons of the rows that a positional read keeps, in row order.
pub open spec fn positional_addons(rows: Seq<Vec<Column>>) -> Seq<Addon>
    decreases rows.len(),
{
    if rows.len() == 0 {
        Seq::empty()
    } else {
        let kept = positional_addons(rows.drop_last());
        match positional_addon(rows.last()@) {
            Some(a) => kept.push(a),
            None => kept,
        }
    }
}

/// The addon that a typed row decodes to: id and repository must be there with
/// the right kind; every other column may be null or missing, and becomes an
/// empty field, but may not hold the wrong kind of value.
pub open spec fn typed_addon(row: Seq<Column>) -> Option<Addon> {
    let id = integer_of(column_at(row, 0));
    let repository = text_of(column_at(row, 1));
    let repository_name = optional_text_of(column_at(row, 2));
    let source = optional_text_of(column_at(row, 3));
    let description = optional_text_of(column_at(row, 4));
    let homepage = optional_text_of(column_at(row, 5));
    let image_url = optional_text_of(column_at(row, 6));
    let owner_image_url = optional_text_of(column_at(row, 7));
    let owner_name = optional_text_of(column_at(row, 8));
    let downloads = optional_integer_of(column_at(row, 9));
    let updated_at = optional_text_of(column_at(row, 10));
    if id is Some && repository is Some && repository_name is Some && source is Some
        && description is Some && homepage is Some && image_url is Some && owner_image_url is Some
        && owner_name is Some && downloads is Some && updated_at is Some {
        Some(
            Addon {
                id: id->Some_0,
                repository: repository->Some_0,
                repository_name: repository_name->Some_0,
                source: source->Some_0,
                description: description->Some_0,
                homepage: homepage->Some_0,
                image_url: image_url->Some_0,
                owner_image_url: owner_image_url->Some_0,
                owner_name: owner_name->Some_0,
                total_download_count: downloads->Some_0,
                updated_at: updated_at->Some_0,
            },
        )
    } else {
        None
    }
}

/// The addons of a typed read: one for each row, in order, or nothing at all
/// where some row does not decode.
pub open spec fn typed_addons(rows: Seq<Vec<Column>>) -> Option<Seq<Addon>>
    decreases rows.len(),
{
    if rows.len() == 0 {
        Some(Seq::empty())
    } else {
        match (typed_addons(rows.drop_last()), typed_addon(rows.last()@)) {
            (Some(kept), Some(a)) => Some(kept.push(a)),
            _ => None,
        }
    }
}

fn integer_column(row: &Vec<Column>, i: usize) -> (r: Option<i64>)
    ensures
        r == integer_of(column_at(row@, i as int)),
{
    if i < row.len() {
        match &row[i] {
            Column::Integer(n) => Some(*n),
            _ => None,
        }
    } else {
        None
    }
}

fn text_column(row: &Vec<Column>, i: usize) -> (r: Option<String>)
    ensures
        r == text_of(column_at(row@, i as int)),
{
    if i < row.len() {
        match &row[i] {
            Column::Text(s) => Some(s.clone()),
            _ => None,
        }
    } else {
        None
    }
}

fn optional_integer_column(row: &Vec<Column>, i: usize) -> (r: Option<Option<i64>>)
    ensures
        r == optional_integer_of(column_at(row@, i as int)),
{
    if i < row.len() {
        match &row[i] {
            Column::Null => Some(None),
            Column::Integer(n) => Some(Some(*n)),
            Column::Text(_) => None,
        }
    } else {
        Some(None)
    }
}

fn optional_text_column(row: &Vec<Column>, i: usize) -> (r: Option<Option<String>>)
    ensures
        r == optional_text_of(column_at(row@, i as int)),
{
    if i < row.len() {
        match &row[i] {
            Column::Null => Some(None),
            Column::Text(s) => Some(Some(s.clone())),
            Column::Integer(_) => None,
        }
    } else {
        Some(None)
    }
}

/// Reads one row by position; `None` where a required column is missing or
/// holds the wrong kind of value.
pub fn addon_from_positional(row: &Vec<Column>) -> (r: Option<Addon>)
    ensures
        r == positional_addon(row@),
{
    let id = integer_column(row, 0);
    let repository = text_column(row, 1);
    let downloads = integer_column(row, 2);
    match (id, repository, downloads) {
        (Some(id), Some(repository), Some(downloads)) => Some(
            Addon {
                id,
                repository,
                repository_name: None,
                source: None,
                description: None,
                homepage: None,
                image_url: None,
                owner_image_url: None,
                owner_name: None,
                total_download_count: Some(downloads),
                updated_at: None,
            },
        ),
        _ => None,
    }
}

/// Reads every row by position and keeps those that give an addon, in order.
/// A malformed row is skipped; it never fails the batch.
pub fn addons_from_positional(rows: &Vec<Vec<Column>>) -> (r: Vec<Addon>)
    ensures
        r@ == positional_addons(rows@),
{
    let mut out: Vec<Addon> = Vec::new();
    let mut i: usize = 0;
    while i < rows.len()
        invariant
            i <= rows.len(),
            out@ == positional_addons(rows@.subrange(0, i as int)),
        decreases rows.len() - i,
    {
        let ghost before = rows@.subrange(0, i as int);
        assert(rows@.subrange(0, i + 1).drop_last() == before);
        match addon_from_positional(&rows[i]) {
            Some(a) => out.push(a),
            None => {},
        }
        i = i + 1;
    }
    assert(rows@.subrange(0, rows.len() as int) == rows@);
    out
}

/// Decodes one row as a whole addon; `None` where it does not decode.
pub fn addon_from_typed(row: &Vec<Column>) -> (r: Option<Addon>)
    ensures
        r == typed_addon(row@),
{
    let id = integer_column(row, 0);
    let repository = text_column(row, 1);
    let repository_name = optional_text_column(row, 2);
    let source = optional_text_column(row, 3);
    let description = optional_text_column(row, 4);
    let homepage = optional_text_column(row, 5);
    let image_url = optional_text_column(row, 6);
    let owner_image_url = optional_text_column(row, 7);
    let owner_name = optional_text_column(row, 8);
    let downloads = optional_integer_column(row, 9);
    let updated_at = optional_text_column(row, 10);
    match (id, repository, repository_name, source, description, homepage) {
        (Some(id), Some(repository), Some(repository_name), Some(source), Some(description), Some(homepage)) => {
            match (image_url, owner_image_url, owner_name, downloads, updated_at) {
                (Some(image_url), Some(owner_image_url), Some(owner_name), Some(downloads), Some(updated_at)) => Some(
                    Addon {
                        id,
                        repository,
                        repository_name,
                        source,
                        description,
                        homepage,
                        image_url,
                        owner_image_url,
                        owner_name,
                        total_download_count: downloads,
                        updated_at,
                    },
                ),
                _ => None,
            }
        },
        _ => None,
    }
}

/// Decodes every row as a whole addon. `Err(i)` names the first row that
/// does not decode; then no addon is returned.
pub fn addons_from_typed(rows: &Vec<Vec<Column>>) -> (r: Result<Vec<Addon>, usize>)
    ensures
        typed_addons(rows@) is Some <==> r is Ok,
        r is Ok ==> r->Ok_0@ == typed_addons(rows@)->Some_0,
        r is Err ==> {
            let i = r->Err_0 as int;
            &&& i < rows@.len()
            &&& typed_addon(rows@[i]@) is None
            &&& forall|j: int| 0 <= j < i ==> (#[trigger] typed_addon(rows@[j]@)) is Some
        },
{
    let mut out: Vec<Addon> = Vec::new();
    let mut i: usize = 0;
    while i < rows.len()
        invariant
            i <= rows.len(),
            typed_addons(rows@.subrange(0, i as int)) == Some(out@),
            forall|j: int| 0 <= j < i ==> (#[trigger] typed_addon(rows@[j]@)) is Some,
        decreases rows.len() - i,
    {
        assert(rows@.subrange(0, i + 1).drop_last() == rows@.subrange(0, i as int));
        match addon_from_typed(&rows[i]) {
            Some(a) => out.push(a),
            None => {
                proof {
                    lemma_typed_fails_from(rows@, i as int);
                }
                return Err(i);
            },
        }
        i = i + 1;
    }
    assert(rows@.subrange(0, rows.len() as int) == rows@);
    Ok(out)
}

/// Once a row does not decode, no longer prefix decodes either.
proof fn lemma_typed_fails_from(rows: Seq<Vec<Column>>, i: int)
    requires
        0 <= i < rows.len(),
        typed_addon(rows[i]@) is None,
    ensures
        typed_addons(rows) is None,
    decreases rows.len(),
{
    if i < rows.len() - 1 {
        lemma_typed_fails_from(rows.drop_last(), i);
    }
}

} // verus!
