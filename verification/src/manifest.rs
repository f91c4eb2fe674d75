//! The parts of a Cargo manifest that hold the MSRV, read and edited in a `toml_edit`
//! document.
//!
//! A document is seen as the map from each key path (the keys from the root down) to the
//! item found there: a table, an inline table, a string with its text, or any other value.
//! Paths go down through tables and inline tables only, and placeholders that `toml_edit`
//! leaves for keys that were looked up but never set are not items.
use vstd::prelude::*;
use toml_edit::Document;
use crate::error::CargoMSRVError;
use crate::version::BareVersion;
use crate::version::parse::{parse_bare, parse_bare_version};

verus! {

/// `toml_edit`'s document, seen through [`toml_items`].
#[verifier::external_type_specification]
#[verifier::external_body]
pub struct ExDocument(toml_edit::Document);

/// `toml_edit`'s item, told apart by [`kind_of`].
#[verifier::external_type_specification]
#[verifier::external_body]
pub struct ExItem(toml_edit::Item);

/// `toml_edit`'s parse error, carried opaquely.
#[verifier::external_type_specification]
#[verifier::external_body]
pub struct ExTomlError(toml_edit::TomlError);

/// The kind of an item of a TOML document.
#[derive(Clone, Copy, Debug, PartialEq, Eq, Structural)]
pub enum TomlKind {
    Table,
    InlineTable,
    /// A string value.
    Str,
    /// Any other value, or an array of tables.
    Other,
}

/// The items of a document: key path to kind, and to the text where the item is a string.
pub uninterp spec fn toml_items(doc: Document) -> Map<Seq<Seq<char>>, (TomlKind, Seq<char>)>;

/// The kind of the item at `path`, if there is one.
pub open spec fn kind_at(items: Map<Seq<Seq<char>>, (TomlKind, Seq<char>)>, path: Seq<Seq<char>>) -> Option<
    TomlKind,
> {
    if items.dom().contains(path) {
        Some(items[path].0)
    } else {
        None
    }
}

/// The text of the string at `path`, if there is a string there.
pub open spec fn str_at(items: Map<Seq<Seq<char>>, (TomlKind, Seq<char>)>, path: Seq<Seq<char>>) -> Option<
    Seq<char>,
> {
    if items.dom().contains(path) && items[path].0 == TomlKind::Str {
        Some(items[path].1)
    } else {
        None
    }
}

pub open spec fn is_table_like(kind: Option<TomlKind>) -> bool {
    kind == Some(TomlKind::Table) || kind == Some(TomlKind::InlineTable)
}

/// `prefix` is a prefix of `path`.
pub open spec fn is_prefix(prefix: Seq<Seq<char>>, path: Seq<Seq<char>>) -> bool {
    prefix.len() <= path.len() && path.take(prefix.len() as int) == prefix
}

/// The items without the one at `prefix` and everything below it.
pub open spec fn remove_under(
    items: Map<Seq<Seq<char>>, (TomlKind, Seq<char>)>,
    prefix: Seq<Seq<char>>,
) -> Map<Seq<Seq<char>>, (TomlKind, Seq<char>)> {
    items.restrict(items.dom().filter(|p: Seq<Seq<char>>| !is_prefix(prefix, p)))
}

/// Whether there is an item below `prefix`.
pub open spec fn has_children(
    items: Map<Seq<Seq<char>>, (TomlKind, Seq<char>)>,
    prefix: Seq<Seq<char>>,
) -> bool {
    exists|p: Seq<Seq<char>>|
        items.dom().contains(p) && is_prefix(prefix, p) && p.len() > prefix.len()
}

pub open spec fn package_path() -> Seq<Seq<char>> {
    seq!["package"@]
}

pub open spec fn package_key_path(key: Seq<char>) -> Seq<Seq<char>> {
    seq!["package"@, key]
}

pub open spec fn metadata_path() -> Seq<Seq<char>> {
    seq!["package"@, "metadata"@]
}

pub open spec fn metadata_key_path(key: Seq<char>) -> Seq<Seq<char>> {
    seq!["package"@, "metadata"@, key]
}

/// A string entry.
pub open spec fn str_entry(text: Seq<char>) -> (TomlKind, Seq<char>) {
    (TomlKind::Str, text)
}

/// Items whose paths go down through tables and inline tables only: every item below the
/// top level sits in a table-like item. True of every document by the way items are seen.
pub open spec fn well_nested(items: Map<Seq<Seq<char>>, (TomlKind, Seq<char>)>) -> bool {
    forall|p: Seq<Seq<char>>|
        items.dom().contains(p) && p.len() > 1 ==> is_table_like(
            #[trigger] kind_at(items, p.drop_last()),
        )
}

/// In well-nested items, nothing lies below a path that is not there.
pub proof fn lemma_absent_has_no_descendants(
    items: Map<Seq<Seq<char>>, (TomlKind, Seq<char>)>,
    q: Seq<Seq<char>>,
    p: Seq<Seq<char>>,
)
    requires
        well_nested(items),
        q.len() >= 1,
        !items.dom().contains(q),
        is_prefix(q, p),
    ensures
        !items.dom().contains(p),
    decreases p.len(),
{
    if items.dom().contains(p) {
        if p.len() == q.len() {
            assert(p =~= p.take(q.len() as int));
        } else {
            let r = p.drop_last();
            assert(is_table_like(kind_at(items, r)));
            assert(r.take(q.len() as int) =~= p.take(q.len() as int));
            lemma_absent_has_no_descendants(items, q, r);
        }
    }
}

/// Removing what is not there changes nothing.
pub proof fn lemma_remove_absent(items: Map<Seq<Seq<char>>, (TomlKind, Seq<char>)>, q: Seq<Seq<char>>)
    requires
        well_nested(items),
        q.len() >= 1,
        !items.dom().contains(q),
    ensures
        remove_under(items, q) == items,
{
    assert forall|p: Seq<Seq<char>>| items.dom().contains(p) implies !is_prefix(q, p) by {
        if is_prefix(q, p) {
            lemma_absent_has_no_descendants(items, q, p);
        }
    }
    assert(remove_under(items, q) =~= items);
}

/// A `package.metadata` item sits in a table-like `package`.
pub proof fn lemma_metadata_under_package(items: Map<Seq<Seq<char>>, (TomlKind, Seq<char>)>)
    requires
        well_nested(items),
        kind_at(items, metadata_path()) is Some,
    ensures
        is_table_like(kind_at(items, package_path())),
{
    assert(metadata_path().drop_last() =~= package_path());
    assert(is_table_like(kind_at(items, metadata_path().drop_last())));
}

/// Removing an item with everything below it keeps the rest well nested.
pub proof fn lemma_remove_under_keeps_nesting(
    items: Map<Seq<Seq<char>>, (TomlKind, Seq<char>)>,
    prefix: Seq<Seq<char>>,
)
    requires
        well_nested(items),
    ensures
        well_nested(remove_under(items, prefix)),
{
    let r = remove_under(items, prefix);
    assert forall|p: Seq<Seq<char>>| r.dom().contains(p) && p.len() > 1 implies is_table_like(
        #[trigger] kind_at(r, p.drop_last()),
    ) by {
        let q = p.drop_last();
        assert(is_table_like(kind_at(items, q)));
        if is_prefix(prefix, q) {
            assert(p.take(prefix.len() as int) =~= q.take(prefix.len() as int));
            assert(is_prefix(prefix, p));
        }
        assert(r.dom().contains(q));
    }
}

/// The kind of a `toml_edit` item, telling the variants apart.
#[verifier::external_body]
fn kind_of(item: &toml_edit::Item) -> Option<TomlKind> {
    match item {
        toml_edit::Item::None => None,
        toml_edit::Item::Table(_) => Some(TomlKind::Table),
        toml_edit::Item::Value(toml_edit::Value::InlineTable(_)) => Some(TomlKind::InlineTable),
        toml_edit::Item::Value(toml_edit::Value::String(_)) => Some(TomlKind::Str),
        _ => Some(TomlKind::Other),
    }
}

/// The items that `toml_edit` parses out of a text, `None` where it refuses the text.
pub uninterp spec fn parsed_items(text: Seq<char>) -> Option<Map<Seq<Seq<char>>, (TomlKind, Seq<char>)>>;

/// Parses the text of a manifest into a `toml_edit` document, keeping its formatting: the
/// document's items are those that the text parses to, and have the shape that every
/// document's items have.
#[verifier::external_body]
pub fn parse_document(text: &str) -> (r: Result<Document, toml_edit::TomlError>)
    ensures
        match r {
            Ok(doc) => parsed_items(text@) == Some(toml_items(doc)),
            Err(_) => parsed_items(text@) is None,
        },
        r matches Ok(doc) ==> well_nested(toml_items(doc)),
{
    text.parse::<Document>()
}

/// The text that `toml_edit` writes out for a document (its `Display`). Placeholders left by
/// lookups are not written.
pub uninterp spec fn toml_text(doc: Document) -> Seq<char>;

/// `toml_edit`: the document written out as text. What the text holds is not stated beyond
/// its name: the layout depends on more than the items (formatting, and tables that are only
/// implied by their sub-tables and vanish when left empty).
#[verifier::external_body]
pub fn render_document(doc: &Document) -> (s: String)
    ensures
        s@ == toml_text(*doc),
{
    doc.to_string()
}

/// `toml_edit`: the kind of the top-level item `key` (`Table::get` skips placeholders).
#[verifier::external_body]
pub fn top_level_kind(doc: &Document, key: &str) -> (r: Option<TomlKind>)
    ensures
        r == kind_at(toml_items(*doc), seq![key@]),
{
    doc.as_table().get(key).and_then(kind_of)
}

/// `toml_edit`: the kind of `package.<key>` (`Item::get` looks into tables and inline tables
/// only, and skips placeholders).
#[verifier::external_body]
pub fn package_child_kind(doc: &Document, key: &str) -> (r: Option<TomlKind>)
    ensures
        r == kind_at(toml_items(*doc), package_key_path(key@)),
{
    doc.as_table().get("package").and_then(|p| p.get(key)).and_then(kind_of)
}

/// `toml_edit`: the text of the string `package.<key>`.
#[verifier::external_body]
pub fn package_str(doc: &Document, key: &str) -> (r: Option<String>)
    ensures
        match str_at(toml_items(*doc), package_key_path(key@)) {
            Some(t) => r matches Some(s) && s@ == t,
            None => r is None,
        },
{
    doc.as_table().get("package").and_then(|p| p.get(key)).and_then(|i| i.as_str()).map(
        |s| s.to_string(),
    )
}

/// `toml_edit`: the text of the string `package.metadata.<key>`.
#[verifier::external_body]
pub fn metadata_str(doc: &Document, key: &str) -> (r: Option<String>)
    ensures
        match str_at(toml_items(*doc), metadata_key_path(key@)) {
            Some(t) => r matches Some(s) && s@ == t,
            None => r is None,
        },
{
    doc.as_table().get("package").and_then(|p| p.get("metadata")).and_then(|m| m.get(key)).and_then(
        |i| i.as_str(),
    ).map(|s| s.to_string())
}

/// `toml_edit`: whether the table-like `package.metadata` is empty (`None` when it is not
/// table-like). `TableLike::is_empty` counts every item of the table that is not a placeholder.
#[verifier::external_body]
pub fn metadata_is_empty(doc: &Document) -> (r: Option<bool>)
    ensures
        is_table_like(kind_at(toml_items(*doc), metadata_path())) ==> r == Some(
            !has_children(toml_items(*doc), metadata_path()),
        ),
        !is_table_like(kind_at(toml_items(*doc), metadata_path())) ==> r is None,
{
    doc.as_table().get("package").and_then(|p| p.get("metadata")).and_then(|m| m.as_table_like()).map(
        |m| m.is_empty(),
    )
}

/// `toml_edit`: removes `package.<key>` (and all below it) when `package` is table-like.
#[verifier::external_body]
pub fn remove_package_entry(doc: &mut Document, key: &str)
    ensures
        is_table_like(kind_at(toml_items(*old(doc)), package_path())) ==> toml_items(*final(doc))
            == remove_under(toml_items(*old(doc)), package_key_path(key@)),
        !is_table_like(kind_at(toml_items(*old(doc)), package_path())) ==> toml_items(
            *final(doc),
        ) == toml_items(*old(doc)),
        !toml_items(*old(doc)).dom().contains(package_key_path(key@)) ==> toml_text(*final(doc))
            == toml_text(*old(doc)),
{
    doc.as_table_mut().get_mut("package").and_then(toml_edit::Item::as_table_like_mut).and_then(
        |package| package.remove(key),
    );
}

/// `toml_edit`: removes `package.metadata.<key>` (and all below it) when `package` and
/// `package.metadata` are table-like. Looking up `metadata` leaves a placeholder when it is
/// missing, which is no item.
#[verifier::external_body]
pub fn remove_metadata_entry(doc: &mut Document, key: &str)
    ensures
        is_table_like(kind_at(toml_items(*old(doc)), package_path())) && is_table_like(
            kind_at(toml_items(*old(doc)), metadata_path()),
        ) ==> toml_items(*final(doc)) == remove_under(
            toml_items(*old(doc)),
            metadata_key_path(key@),
        ),
        !(is_table_like(kind_at(toml_items(*old(doc)), package_path())) && is_table_like(
            kind_at(toml_items(*old(doc)), metadata_path()),
        )) ==> toml_items(*final(doc)) == toml_items(*old(doc)),
        !toml_items(*old(doc)).dom().contains(metadata_key_path(key@)) ==> toml_text(*final(doc))
            == toml_text(*old(doc)),
{
    doc.as_table_mut().get_mut("package").and_then(|package| package.get_mut("metadata")).and_then(
        toml_edit::Item::as_table_like_mut,
    ).and_then(|metadata| metadata.remove(key));
}

/// The items after `doc["package"]` is indexed for writing: an absent `package` becomes an
/// empty inline table.
pub open spec fn with_package(items: Map<Seq<Seq<char>>, (TomlKind, Seq<char>)>) -> Map<
    Seq<Seq<char>>,
    (TomlKind, Seq<char>),
> {
    if items.dom().contains(package_path()) {
        items
    } else {
        items.insert(package_path(), (TomlKind::InlineTable, seq![]))
    }
}

/// `toml_edit`: `doc["package"][key] = value(text)`, which replaces `package.<key>` by the
/// string; an absent `package` is created as an inline table. Indexing panics on a `package`
/// that is not table-like, so that is left out.
#[verifier::external_body]
pub fn set_package_str(doc: &mut Document, key: &str, text: &str)
    requires
        kind_at(toml_items(*old(doc)), package_path()) is None || is_table_like(
            kind_at(toml_items(*old(doc)), package_path()),
        ),
    ensures
        toml_items(*final(doc)) == remove_under(
            with_package(toml_items(*old(doc))),
            package_key_path(key@),
        ).insert(package_key_path(key@), str_entry(text@)),
{
    doc["package"][key] = toml_edit::value(text);
}

/// `toml_edit`: `doc["package"]["metadata"] = table()`, which replaces `package.metadata` by
/// an empty table; an absent `package` is created as an inline table. Indexing panics on a
/// `package` that is not table-like, so that is left out.
#[verifier::external_body]
pub fn set_metadata_table(doc: &mut Document)
    requires
        kind_at(toml_items(*old(doc)), package_path()) is None || is_table_like(
            kind_at(toml_items(*old(doc)), package_path()),
        ),
    ensures
        toml_items(*final(doc)) == remove_under(
            with_package(toml_items(*old(doc))),
            metadata_path(),
        ).insert(metadata_path(), (TomlKind::Table, seq![])),
{
    doc["package"]["metadata"] = toml_edit::table();
}

/// `toml_edit`: `Table::insert` of the string `text` at `key` into the table
/// `package.metadata`, replacing what was there.
#[verifier::external_body]
pub fn insert_into_metadata_table(doc: &mut Document, key: &str, text: &str)
    requires
        is_table_like(kind_at(toml_items(*old(doc)), package_path())),
        kind_at(toml_items(*old(doc)), metadata_path()) == Some(TomlKind::Table),
    ensures
        toml_items(*final(doc)) == remove_under(
            toml_items(*old(doc)),
            metadata_key_path(key@),
        ).insert(metadata_key_path(key@), str_entry(text@)),
{
    doc["package"]["metadata"].as_table_mut().map(|t| t.insert(key, toml_edit::value(text)));
}

/// `toml_edit`: `InlineTable::insert` of the string `text` at `key` into the inline table
/// `package.metadata`, replacing what was there.
#[verifier::external_body]
pub fn insert_into_metadata_inline_table(doc: &mut Document, key: &str, text: &str)
    requires
        is_table_like(kind_at(toml_items(*old(doc)), package_path())),
        kind_at(toml_items(*old(doc)), metadata_path()) == Some(TomlKind::InlineTable),
    ensures
        toml_items(*final(doc)) == remove_under(
            toml_items(*old(doc)),
            metadata_key_path(key@),
        ).insert(metadata_key_path(key@), str_entry(text@)),
{
    doc["package"]["metadata"].as_inline_table_mut().map(|t| t.insert(key, text.into()));
}

/// The MSRV text of a manifest: `package.rust-version`, else `package.metadata.msrv`.
pub open spec fn manifest_msrv_text(items: Map<Seq<Seq<char>>, (TomlKind, Seq<char>)>) -> Option<
    Seq<char>,
> {
    match str_at(items, package_key_path("rust-version"@)) {
        Some(t) => Some(t),
        None => str_at(items, metadata_key_path("msrv"@)),
    }
}

/// The MSRV text of a manifest: `package.rust-version`, else `package.metadata.msrv`.
pub fn minimum_rust_version_text(doc: &Document) -> (r: Option<String>)
    ensures
        match manifest_msrv_text(toml_items(*doc)) {
            Some(t) => r matches Some(s) && s@ == t,
            None => r is None,
        },
{
    match package_str(doc, "rust-version") {
        Some(s) => Some(s),
        None => metadata_str(doc, "msrv"),
    }
}


/// The MSRV of a manifest: none where it specifies none, the bare version that its MSRV text
/// names, or an error carrying a text that names no bare version.
pub open spec fn manifest_msrv(items: Map<Seq<Seq<char>>, (TomlKind, Seq<char>)>) -> Result<
    Option<BareVersion>,
    Seq<char>,
> {
    match manifest_msrv_text(items) {
        None => Ok(None),
        Some(t) => match parse_bare(t) {
            Some(b) => Ok(Some(b)),
            None => Err(t),
        },
    }
}

/// The MSRV of a manifest, read from `package.rust-version`, else `package.metadata.msrv`.
pub fn minimum_rust_version(doc: &Document) -> (r: Result<Option<BareVersion>, CargoMSRVError>)
    ensures
        match manifest_msrv(toml_items(*doc)) {
            Ok(v) => r == Ok::<Option<BareVersion>, CargoMSRVError>(v),
            Err(t) => r matches Err(CargoMSRVError::InvalidManifestMsrv(s)) && s@ == t,
        },
{
    match minimum_rust_version_text(doc) {
        None => Ok(None),
        Some(text) => match parse_bare_version(text.as_str()) {
            Some(b) => Ok(Some(b)),
            None => Err(CargoMSRVError::InvalidManifestMsrv(text)),
        },
    }
}


/// The MSRV of the manifest whose text is `contents`: an error where the text is not TOML,
/// otherwise as [`minimum_rust_version`] reads the document.
pub fn minimum_rust_version_in_manifest(contents: &str) -> (r: Result<
    Option<BareVersion>,
    CargoMSRVError,
>)
    ensures
        match parsed_items(contents@) {
            None => r matches Err(CargoMSRVError::ParseToml),
            Some(items) => match manifest_msrv(items) {
                Ok(v) => r == Ok::<Option<BareVersion>, CargoMSRVError>(v),
                Err(t) => r matches Err(CargoMSRVError::InvalidManifestMsrv(s)) && s@ == t,
            },
        },
{
    match parse_document(contents) {
        Ok(doc) => minimum_rust_version(&doc),
        Err(_) => Err(CargoMSRVError::ParseToml),
    }
}

} // verus!
