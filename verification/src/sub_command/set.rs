//! Writing the MSRV into a Cargo manifest.
//!
//! Since Rust 1.56 Cargo reads the MSRV from `package.rust-version`; for older versions the
//! MSRV is written to `package.metadata.msrv`. Setting the MSRV first removes any MSRV the
//! manifest held, in either place.
use vstd::prelude::*;
use toml_edit::Document;
use crate::error::{CargoMSRVError, SetMsrvError};
use crate::manifest::{
    TomlKind, has_children, insert_into_metadata_inline_table,
    insert_into_metadata_table, is_table_like, kind_at, manifest_msrv_text, metadata_is_empty,
    metadata_key_path, metadata_path, package_child_kind, package_key_path, package_path,
    remove_metadata_entry, remove_package_entry, remove_under, set_metadata_table,
    set_package_str, str_entry, toml_items, top_level_kind, with_package, is_prefix, well_nested,
    lemma_metadata_under_package, lemma_remove_under_keeps_nesting, parse_document, parsed_items,
    manifest_msrv, toml_text, lemma_remove_absent,
};
use crate::version::{BareVersion, Version, bare_text, bare_to_version, version_le};
use crate::version::parse::lemma_parse_bare_text;

verus! {

/// Cargo reads `package.rust-version` since this release.
pub open spec fn rust_version_supported_since() -> Version {
    Version { major: 1, minor: 56, patch: 0 }
}

/// Whether the MSRV goes into `package.rust-version` (rather than `package.metadata.msrv`).
pub open spec fn uses_rust_version(msrv: BareVersion) -> bool {
    version_le(rust_version_supported_since(), bare_to_version(msrv))
}

/// The manifest of a workspace without a package of its own cannot take an MSRV.
pub open spec fn is_virtual_workspace(items: Map<Seq<Seq<char>>, (TomlKind, Seq<char>)>) -> bool {
    kind_at(items, package_path()) is None && kind_at(items, seq!["workspace"@]) is Some
}

/// Refuses the manifest of a virtual workspace.
pub fn check_workspace(manifest: &Document) -> (r: Result<(), CargoMSRVError>)
    ensures
        is_virtual_workspace(toml_items(*manifest)) ==> r matches Err(
            CargoMSRVError::WorkspaceFound,
        ),
        !is_virtual_workspace(toml_items(*manifest)) ==> r is Ok,
{
    if top_level_kind(manifest, "package").is_none() && top_level_kind(
        manifest,
        "workspace",
    ).is_some() {
        Err(CargoMSRVError::WorkspaceFound)
    } else {
        Ok(())
    }
}

/// Removing `package.<key>`, when `package` is table-like.
pub open spec fn removed_package_entry(
    items: Map<Seq<Seq<char>>, (TomlKind, Seq<char>)>,
    key: Seq<char>,
) -> Map<Seq<Seq<char>>, (TomlKind, Seq<char>)> {
    if is_table_like(kind_at(items, package_path())) {
        remove_under(items, package_key_path(key))
    } else {
        items
    }
}

/// Removing `package.metadata.<key>`, when `package` and `package.metadata` are table-like.
pub open spec fn removed_metadata_entry(
    items: Map<Seq<Seq<char>>, (TomlKind, Seq<char>)>,
    key: Seq<char>,
) -> Map<Seq<Seq<char>>, (TomlKind, Seq<char>)> {
    if is_table_like(kind_at(items, package_path())) && is_table_like(
        kind_at(items, metadata_path()),
    ) {
        remove_under(items, metadata_key_path(key))
    } else {
        items
    }
}

/// The manifest without its MSRV: `package.rust-version` and `package.metadata.msrv` are
/// removed, and so is `package.metadata` when that leaves it an empty table.
pub open spec fn discarded(items: Map<Seq<Seq<char>>, (TomlKind, Seq<char>)>) -> Map<
    Seq<Seq<char>>,
    (TomlKind, Seq<char>),
> {
    let a = removed_package_entry(items, "rust-version"@);
    let b = removed_metadata_entry(a, "msrv"@);
    if is_table_like(kind_at(b, metadata_path())) && !has_children(b, metadata_path()) {
        removed_package_entry(b, "metadata"@)
    } else {
        b
    }
}

/// A manifest with nothing to discard: no `package.rust-version`, no `package.metadata.msrv`,
/// and no empty table-like `package.metadata` to remove.
pub open spec fn holds_no_msrv(items: Map<Seq<Seq<char>>, (TomlKind, Seq<char>)>) -> bool {
    &&& !items.dom().contains(package_key_path("rust-version"@))
    &&& !items.dom().contains(metadata_key_path("msrv"@))
    &&& !(is_table_like(kind_at(items, metadata_path())) && !has_children(items, metadata_path()))
}

/// Removes the MSRV from the manifest, in both places it can be. A manifest with nothing to
/// discard is left as it is, down to its text.
pub fn discard_current_msrv(document: &mut Document)
    ensures
        toml_items(*final(document)) == discarded(toml_items(*old(document))),
        well_nested(toml_items(*old(document))) && holds_no_msrv(toml_items(*old(document)))
            ==> toml_text(*final(document)) == toml_text(*old(document)),
{
    let ghost items0 = toml_items(*document);
    // First remove the rust-version
    remove_package_entry(document, "rust-version");
    let ghost items1 = toml_items(*document);
    proof {
        if well_nested(items0) && holds_no_msrv(items0) {
            lemma_remove_absent(items0, package_key_path("rust-version"@));
            assert(items1 == items0);
        }
    }

    // Then remove the metadata.msrv, if it exists
    remove_metadata_entry(document, "msrv");
    proof {
        if well_nested(items0) && holds_no_msrv(items0) {
            lemma_remove_absent(items0, metadata_key_path("msrv"@));
            assert(toml_items(*document) == items0);
        }
    }

    // remove residual metadata table if now empty
    if let Some(true) = metadata_is_empty(document) {
        remove_package_entry(document, "metadata");
    }
}

/// The manifest with `msrv` inserted, once the old MSRV was discarded: into
/// `package.rust-version` from Rust 1.56 on; otherwise into `package.metadata.msrv`, creating
/// `package.metadata` as a table when it is missing and keeping an inline table inline. A
/// `package.metadata` that is not a table is an error.
pub open spec fn inserted(
    items: Map<Seq<Seq<char>>, (TomlKind, Seq<char>)>,
    msrv: BareVersion,
) -> Result<Map<Seq<Seq<char>>, (TomlKind, Seq<char>)>, SetMsrvError> {
    let text = bare_text(msrv);
    if uses_rust_version(msrv) {
        Ok(
            remove_under(with_package(items), package_key_path("rust-version"@)).insert(
                package_key_path("rust-version"@),
                str_entry(text),
            ),
        )
    } else {
        match kind_at(items, metadata_path()) {
            None => {
                let t = remove_under(with_package(items), metadata_path()).insert(
                    metadata_path(),
                    (TomlKind::Table, seq![]),
                );
                Ok(
                    remove_under(t, metadata_key_path("msrv"@)).insert(
                        metadata_key_path("msrv"@),
                        str_entry(text),
                    ),
                )
            },
            Some(TomlKind::Table) | Some(TomlKind::InlineTable) => Ok(
                remove_under(items, metadata_key_path("msrv"@)).insert(
                    metadata_key_path("msrv"@),
                    str_entry(text),
                ),
            ),
            _ => Err(SetMsrvError::NotATable),
        }
    }
}

/// Whether `package` can be written into: absent or table-like.
pub open spec fn package_writable(items: Map<Seq<Seq<char>>, (TomlKind, Seq<char>)>) -> bool {
    kind_at(items, package_path()) is None || is_table_like(kind_at(items, package_path()))
}

proof fn lemma_with_package_keeps_metadata(items: Map<Seq<Seq<char>>, (TomlKind, Seq<char>)>)
    requires
        package_writable(items),
    ensures
        kind_at(with_package(items), metadata_path()) == kind_at(items, metadata_path()),
        is_table_like(kind_at(with_package(items), package_path())),
{
    assert(package_path() != metadata_path()) by {
        assert(package_path().len() != metadata_path().len());
    }
}

proof fn lemma_set_metadata_table_shape(items: Map<Seq<Seq<char>>, (TomlKind, Seq<char>)>)
    requires
        package_writable(items),
    ensures
        ({
            let t = remove_under(with_package(items), metadata_path()).insert(
                metadata_path(),
                (TomlKind::Table, seq![]),
            );
            &&& is_table_like(kind_at(t, package_path()))
            &&& kind_at(t, metadata_path()) == Some(TomlKind::Table)
        }),
{
    let w = with_package(items);
    assert(!is_prefix(metadata_path(), package_path()));
    assert(w.dom().contains(package_path()));
    let r = remove_under(w, metadata_path());
    assert(r.dom().contains(package_path()));
    assert(package_path() != metadata_path()) by {
        assert(package_path().len() != metadata_path().len());
    }
}

/// Inserts `msrv` into a manifest whose old MSRV was discarded.
pub fn insert_new_msrv(manifest: &mut Document, msrv: &BareVersion) -> (r: Result<
    (),
    SetMsrvError,
>)
    requires
        package_writable(toml_items(*old(manifest))),
        well_nested(toml_items(*old(manifest))),
    ensures
        match inserted(toml_items(*old(manifest)), *msrv) {
            Ok(items) => r is Ok && toml_items(*final(manifest)) == items,
            Err(e) => r == Err::<(), SetMsrvError>(e) && toml_items(*final(manifest))
                == toml_items(*old(manifest)),
        },
{
    let text = msrv.to_text();
    let since = Version::new(1, 56, 0);
    if since.le(&msrv.to_semver_version()) {
        set_package_str(manifest, "rust-version", text.as_str());
        Ok(())
    } else {
        proof {
            lemma_with_package_keeps_metadata(toml_items(*manifest));
        }
        match package_child_kind(manifest, "metadata") {
            None => {
                proof {
                    lemma_set_metadata_table_shape(toml_items(*manifest));
                }
                set_metadata_table(manifest);
                insert_into_metadata_table(manifest, "msrv", text.as_str());
                Ok(())
            },
            Some(TomlKind::InlineTable) => {
                proof {
                    lemma_metadata_under_package(toml_items(*manifest));
                }
                // keep the inline table if it already exists
                insert_into_metadata_inline_table(manifest, "msrv", text.as_str());
                Ok(())
            },
            Some(TomlKind::Table) => {
                proof {
                    lemma_metadata_under_package(toml_items(*manifest));
                }
                insert_into_metadata_table(manifest, "msrv", text.as_str());
                Ok(())
            },
            _ => Err(SetMsrvError::NotATable),
        }
    }
}

/// The manifest with its MSRV replaced by `msrv`.
pub open spec fn set_msrv_items(
    items: Map<Seq<Seq<char>>, (TomlKind, Seq<char>)>,
    msrv: BareVersion,
) -> Result<Map<Seq<Seq<char>>, (TomlKind, Seq<char>)>, SetMsrvError> {
    inserted(discarded(items), msrv)
}

proof fn lemma_discard_keeps_package_writable(items: Map<Seq<Seq<char>>, (TomlKind, Seq<char>)>)
    requires
        package_writable(items),
        well_nested(items),
    ensures
        package_writable(discarded(items)),
        well_nested(discarded(items)),
        kind_at(discarded(items), package_path()) == kind_at(items, package_path()),
{
    let a = removed_package_entry(items, "rust-version"@);
    let b = removed_metadata_entry(a, "msrv"@);
    lemma_remove_under_keeps_nesting(items, package_key_path("rust-version"@));
    lemma_remove_under_keeps_nesting(a, metadata_key_path("msrv"@));
    lemma_remove_under_keeps_nesting(b, package_key_path("metadata"@));
    assert(!is_prefix(package_key_path("rust-version"@), package_path()));
    assert(!is_prefix(metadata_key_path("msrv"@), package_path()));
    assert(!is_prefix(package_key_path("metadata"@), package_path()));
    assert(kind_at(a, package_path()) == kind_at(items, package_path()));
    assert(kind_at(b, package_path()) == kind_at(items, package_path()));
}

/// Replaces the MSRV of the manifest by `msrv`.
pub fn set_or_override_msrv(manifest: &mut Document, msrv: &BareVersion) -> (r: Result<
    (),
    SetMsrvError,
>)
    requires
        package_writable(toml_items(*old(manifest))),
        well_nested(toml_items(*old(manifest))),
    ensures
        match set_msrv_items(toml_items(*old(manifest)), *msrv) {
            Ok(items) => r is Ok && toml_items(*final(manifest)) == items,
            Err(e) => r == Err::<(), SetMsrvError>(e) && toml_items(*final(manifest)) == discarded(
                toml_items(*old(manifest)),
            ),
        },
{
    proof {
        lemma_discard_keeps_package_writable(toml_items(*manifest));
    }
    discard_current_msrv(manifest);
    insert_new_msrv(manifest, msrv)
}


/// A manifest whose MSRV was discarded holds none: reading it back finds neither
/// `package.rust-version` nor `package.metadata.msrv`.
pub proof fn lemma_discard_leaves_no_msrv(items: Map<Seq<Seq<char>>, (TomlKind, Seq<char>)>)
    requires
        well_nested(items),
    ensures
        manifest_msrv_text(discarded(items)) is None,
        !discarded(items).dom().contains(package_key_path("rust-version"@)),
        !discarded(items).dom().contains(metadata_key_path("msrv"@)),
{
    let a = removed_package_entry(items, "rust-version"@);
    let b = removed_metadata_entry(a, "msrv"@);
    let rv = package_key_path("rust-version"@);
    let ms = metadata_key_path("msrv"@);
    assert(rv.drop_last() =~= package_path());
    assert(ms.drop_last() =~= metadata_path());
    assert(is_prefix(rv, rv)) by {
        assert(rv.take(rv.len() as int) =~= rv);
    }
    assert(is_prefix(ms, ms)) by {
        assert(ms.take(ms.len() as int) =~= ms);
    }
    lemma_remove_under_keeps_nesting(items, rv);
    lemma_remove_under_keeps_nesting(a, ms);
    assert(!a.dom().contains(rv)) by {
        if a.dom().contains(rv) {
            assert(is_table_like(kind_at(items, rv.drop_last())));
        }
    }
    assert(!b.dom().contains(ms)) by {
        if b.dom().contains(ms) {
            assert(is_table_like(kind_at(a, ms.drop_last())));
            assert(is_table_like(kind_at(a, metadata_path())));
            assert(metadata_path().drop_last() =~= package_path());
            assert(is_table_like(kind_at(a, metadata_path().drop_last())));
        }
    }
    assert(!b.dom().contains(rv));
}

/// Setting the MSRV and reading it back gives the version that was set, written as its
/// version number: from `package.rust-version` from Rust 1.56 on, from
/// `package.metadata.msrv` before.
pub proof fn lemma_set_then_read(
    items: Map<Seq<Seq<char>>, (TomlKind, Seq<char>)>,
    msrv: BareVersion,
)
    requires
        package_writable(items),
        well_nested(items),
        set_msrv_items(items, msrv) is Ok,
    ensures
        manifest_msrv_text(set_msrv_items(items, msrv)->Ok_0) == Some(bare_text(msrv)),
{
    let d = discarded(items);
    let rv = package_key_path("rust-version"@);
    let ms = metadata_key_path("msrv"@);
    lemma_discard_leaves_no_msrv(items);
    lemma_discard_keeps_package_writable(items);
    let after = set_msrv_items(items, msrv)->Ok_0;
    if uses_rust_version(msrv) {
        assert(after.dom().contains(rv));
    } else {
        assert(!d.dom().contains(rv));
        assert(rv != ms) by {
            assert(rv.len() != ms.len());
        }
        assert(rv != metadata_path()) by {
            reveal_strlit("rust-version");
            reveal_strlit("metadata");
            assert(rv[1].len() != metadata_path()[1].len());
        }
        assert(rv != package_path()) by {
            assert(rv.len() != package_path().len());
        }
        assert(!with_package(d).dom().contains(rv));
        assert(!after.dom().contains(rv));
        assert(after.dom().contains(ms));
    }
}


/// What setting `msrv` in a manifest text gives: the items of the new manifest, or the error.
pub open spec fn set_msrv_outcome(text: Seq<char>, msrv: BareVersion) -> Result<
    Map<Seq<Seq<char>>, (TomlKind, Seq<char>)>,
    CargoMSRVError,
> {
    match parsed_items(text) {
        None => Err(CargoMSRVError::ParseToml),
        Some(items) => if is_virtual_workspace(items) {
            Err(CargoMSRVError::WorkspaceFound)
        } else if !package_writable(items) {
            Err(CargoMSRVError::SetMsrv(SetMsrvError::PackageNotATable))
        } else {
            match set_msrv_items(items, msrv) {
                Ok(after) => Ok(after),
                Err(e) => Err(CargoMSRVError::SetMsrv(e)),
            }
        },
    }
}

/// Sets the MSRV in the text of a manifest: parses it, refuses a virtual workspace and a
/// `package` that is not a table, and replaces the MSRV. The new document is handed back to be
/// written out.
pub fn set_msrv_in_manifest(contents: &str, msrv: &BareVersion) -> (r: Result<
    Document,
    CargoMSRVError,
>)
    ensures
        match set_msrv_outcome(contents@, *msrv) {
            Ok(after) => r matches Ok(doc) && toml_items(doc) == after,
            Err(e) => r matches Err(e2) && e2 == e,
        },
{
    let mut manifest = match parse_document(contents) {
        Ok(doc) => doc,
        Err(_) => {
            return Err(CargoMSRVError::ParseToml);
        },
    };
    match check_workspace(&manifest) {
        Ok(()) => {},
        Err(e) => {
            return Err(e);
        },
    }
    match top_level_kind(&manifest, "package") {
        None | Some(TomlKind::Table) | Some(TomlKind::InlineTable) => {},
        _ => {
            return Err(CargoMSRVError::SetMsrv(SetMsrvError::PackageNotATable));
        },
    }
    match set_or_override_msrv(&mut manifest, msrv) {
        Ok(()) => Ok(manifest),
        Err(e) => Err(CargoMSRVError::SetMsrv(e)),
    }
}


/// Setting the MSRV and showing it gives the version that was set.
pub proof fn lemma_set_then_show(
    items: Map<Seq<Seq<char>>, (TomlKind, Seq<char>)>,
    msrv: BareVersion,
)
    requires
        package_writable(items),
        well_nested(items),
        set_msrv_items(items, msrv) is Ok,
    ensures
        manifest_msrv(set_msrv_items(items, msrv)->Ok_0) == Ok::<
            Option<BareVersion>,
            Seq<char>,
        >(Some(msrv)),
{
    lemma_set_then_read(items, msrv);
    lemma_parse_bare_text(msrv);
}

} // verus!
