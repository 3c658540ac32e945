//! Resolving a document: syntax first, then the version tag, then the chain.
use crate::chain::{newest_version_is_last, strictly_increasing, Migrate};
use crate::error::MigrateError;
use crate::depth::within_depth_limit;
use crate::syntax::{check_syntax, judges, toml_well_formed};
use crate::version::{declares, effective_version, reports, takes, version_tag, Version};
use vstd::prelude::*;

verus! {

/// The chain's result with the flag beside the value: an error stays as it
/// is.
pub open spec fn flagged<T>(inner: Result<T, MigrateError>, migrated: bool) -> Result<
    (T, bool),
    MigrateError,
> {
    match inner {
        Ok(value) => Ok((value, migrated)),
        Err(e) => Err(e),
    }
}

/// `out` is a result of resolving the text `text` with the version tag
/// `tag`: without a tag there is no valid version; with one, the chain
/// resolves the text, and the flag says whether the tag differs from the
/// version of the newest schema.
pub open spec fn resolves<C: Migrate>(
    chain: &C,
    tag: Option<i64>,
    text: Seq<char>,
    out: Result<(C::Target, bool), MigrateError>,
) -> bool {
    match tag {
        None => out == Err::<(C::Target, bool), MigrateError>(MigrateError::NoValidVersion),
        Some(version) => exists|inner: Result<C::Target, MigrateError>| #[trigger]
            chain.migrates(version, text, inner) && out == flagged(
                inner,
                version != chain.versions().last(),
            ),
    }
}

/// `out` is a result of going on from `taken`, the outcome of taking the
/// version field out of a document. A field that could not be read ends in
/// the reader's error. Otherwise the document without its version field is
/// resolved, with the version that the tag declares or, where the document
/// had no tag, with the default.
pub open spec fn settles<C: Migrate, Ver: Version>(
    chain: &C,
    default_version: Option<i64>,
    taken: Result<(Option<Ver>, String), basic_toml::Error>,
    out: Result<(C::Target, bool), MigrateError>,
) -> bool {
    match taken {
        Err(e) => out == Err::<(C::Target, bool), MigrateError>(MigrateError::Deserialize(e)),
        Ok((tag, rest)) => exists|found: Option<i64>| #[trigger]
            declares(tag, found) && resolves(
                chain,
                effective_version(found, default_version),
                rest@,
                out,
            ),
    }
}

/// `out` is a result of migrating `text`. A text that is no readable TOML
/// document ends in the parse error that says why. From any other the
/// version field is taken out, and `out` goes on from there.
pub open spec fn configures<C: Migrate, Ver: Version>(
    chain: &C,
    default_version: Option<i64>,
    text: &str,
    out: Result<(C::Target, bool), MigrateError>,
) -> bool {
    if judges(text, Ok(())) {
        exists|taken: Result<(Option<Ver>, String), basic_toml::Error>| #[trigger]
            takes::<Ver>(text@, taken) && settles(chain, default_version, taken, out)
    } else {
        out matches Err(MigrateError::Parse(e)) && judges(text, Err(e))
    }
}

/// Resolves a document whose version tag is already known. `tag` is the
/// version to resolve with, if there is one, and `config_str` the document
/// that the matching schema is to decode. The flag in the result says
/// whether the document had to be upgraded.
pub fn migrate_tagged<C: Migrate>(chain: &C, tag: Option<i64>, config_str: &str) -> (out: Result<
    (C::Target, bool),
    MigrateError,
>)
    ensures
        resolves(chain, tag, config_str@, out),
{
    match tag {
        None => Err(MigrateError::NoValidVersion),
        Some(version) => {
            let migration_occurred = version != chain.target_version();
            match chain.migrate_from_str(version, config_str) {
                Ok(config) => Ok((config, migration_occurred)),
                Err(e) => Err(e),
            }
        },
    }
}

/// Goes on from `taken`, the outcome of taking the version field out of a
/// document: hands on the error of a field that could not be read, and else
/// resolves the document without its version field, with the version that
/// the tag declares or, where there was no tag, with `default_version`.
pub fn migrate_taken<C: Migrate, Ver: Version>(
    chain: &C,
    default_version: Option<i64>,
    taken: Result<(Option<Ver>, String), basic_toml::Error>,
) -> (out: Result<(C::Target, bool), MigrateError>)
    ensures
        settles(chain, default_version, taken, out),
{
    match taken {
        Err(e) => Err(MigrateError::Deserialize(e)),
        Ok((tag, rest)) => {
            let found = match &tag {
                Some(t) => Some(t.version()),
                None => None,
            };
            let out = migrate_tagged(chain, version_tag(found, default_version), rest.as_str());
            proof {
                assert(declares(tag, found));
            }
            out
        },
    }
}

/// Migrates the document `config_str` to the newest schema of `chain`.
///
/// The text is first checked to be a TOML document that can be read. Then
/// `Ver` takes the version field out of it. A document without the field is
/// resolved with `default_version`. The chain resolves the document without
/// its version field, so no schema has to know that field. The flag in the
/// result says whether the document had to be upgraded.
pub fn migrate_config<C: Migrate, Ver: Version>(
    chain: &C,
    default_version: Option<i64>,
    config_str: &str,
) -> (out: Result<(C::Target, bool), MigrateError>)
    ensures
        configures::<C, Ver>(chain, default_version, config_str, out),
        (out matches Err(MigrateError::Parse(_))) <==> !(within_depth_limit(config_str)
            && toml_well_formed(config_str@)),
{
    let out = match check_syntax(config_str) {
        Err(e) => Err(MigrateError::Parse(e)),
        Ok(_) => {
            let taken = Ver::take_version(config_str);
            proof {
                assert(takes::<Ver>(config_str@, taken));
            }
            migrate_taken(chain, default_version, taken)
        },
    };
    proof {
        parse_error_only_for_unreadable_text::<C, Ver>(chain, default_version, config_str, out);
    }
    out
}

/// Only a text that is no readable TOML document ends in a parse error.
pub proof fn parse_error_only_for_unreadable_text<C: Migrate, Ver: Version>(
    chain: &C,
    default_version: Option<i64>,
    text: &str,
    out: Result<(C::Target, bool), MigrateError>,
)
    requires
        configures::<C, Ver>(chain, default_version, text, out),
    ensures
        (out matches Err(MigrateError::Parse(_))) <==> !judges(text, Ok(())),
{
    if judges(text, Ok(())) {
        let taken = choose|taken: Result<(Option<Ver>, String), basic_toml::Error>| #[trigger]
            takes::<Ver>(text@, taken) && settles(chain, default_version, taken, out);
        if let Ok((tag, rest)) = taken {
            let found = choose|found: Option<i64>| #[trigger]
                declares(tag, found) && resolves(
                    chain,
                    effective_version(found, default_version),
                    rest@,
                    out,
                );
            resolving_never_blames_syntax(
                chain,
                effective_version(found, default_version),
                rest@,
                out,
            );
        }
    }
}

/// Resolving never ends in a parse error: only the syntax check does.
pub proof fn resolving_never_blames_syntax<C: Migrate>(
    chain: &C,
    tag: Option<i64>,
    text: Seq<char>,
    out: Result<(C::Target, bool), MigrateError>,
)
    requires
        resolves(chain, tag, text, out),
    ensures
        !(out matches Err(MigrateError::Parse(_))),
{
    if let Some(version) = tag {
        let inner = choose|inner: Result<C::Target, MigrateError>| #[trigger]
            chain.migrates(version, text, inner) && out == flagged(
                inner,
                version != chain.versions().last(),
            );
        chain.errors_of_the_chain(version, text, inner);
    }
}

/// Where the versions grow along the chain, a document tagged with the
/// version at index `k` is decoded as that schema and converted by every
/// later schema in turn, and the flag is set unless `k` is the last index.
/// Here and below `text` is what the schema decodes: the document without
/// its version field.
pub proof fn resolution_follows_the_chain<C: Migrate>(
    chain: &C,
    k: int,
    text: Seq<char>,
    out: Result<(C::Target, bool), MigrateError>,
)
    requires
        strictly_increasing(chain.versions()),
        0 <= k < chain.versions().len(),
    ensures
        resolves(chain, Some(chain.versions()[k]), text, out) <==> exists|
            inner: Result<C::Target, MigrateError>,
        | #[trigger]
            chain.converts_from(k, text, inner) && out == flagged(
                inner,
                k != chain.versions().len() - 1,
            ),
{
    let version = chain.versions()[k];
    newest_version_is_last(chain.versions(), k);
    if resolves(chain, Some(version), text, out) {
        let inner = choose|inner: Result<C::Target, MigrateError>| #[trigger]
            chain.migrates(version, text, inner) && out == flagged(
                inner,
                version != chain.versions().last(),
            );
        chain.migration_follows_the_chain(k, text, inner);
    }
    if exists|inner: Result<C::Target, MigrateError>| #[trigger]
        chain.converts_from(k, text, inner) && out == flagged(
            inner,
            k != chain.versions().len() - 1,
        ) {
        let inner = choose|inner: Result<C::Target, MigrateError>| #[trigger]
            chain.converts_from(k, text, inner) && out == flagged(
                inner,
                k != chain.versions().len() - 1,
            );
        chain.migration_follows_the_chain(k, text, inner);
    }
}

/// A document tagged with the version of the newest schema is decoded as
/// that schema, and the flag is not set.
pub proof fn newest_version_needs_no_migration<C: Migrate>(
    chain: &C,
    text: Seq<char>,
    out: Result<(C::Target, bool), MigrateError>,
)
    ensures
        resolves(chain, Some(chain.versions().last()), text, out) <==> exists|
            inner: Result<C::Target, MigrateError>,
        | #[trigger]
            chain.decodes_target(text, inner) && out == flagged(inner, false),
{
    let version = chain.versions().last();
    if resolves(chain, Some(version), text, out) {
        let inner = choose|inner: Result<C::Target, MigrateError>| #[trigger]
            chain.migrates(version, text, inner) && out == flagged(inner, false);
        chain.newest_version_is_decoded_directly(text, inner);
    }
    if exists|inner: Result<C::Target, MigrateError>| #[trigger]
        chain.decodes_target(text, inner) && out == flagged(inner, false) {
        let inner = choose|inner: Result<C::Target, MigrateError>| #[trigger]
            chain.decodes_target(text, inner) && out == flagged(inner, false);
        chain.newest_version_is_decoded_directly(text, inner);
    }
}

/// A document tagged with a version that no schema has ends in
/// `NoValidVersion`.
pub proof fn unknown_tag_has_no_valid_version<C: Migrate>(
    chain: &C,
    version: i64,
    text: Seq<char>,
    out: Result<(C::Target, bool), MigrateError>,
)
    requires
        !chain.versions().contains(version),
    ensures
        resolves(chain, Some(version), text, out) <==> out == Err::<(C::Target, bool), MigrateError>(
            MigrateError::NoValidVersion,
        ),
{
    let refused = Err::<C::Target, MigrateError>(MigrateError::NoValidVersion);
    if resolves(chain, Some(version), text, out) {
        let inner = choose|inner: Result<C::Target, MigrateError>| #[trigger]
            chain.migrates(version, text, inner) && out == flagged(
                inner,
                version != chain.versions().last(),
            );
        chain.unknown_version_is_refused(version, text, inner);
    }
    if out == Err::<(C::Target, bool), MigrateError>(MigrateError::NoValidVersion) {
        chain.unknown_version_is_refused(version, text, refused);
    }
}

/// A document without a version tag, resolved without a default, ends in
/// `NoValidVersion`.
pub proof fn missing_tag_without_default<C: Migrate, Ver: Version>(
    chain: &C,
    rest: String,
    out: Result<(C::Target, bool), MigrateError>,
)
    ensures
        settles::<C, Ver>(chain, None, Ok((None, rest)), out) <==> out == Err::<
            (C::Target, bool),
            MigrateError,
        >(MigrateError::NoValidVersion),
{
    assert(declares(None::<Ver>, None));
}

/// A document without a version tag, resolved with a default, behaves as a
/// document does that differs from it by the version field alone, holds
/// that version there and is resolved with whatever default: both come to
/// resolving the same text `rest` with the same version.
pub proof fn default_stands_for_missing_tag<C: Migrate, Ver: Version>(
    chain: &C,
    tag: Ver,
    version: i64,
    other_default: Option<i64>,
    rest: String,
    out: Result<(C::Target, bool), MigrateError>,
)
    requires
        forall|v: i64| reports(&tag, v) <==> v == version,
    ensures
        settles::<C, Ver>(chain, Some(version), Ok((None, rest)), out) <==> settles::<C, Ver>(
            chain,
            other_default,
            Ok((Some(tag), rest)),
            out,
        ),
{
    let untagged = Ok::<(Option<Ver>, String), basic_toml::Error>((None, rest));
    let tagged = Ok::<(Option<Ver>, String), basic_toml::Error>((Some(tag), rest));
    if settles::<C, Ver>(chain, Some(version), untagged, out) {
        assert(declares(Some(tag), Some(version)));
    }
    if settles::<C, Ver>(chain, other_default, tagged, out) {
        assert(declares(None::<Ver>, None));
    }
}

/// Take two readable documents that differ by the version field alone: the
/// tag reader finds no tag in the first and leaves it as it is, and finds a
/// tag of `version` in the second and leaves the text of the first. Then
/// migrating the first with the default `version` gives what migrating the
/// second gives, whatever default that one is migrated with.
pub proof fn default_stands_for_explicit_tag<C: Migrate, Ver: Version>(
    chain: &C,
    version: i64,
    other_default: Option<i64>,
    untagged: &str,
    tagged: &str,
    tag: Ver,
    rest: String,
    out: Result<(C::Target, bool), MigrateError>,
)
    requires
        judges(untagged, Ok(())),
        judges(tagged, Ok(())),
        takes::<Ver>(untagged@, Ok((None, rest))),
        takes::<Ver>(tagged@, Ok((Some(tag), rest))),
        forall|taken: Result<(Option<Ver>, String), basic_toml::Error>| #[trigger]
            takes::<Ver>(untagged@, taken) ==> (taken matches Ok((None, left)) && left@ == rest@),
        forall|taken: Result<(Option<Ver>, String), basic_toml::Error>| #[trigger]
            takes::<Ver>(tagged@, taken) ==> (taken matches Ok((Some(found), left)) && found == tag
                && left@ == rest@),
        forall|v: i64| reports(&tag, v) <==> v == version,
    ensures
        configures::<C, Ver>(chain, Some(version), untagged, out) <==> configures::<C, Ver>(
            chain,
            other_default,
            tagged,
            out,
        ),
{
    let plain = Ok::<(Option<Ver>, String), basic_toml::Error>((None, rest));
    let marked = Ok::<(Option<Ver>, String), basic_toml::Error>((Some(tag), rest));
    default_stands_for_missing_tag::<C, Ver>(chain, tag, version, other_default, rest, out);
    if configures::<C, Ver>(chain, Some(version), untagged, out) {
        let taken = choose|taken: Result<(Option<Ver>, String), basic_toml::Error>| #[trigger]
            takes::<Ver>(untagged@, taken) && settles(chain, Some(version), taken, out);
        assert(settles(chain, Some(version), plain, out));
        assert(settles(chain, other_default, marked, out));
    }
    if configures::<C, Ver>(chain, other_default, tagged, out) {
        let taken = choose|taken: Result<(Option<Ver>, String), basic_toml::Error>| #[trigger]
            takes::<Ver>(tagged@, taken) && settles(chain, other_default, taken, out);
        assert(settles(chain, other_default, marked, out));
        assert(settles(chain, Some(version), plain, out));
    }
}

} // verus!
