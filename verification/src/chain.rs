//! The chain of schemas, and how a document finds its way through it.
//!
//! A chain is built from the oldest schema outwards: a [`Root`], then one
//! [`Link`] for each later schema, each link holding the chain that came
//! before it. The chain's target is the shape of its newest schema.
use crate::decode::FromToml;
use crate::error::MigrateError;
use vstd::prelude::*;

verus! {

/// What a decoder's answer becomes once the chain hands it on: the value, or
/// the decoder's error marked as a deserialization error.
pub open spec fn as_deserialized<S>(raw: Result<S, basic_toml::Error>) -> Result<S, MigrateError> {
    match raw {
        Ok(v) => Ok(v),
        Err(e) => Err(MigrateError::Deserialize(e)),
    }
}

/// `out` is what decoding the text `text` as the schema `S` gives.
pub open spec fn decodes<S: FromToml>(text: Seq<char>, out: Result<S, MigrateError>) -> bool {
    exists|config_str: &str, raw: Result<S, basic_toml::Error>|
        config_str@ == text && #[trigger] call_ensures(S::from_toml, (config_str,), raw) && out
            == as_deserialized(raw)
}

/// `out` is what one step forward makes of `prev`: a value is converted to
/// the schema `S`, an error is handed on as it is.
pub open spec fn upgrades<P, S: From<P>>(
    prev: Result<P, MigrateError>,
    out: Result<S, MigrateError>,
) -> bool {
    match prev {
        Ok(v) => out is Ok && call_ensures(<S as From<P>>::from, (v,), out->Ok_0),
        Err(e) => out == Err::<S, MigrateError>(e),
    }
}

/// Each version is smaller than every later one.
pub open spec fn strictly_increasing(versions: Seq<i64>) -> bool {
    forall|i: int, j: int| 0 <= i < j < versions.len() ==> versions[i] < versions[j]
}

/// A chain of schemas, oldest first, that ends in the schema `Target`.
pub trait Migrate {
    /// The shape of the newest schema.
    type Target;

    /// The version numbers of the schemas, oldest first.
    spec fn versions(&self) -> Seq<i64>;

    /// `out` is what decoding `text` as the newest schema gives.
    spec fn decodes_target(&self, text: Seq<char>, out: Result<Self::Target, MigrateError>) -> bool;

    /// `out` is a result of resolving `text` as a document of `version`:
    /// walking back from the newest schema to the first one that has this
    /// version, decoding there, and converting forward again.
    spec fn migrates(
        &self,
        version: i64,
        text: Seq<char>,
        out: Result<Self::Target, MigrateError>,
    ) -> bool;

    /// `out` is a result of decoding `text` as the schema at index `k`
    /// (counted from the oldest, which is 0) and then applying, in order, the
    /// conversion of every later schema.
    spec fn converts_from(
        &self,
        k: int,
        text: Seq<char>,
        out: Result<Self::Target, MigrateError>,
    ) -> bool;

    /// The version of the newest schema.
    fn target_version(&self) -> (v: i64)
        ensures
            self.versions().len() > 0,
            v == self.versions().last(),
    ;

    /// Whether some schema of the chain has this version.
    fn knows(&self, version: i64) -> (b: bool)
        ensures
            b == self.versions().contains(version),
    ;

    /// Whether the versions grow from each schema to the next, so that no
    /// two schemas share one.
    fn is_ordered(&self) -> (b: bool)
        ensures
            b == strictly_increasing(self.versions()),
    ;

    /// Reads `config_str` as a document of `version` and upgrades it to the
    /// newest schema. Fails with `NoValidVersion` where no schema has this
    /// version, and with `Deserialize` where the matching schema refuses the
    /// document.
    fn migrate_from_str(&self, version: i64, config_str: &str) -> (out: Result<
        Self::Target,
        MigrateError,
    >)
        ensures
            self.migrates(version, config_str@, out),
    ;

    /// A chain has at least one schema.
    proof fn chain_is_not_empty(&self)
        ensures
            self.versions().len() >= 1,
    ;

    /// A document of the newest version is decoded as the newest schema and
    /// nothing else is done to it.
    proof fn newest_version_is_decoded_directly(
        &self,
        text: Seq<char>,
        out: Result<Self::Target, MigrateError>,
    )
        ensures
            self.versions().len() >= 1,
            self.migrates(self.versions().last(), text, out) <==> self.decodes_target(text, out),
    ;

    /// A version that no schema has is refused, whatever the text.
    proof fn unknown_version_is_refused(
        &self,
        version: i64,
        text: Seq<char>,
        out: Result<Self::Target, MigrateError>,
    )
        requires
            !self.versions().contains(version),
        ensures
            self.migrates(version, text, out) <==> out == Err::<Self::Target, MigrateError>(
                MigrateError::NoValidVersion,
            ),
    ;

    /// Where the versions grow along the chain, a document of the version at
    /// index `k` is decoded as that schema and then converted by every later
    /// schema in turn.
    proof fn migration_follows_the_chain(
        &self,
        k: int,
        text: Seq<char>,
        out: Result<Self::Target, MigrateError>,
    )
        requires
            strictly_increasing(self.versions()),
            0 <= k < self.versions().len(),
        ensures
            self.migrates(self.versions()[k], text, out) <==> self.converts_from(k, text, out),
    ;

    /// A known version never ends in `NoValidVersion`, and no version ends in
    /// a parse error: the chain does not judge the text's syntax.
    proof fn errors_of_the_chain(
        &self,
        version: i64,
        text: Seq<char>,
        out: Result<Self::Target, MigrateError>,
    )
        requires
            self.migrates(version, text, out),
        ensures
            !(out matches Err(MigrateError::Parse(_))),
            self.versions().contains(version) ==> out != Err::<Self::Target, MigrateError>(
                MigrateError::NoValidVersion,
            ),
    ;
}

/// Where the versions grow along the chain, only the last index holds the
/// newest version.
pub proof fn newest_version_is_last(versions: Seq<i64>, k: int)
    requires
        strictly_increasing(versions),
        0 <= k < versions.len(),
    ensures
        versions[k] == versions.last() <==> k == versions.len() - 1,
{
}

/// A sequence with one more version at its end grows strictly exactly where
/// it did before and the new version is larger than the one before it.
pub proof fn increasing_after_push(earlier: Seq<i64>, version: i64)
    requires
        earlier.len() >= 1,
    ensures
        strictly_increasing(earlier.push(version)) <==> (strictly_increasing(earlier)
            && earlier.last() < version),
{
    let all = earlier.push(version);
    if strictly_increasing(all) {
        assert forall|i: int, j: int| 0 <= i < j < earlier.len() implies earlier[i] < earlier[j] by {
            assert(all[i] < all[j]);
        }
        assert(all[earlier.len() - 1] < all[earlier.len() as int]);
    }
    if strictly_increasing(earlier) && earlier.last() < version {
        assert forall|i: int, j: int| 0 <= i < j < all.len() implies all[i] < all[j] by {
            if j < earlier.len() {
                assert(earlier[i] < earlier[j]);
            } else if i < earlier.len() - 1 {
                assert(earlier[i] < earlier[earlier.len() - 1]);
            }
        }
    }
}

} // verus!
