//! The manifest as a whole.

use super::github::TomlGitHubPackage;
use super::openvsx::TomlOpenVSXPackage;
use super::settings::TomlSettings;
use super::vsmarketplace::TomlVSCodeMarketPlacePackage;
use crate::resolve::Resolver;
use crate::text::{
    lemma_text_before_irreflexive, lemma_text_before_transitive, text_before, text_less,
};
use vstd::prelude::*;

verus! {

/// The overlay that a package is meant for.
#[derive(Debug, Clone, Copy, PartialEq, Eq, Structural)]
pub enum Overlay {
    VSCode,
    Vim,
    NoOverlay,
}

/// A manifest: its settings, and for each registry the wanted packages by
/// key. A table is a map from keys to entries, kept as the list of its
/// entries in the order of their keys (see `TomlManifest::wf`).
#[derive(Debug, Clone, PartialEq, Eq)]
pub struct TomlManifest {
    pub settings: Option<TomlSettings>,
    pub github: Option<Vec<(String, TomlGitHubPackage)>>,
    pub openvsx: Option<Vec<(String, TomlOpenVSXPackage)>>,
    pub vsmarketplace: Option<Vec<(String, TomlVSCodeMarketPlacePackage)>>,
}

/// One wanted package: the key that the manifest lists it under, and what
/// the entry says, by registry.
#[derive(Debug, Clone, PartialEq, Eq)]
pub enum PackageSpec {
    GitHub { name: String, package: TomlGitHubPackage },
    OpenVSX { name: String, package: TomlOpenVSXPackage },
    VSCodeMarketPlace { name: String, package: TomlVSCodeMarketPlacePackage },
}

/// An entry of one of the manifest's tables.
pub trait Entry: Sized {
    /// The wanted package that the entry is under the key `name`.
    spec fn wanted_as(self, name: String) -> PackageSpec;

    /// Turns the entry into a wanted package.
    fn into_spec(self, name: String) -> (r: PackageSpec)
        ensures
            r == self.wanted_as(name),
    ;
}

impl Entry for TomlGitHubPackage {
    open spec fn wanted_as(self, name: String) -> PackageSpec {
        PackageSpec::GitHub { name, package: self }
    }

    fn into_spec(self, name: String) -> (r: PackageSpec) {
        PackageSpec::GitHub { name, package: self }
    }
}

impl Entry for TomlOpenVSXPackage {
    open spec fn wanted_as(self, name: String) -> PackageSpec {
        PackageSpec::OpenVSX { name, package: self }
    }

    fn into_spec(self, name: String) -> (r: PackageSpec) {
        PackageSpec::OpenVSX { name, package: self }
    }
}

impl Entry for TomlVSCodeMarketPlacePackage {
    open spec fn wanted_as(self, name: String) -> PackageSpec {
        PackageSpec::VSCodeMarketPlace { name, package: self }
    }

    fn into_spec(self, name: String) -> (r: PackageSpec) {
        PackageSpec::VSCodeMarketPlace { name, package: self }
    }
}

impl PackageSpec {
    /// The key under which the manifest lists the package.
    pub open spec fn key(self) -> String {
        match self {
            PackageSpec::GitHub { name, package } => name,
            PackageSpec::OpenVSX { name, package } => name,
            PackageSpec::VSCodeMarketPlace { name, package } => name,
        }
    }
}

/// The entries of a table as wanted packages, in the order of the table.
pub open spec fn table_specs<T: Entry>(table: Seq<(String, T)>) -> Seq<PackageSpec> {
    table.map_values(|entry: (String, T)| entry.1.wanted_as(entry.0))
}

/// The entries of an optional table, none where the table is absent.
pub open spec fn entries<T>(table: Option<Vec<(String, T)>>) -> Seq<(String, T)> {
    match table {
        Some(t) => t@,
        None => Seq::empty(),
    }
}

/// The keys of a table ascend in the order of texts, which also says that
/// no key occurs twice: a table is a map, listed by key.
pub open spec fn keys_ascending<T>(table: Seq<(String, T)>) -> bool {
    forall|i: int, j: int|
        0 <= i < j < table.len() ==> text_before(#[trigger] table[i].0@, #[trigger] table[j].0@)
}

/// The keys of a list of wanted packages ascend in the order of texts.
pub open spec fn in_key_order(specs: Seq<PackageSpec>) -> bool {
    forall|i: int, j: int|
        0 <= i < j < specs.len() ==> text_before(
            #[trigger] specs[i].key()@,
            #[trigger] specs[j].key()@,
        )
}

/// Whether the keys of a table ascend.
fn ascending<T>(table: &Vec<(String, T)>) -> (r: bool)
    ensures
        r == keys_ascending(table@),
{
    if table.len() == 0 {
        return true;
    }
    let mut i: usize = 0;
    while i + 1 < table.len()
        invariant
            i < table.len(),
            forall|p: int, q: int|
                0 <= p < q <= i ==> text_before(#[trigger] table@[p].0@, #[trigger] table@[q].0@),
        decreases table.len() - i,
    {
        if !text_less(table[i].0.as_str(), table[i + 1].0.as_str()) {
            return false;
        }
        proof {
            assert forall|p: int, q: int| 0 <= p < q <= i + 1 implies text_before(
                #[trigger] table@[p].0@,
                #[trigger] table@[q].0@,
            ) by {
                if q == i + 1 && p < i {
                    lemma_text_before_transitive(table@[p].0@, table@[i as int].0@, table@[q].0@);
                }
            }
        }
        i += 1;
    }
    true
}

/// Whether the keys of an optional table ascend.
fn table_ascending<T>(table: &Option<Vec<(String, T)>>) -> (r: bool)
    ensures
        r == keys_ascending(entries(*table)),
{
    match table {
        Some(t) => ascending(t),
        None => true,
    }
}

/// Appends the entries of a table to a list of wanted packages.
fn add_entries<T: Entry>(all: &mut Vec<PackageSpec>, table: Vec<(String, T)>)
    ensures
        final(all)@ == old(all)@ + table_specs(table@),
{
    let mut table = table;
    let ghost whole = table@;
    let ghost before = all@;
    proof {
        assert(all@ =~= before + table_specs(whole.take(0)));
        assert(table@ =~= whole.skip(0));
    }
    while table.len() > 0
        invariant
            all@.len() + table@.len() == before.len() + whole.len(),
            before.len() <= all@.len(),
            all@ == before + table_specs(whole.take(all@.len() - before.len())),
            table@ == whole.skip(all@.len() - before.len()),
        decreases table@.len(),
    {
        let (name, entry) = table.remove(0);
        all.push(entry.into_spec(name));
        proof {
            assert(all@ =~= before + table_specs(whole.take(all@.len() - before.len())));
            assert(table@ =~= whole.skip(all@.len() - before.len()));
        }
    }
    proof {
        assert(whole.take(whole.len() as int) =~= whole);
    }
}

impl TomlManifest {
    /// Each table lists its entries by key: the keys ascend, and none
    /// occurs twice.
    pub open spec fn wf(self) -> bool {
        &&& keys_ascending(entries(self.github))
        &&& keys_ascending(entries(self.openvsx))
        &&& keys_ascending(entries(self.vsmarketplace))
    }

    /// Whether each table lists its entries by key.
    pub fn well_formed(&self) -> (r: bool)
        ensures
            r == self.wf(),
    {
        table_ascending(&self.github) && table_ascending(&self.openvsx) && table_ascending(
            &self.vsmarketplace,
        )
    }

    /// Every package that the manifest wants: those from GitHub, then those
    /// from OpenVSX, then those from the marketplace, each table in its own
    /// order.
    pub open spec fn wanted(self) -> Seq<PackageSpec> {
        table_specs(entries(self.github)) + table_specs(entries(self.openvsx)) + table_specs(
            entries(self.vsmarketplace),
        )
    }

    /// The packages of each table of a well-formed manifest are wanted in
    /// the order of their keys, no key twice.
    pub proof fn lemma_wanted_in_key_order(self)
        requires
            self.wf(),
        ensures
            in_key_order(table_specs(entries(self.github))),
            in_key_order(table_specs(entries(self.openvsx))),
            in_key_order(table_specs(entries(self.vsmarketplace))),
            forall|i: int, j: int|
                0 <= i < j < entries(self.openvsx).len() ==> entries(self.openvsx)[i].0@
                    != entries(self.openvsx)[j].0@,
    {
        let github = entries(self.github);
        assert forall|i: int, j: int| 0 <= i < j < github.len() implies text_before(
            #[trigger] table_specs(github)[i].key()@,
            #[trigger] table_specs(github)[j].key()@,
        ) by {
            assert(text_before(github[i].0@, github[j].0@));
        }
        let openvsx = entries(self.openvsx);
        assert forall|i: int, j: int| 0 <= i < j < openvsx.len() implies text_before(
            #[trigger] table_specs(openvsx)[i].key()@,
            #[trigger] table_specs(openvsx)[j].key()@,
        ) by {
            assert(text_before(openvsx[i].0@, openvsx[j].0@));
        }
        let vsmarketplace = entries(self.vsmarketplace);
        assert forall|i: int, j: int| 0 <= i < j < vsmarketplace.len() implies text_before(
            #[trigger] table_specs(vsmarketplace)[i].key()@,
            #[trigger] table_specs(vsmarketplace)[j].key()@,
        ) by {
            assert(text_before(vsmarketplace[i].0@, vsmarketplace[j].0@));
        }
        assert forall|i: int, j: int| 0 <= i < j < openvsx.len() implies openvsx[i].0@
            != openvsx[j].0@ by {
            assert(text_before(openvsx[i].0@, openvsx[j].0@));
            lemma_text_before_irreflexive(openvsx[i].0@);
        }
    }

    /// Every package that the manifest wants, as one list. Within each
    /// table of a well-formed manifest they stand in the order of their keys.
    pub fn specs(self) -> (r: Vec<PackageSpec>)
        ensures
            r@ == self.wanted(),
            self.wf() ==> in_key_order(table_specs(entries(self.github))) && in_key_order(
                table_specs(entries(self.openvsx)),
            ) && in_key_order(table_specs(entries(self.vsmarketplace))),
    {
        proof {
            if self.wf() {
                self.lemma_wanted_in_key_order();
            }
        }
        let mut all: Vec<PackageSpec> = Vec::new();
        if let Some(table) = self.github {
            add_entries(&mut all, table);
        }
        if let Some(table) = self.openvsx {
            add_entries(&mut all, table);
        }
        if let Some(table) = self.vsmarketplace {
            add_entries(&mut all, table);
        }
        proof {
            assert(all@ =~= self.wanted());
        }
        all
    }

    /// Begins the resolution of the manifest's OpenVSX packages, in the
    /// order of the table, which in a well-formed manifest is the order of
    /// their keys. A manifest without an OpenVSX table has none to resolve.
    pub fn get_openvsx_nixpkgs(self) -> (r: Option<Resolver>)
        ensures
            match r {
                Some(resolver) => self.openvsx matches Some(table) && resolver.wf()
                    && resolver.total == table@.len() && resolver.settles(
                    table_specs(table@),
                    Seq::empty(),
                ) && (self.wf() ==> in_key_order(table_specs(table@))),
                None => self.openvsx is None,
            },
    {
        proof {
            if self.wf() {
                self.lemma_wanted_in_key_order();
            }
        }
        match self.openvsx {
            None => None,
            Some(table) => {
                let mut specs: Vec<PackageSpec> = Vec::new();
                add_entries(&mut specs, table);
                proof {
                    assert(specs@ =~= table_specs(table@));
                }
                Some(Resolver::new(specs))
            },
        }
    }
}

} // verus!
