//! The VSCode marketplace: the query that asks its gallery for an extension,
//! and what is kept of the answer.

use super::links::ManifestLinks;
use super::{accept, accepted, header_pairs, Header, Reply};
use crate::error::ResolveError;
use crate::nix::package::{default_meta, MetaModel, PackageModel};
use crate::nix::{NixLicense, NixPackage, NixPackageMeta};
use crate::text::{non_empty, opt_text, present, some_if_non_empty, some_if_present, str_eq};
use vstd::prelude::*;

verus! {

/// The body of a query to the marketplace gallery.
#[derive(Debug, Clone, Default, PartialEq, Eq)]
pub struct Payload {
    pub filters: Vec<PayloadCriteria>,
    pub asset_types: Vec<String>,
    pub flags: u64,
}

/// One filter of a query: its criteria and how the results are paged and sorted.
#[derive(Debug, Clone, Default, PartialEq, Eq)]
pub struct PayloadCriteria {
    pub criteria: Vec<PayloadCriterion>,
    pub direction: u64,
    pub page_number: u64,
    pub page_size: u64,
    pub sort_by: u64,
    pub sort_order: u64,
}

/// One criterion of a filter.
#[derive(Debug, Clone, Default, PartialEq, Eq)]
pub struct PayloadCriterion {
    pub filter_type: u64,
    pub value: String,
}

/// The answer of the marketplace gallery to a query.
#[derive(Debug, Clone, Default, PartialEq, Eq)]
pub struct VSMarketPlaceQueryResultResponse {
    pub results: Vec<VSMarketPlaceQueryResults>,
}

/// One result set of an answer.
#[derive(Debug, Clone, Default, PartialEq, Eq)]
pub struct VSMarketPlaceQueryResults {
    pub extensions: Vec<VSMarketPlaceExtension>,
    pub paging_token: Option<String>,
    pub result_metadata: Vec<VSMarketPlaceQueryResultMetaData>,
}

/// An extension as the marketplace describes it.
#[derive(Debug, Clone, Default, PartialEq, Eq)]
pub struct VSMarketPlaceExtension {
    pub publisher: VSMarketPlaceExtensionPublisher,
    pub extension_id: String,
    pub extension_name: String,
    pub display_name: String,
    pub flags: String,
    pub last_updated: String,
    pub published_date: String,
    pub release_date: String,
    pub short_description: Option<String>,
    pub versions: Vec<VSMarketPlaceExtensionVersion>,
    pub categories: Vec<String>,
    pub tags: Vec<String>,
    pub installation_targets: Vec<VSMarketPlaceExtensionInstallationTarget>,
    pub deployment_type: u64,
}

/// Who published an extension.
#[derive(Debug, Clone, Default, PartialEq, Eq)]
pub struct VSMarketPlaceExtensionPublisher {
    pub publisher_id: String,
    pub publisher_name: String,
    pub display_name: String,
    pub flags: String,
}

/// One version of an extension, with its assets.
#[derive(Debug, Clone, Default, PartialEq, Eq)]
pub struct VSMarketPlaceExtensionVersion {
    pub version: String,
    pub flags: String,
    pub last_updated: String,
    pub files: Vec<VSMarketPlaceExtensionVersionFile>,
    pub asset_uri: String,
    pub fallback_asset_uri: String,
}

/// One asset of a version: its kind and where it is served.
#[derive(Debug, Clone, PartialEq, Eq)]
pub struct VSMarketPlaceExtensionVersionFile {
    pub asset_type: AssetTypeMicrosoftVisualStudio,
    pub source: String,
}

/// The kinds of asset that a version of an extension may have.
#[derive(Debug, Clone, Copy, PartialEq, Eq, Structural)]
pub enum AssetTypeMicrosoftVisualStudio {
    CodeManifest,
    ServicesContentChangelog,
    ServicesContentDetails,
    ServicesContentLicense,
    ServicesIconsDefault,
    ServicesIconsSmall,
    ServicesVSIXManifest,
    ServicesVSIXPackage,
}

/// An editor that an extension can be installed in.
#[derive(Debug, Clone, Default, PartialEq, Eq)]
pub struct VSMarketPlaceExtensionInstallationTarget {
    pub target: String,
    pub target_version: String,
}

/// Counts that come with a result set.
#[derive(Debug, Clone, Default, PartialEq, Eq)]
pub struct VSMarketPlaceQueryResultMetaData {
    pub metadata_type: String,
    pub metadata_items: Vec<VSMarketPlaceQueryResultMetaDataItem>,
}

/// One count of a result set.
#[derive(Debug, Clone, Default, PartialEq, Eq)]
pub struct VSMarketPlaceQueryResultMetaDataItem {
    pub name: String,
    pub count: u64,
}

/// What resolution keeps of an extension: who published it, the version chosen, and where its assets are served.
#[derive(Debug, Clone, Default, PartialEq, Eq)]
pub struct VSMarketPlaceExtensionRefined {
    pub publisher: String,
    pub extension_name: String,
    pub display_name: String,
    pub description: Option<String>,
    pub version: String,
    pub vsix_url: String,
    pub vsix_manifest_url: String,
    pub changelog_url: Option<String>,
    pub readme_url: Option<String>,
}

/// What a query for one version of an extension keeps of the answer, as
/// mathematical values.
pub struct RefinedModel {
    pub publisher: Seq<char>,
    pub extension_name: Seq<char>,
    pub display_name: Seq<char>,
    pub description: Option<Seq<char>>,
    pub version: Seq<char>,
    pub vsix_url: Seq<char>,
    pub vsix_manifest_url: Seq<char>,
    pub changelog_url: Option<Seq<char>>,
    pub readme_url: Option<Seq<char>>,
}

impl View for VSMarketPlaceExtensionRefined {
    type V = RefinedModel;

    open spec fn view(&self) -> RefinedModel {
        RefinedModel {
            publisher: self.publisher@,
            extension_name: self.extension_name@,
            display_name: self.display_name@,
            description: opt_text(self.description),
            version: self.version@,
            vsix_url: self.vsix_url@,
            vsix_manifest_url: self.vsix_manifest_url@,
            changelog_url: opt_text(self.changelog_url),
            readme_url: opt_text(self.readme_url),
        }
    }
}

/// The address that serves the asset of the given kind: that of the last
/// file of that kind in the list, or the empty text where there is none.
pub open spec fn asset_source(
    files: Seq<VSMarketPlaceExtensionVersionFile>,
    kind: AssetTypeMicrosoftVisualStudio,
) -> Seq<char>
    decreases files.len(),
{
    if files.len() == 0 {
        Seq::empty()
    } else if files.last().asset_type == kind {
        files.last().source@
    } else {
        asset_source(files.drop_last(), kind)
    }
}

/// Where the version asked for stands in the list of versions: the last
/// index that holds it, if any does.
pub open spec fn pinned_index(
    versions: Seq<VSMarketPlaceExtensionVersion>,
    version: Seq<char>,
) -> Option<int>
    decreases versions.len(),
{
    if versions.len() == 0 {
        None
    } else if versions.last().version@ == version {
        Some(versions.len() - 1)
    } else {
        pinned_index(versions.drop_last(), version)
    }
}

/// Which version a query settles on: the one asked for, or else the first
/// of the list, which the gallery keeps newest first.
pub open spec fn chosen_index(
    versions: Seq<VSMarketPlaceExtensionVersion>,
    pin: Option<Seq<char>>,
) -> Option<int> {
    match pin {
        Some(version) => pinned_index(versions, version),
        None => if versions.len() > 0 {
            Some(0)
        } else {
            None
        },
    }
}

/// What is kept of an extension once a version of it is chosen. Without the
/// package archive or its manifest there is nothing to keep.
pub open spec fn refined_version(
    extension: VSMarketPlaceExtension,
    version: VSMarketPlaceExtensionVersion,
) -> Result<RefinedModel, ResolveError> {
    let vsix_url = asset_source(
        version.files@,
        AssetTypeMicrosoftVisualStudio::ServicesVSIXPackage,
    );
    let vsix_manifest_url = asset_source(
        version.files@,
        AssetTypeMicrosoftVisualStudio::ServicesVSIXManifest,
    );
    let changelog_url = asset_source(
        version.files@,
        AssetTypeMicrosoftVisualStudio::ServicesContentChangelog,
    );
    let readme_url = asset_source(
        version.files@,
        AssetTypeMicrosoftVisualStudio::ServicesContentDetails,
    );
    if vsix_url.len() == 0 || vsix_manifest_url.len() == 0 {
        Err(ResolveError::MissingRequiredAsset)
    } else {
        Ok(
            RefinedModel {
                publisher: extension.publisher.publisher_name@,
                extension_name: extension.extension_name@,
                display_name: extension.display_name@,
                description: opt_text(extension.short_description),
                version: version.version@,
                vsix_url,
                vsix_manifest_url,
                changelog_url: non_empty(changelog_url),
                readme_url: non_empty(readme_url),
            },
        )
    }
}

/// What a query keeps of the gallery's answer: the first extension of the
/// first result set, in the version that `pin` asks for or else in its first
/// one. An answer without result set, a result set without extension, an
/// extension without that version, and a version without package archive or
/// manifest are errors, looked for in this order.
pub open spec fn refined(
    response: VSMarketPlaceQueryResultResponse,
    pin: Option<Seq<char>>,
) -> Result<RefinedModel, ResolveError> {
    if response.results@.len() == 0 {
        Err(ResolveError::NoResults)
    } else if response.results@[0].extensions@.len() == 0 {
        Err(ResolveError::NoExtensions)
    } else {
        let extension = response.results@[0].extensions@[0];
        match chosen_index(extension.versions@, pin) {
            None => Err(ResolveError::VersionNotFound),
            Some(i) => refined_version(extension, extension.versions@[i]),
        }
    }
}

/// What a query makes of the gallery's reply.
pub open spec fn refined_reply(
    reply: Reply<VSMarketPlaceQueryResultResponse>,
    pin: Option<Seq<char>>,
) -> Result<RefinedModel, ResolveError> {
    match accepted(reply) {
        Ok(response) => refined(response, pin),
        Err(e) => Err(e),
    }
}

/// The address from which the gallery serves the package archive of one
/// version of an extension.
pub open spec fn asset_url(
    publisher: Seq<char>,
    extension: Seq<char>,
    version: Seq<char>,
) -> Seq<char> {
    "https://"@ + publisher + ".gallery.vsassets.io/_apis/public/gallery/publisher/"@ + publisher
        + "/extension/"@ + extension + "/"@ + version
        + "/assetbyname/Microsoft.VisualStudio.Services.VSIXPackage"@
}

/// The address of the gallery's query endpoint.
pub open spec fn query_address() -> Seq<char> {
    "https://marketplace.visualstudio.com/_apis/public/gallery/extensionquery"@
}

/// The headers that every query to the gallery carries, as pairs of name and
/// value: the version of the API that is asked for, the editor that asks, and
/// the kind of body.
pub open spec fn query_headers() -> Seq<(Seq<char>, Seq<char>)> {
    seq![
        ("accept"@, "application/json;api-version=6.1-preview.1"@),
        ("referer"@, ""@),
        (
            "user-agent"@,
            "Mozilla/5.0 (Macintosh; Intel Mac OS X 10_15_5) AppleWebKit/537.36 (KHTML, like Gecko) Code/1.51.0 Chrome/83.0.4103.122 Electron/9.3.3 Safari/537.36"@,
        ),
        ("x-market-client-id"@, "VSCode 1.51.0"@),
        ("content-type"@, "application/json"@),
    ]
}

/// A query to the gallery: where to post it, with which headers and body.
#[derive(Debug, Clone, PartialEq, Eq)]
pub struct Query {
    pub url: String,
    pub headers: Vec<Header>,
    pub payload: Payload,
}

impl Payload {
    /// The body that asks the gallery for the extension with the given unique
    /// identifier, among the extensions for Visual Studio Code, with its
    /// versions, their files and asset addresses.
    pub open spec fn asks_for(self, unique_id: Seq<char>) -> bool {
        &&& self.flags == 103
        &&& self.asset_types@.len() == 0
        &&& self.filters@.len() == 1
        &&& self.filters@[0].direction == 2
        &&& self.filters@[0].page_number == 1
        &&& self.filters@[0].page_size == 100
        &&& self.filters@[0].sort_by == 0
        &&& self.filters@[0].sort_order == 0
        &&& self.filters@[0].criteria@.len() == 2
        &&& self.filters@[0].criteria@[0].filter_type == 8
        &&& self.filters@[0].criteria@[0].value@ == "Microsoft.VisualStudio.Code"@
        &&& self.filters@[0].criteria@[1].filter_type == 7
        &&& self.filters@[0].criteria@[1].value@ == unique_id
    }

    /// The body of the query for one extension.
    pub fn new(unique_id: String) -> (r: Self)
        ensures
            r.asks_for(unique_id@),
    {
        let mut criteria: Vec<PayloadCriterion> = Vec::new();
        criteria.push(
            PayloadCriterion { filter_type: 8, value: "Microsoft.VisualStudio.Code".to_owned() },
        );
        criteria.push(PayloadCriterion { filter_type: 7, value: unique_id });
        let mut filters: Vec<PayloadCriteria> = Vec::new();
        filters.push(
            PayloadCriteria {
                criteria,
                direction: 2,
                page_number: 1,
                page_size: 100,
                sort_by: 0,
                sort_order: 0,
            },
        );
        Payload { filters, asset_types: Vec::new(), flags: 103 }
    }
}

fn header(name: &str, value: &str) -> (r: Header)
    ensures
        r.name@ == name@,
        r.value@ == value@,
{
    Header { name: name.to_owned(), value: value.to_owned() }
}

/// The addresses of the four kinds of asset that resolution looks for, each
/// empty where the version has no such asset.
fn locate_assets(files: &Vec<VSMarketPlaceExtensionVersionFile>) -> (r: (
    String,
    String,
    String,
    String,
))
    ensures
        r.0@ == asset_source(files@, AssetTypeMicrosoftVisualStudio::ServicesVSIXPackage),
        r.1@ == asset_source(files@, AssetTypeMicrosoftVisualStudio::ServicesVSIXManifest),
        r.2@ == asset_source(files@, AssetTypeMicrosoftVisualStudio::ServicesContentChangelog),
        r.3@ == asset_source(files@, AssetTypeMicrosoftVisualStudio::ServicesContentDetails),
{
    let mut vsix_url = String::new();
    let mut vsix_manifest_url = String::new();
    let mut changelog_url = String::new();
    let mut readme_url = String::new();
    let mut i: usize = 0;
    proof {
        assert(files@.take(0) =~= Seq::<VSMarketPlaceExtensionVersionFile>::empty());
    }
    while i < files.len()
        invariant
            i <= files.len(),
            vsix_url@ == asset_source(
                files@.take(i as int),
                AssetTypeMicrosoftVisualStudio::ServicesVSIXPackage,
            ),
            vsix_manifest_url@ == asset_source(
                files@.take(i as int),
                AssetTypeMicrosoftVisualStudio::ServicesVSIXManifest,
            ),
            changelog_url@ == asset_source(
                files@.take(i as int),
                AssetTypeMicrosoftVisualStudio::ServicesContentChangelog,
            ),
            readme_url@ == asset_source(
                files@.take(i as int),
                AssetTypeMicrosoftVisualStudio::ServicesContentDetails,
            ),
        decreases files.len() - i,
    {
        proof {
            let next = files@.take(i + 1);
            assert(next.drop_last() =~= files@.take(i as int));
            assert(next.last() == files@[i as int]);
        }
        let file = &files[i];
        match file.asset_type {
            AssetTypeMicrosoftVisualStudio::ServicesVSIXPackage => {
                vsix_url = file.source.clone();
            },
            AssetTypeMicrosoftVisualStudio::ServicesVSIXManifest => {
                vsix_manifest_url = file.source.clone();
            },
            AssetTypeMicrosoftVisualStudio::ServicesContentChangelog => {
                changelog_url = file.source.clone();
            },
            AssetTypeMicrosoftVisualStudio::ServicesContentDetails => {
                readme_url = file.source.clone();
            },
            _ => {},
        }
        i += 1;
    }
    proof {
        assert(files@.take(files.len() as int) =~= files@);
    }
    (vsix_url, vsix_manifest_url, changelog_url, readme_url)
}

/// Where the version asked for stands in the list.
fn find_version(versions: &Vec<VSMarketPlaceExtensionVersion>, version: &str) -> (r: Option<
    usize,
>)
    ensures
        match r {
            Some(i) => i < versions.len() && pinned_index(versions@, version@) == Some(i as int),
            None => pinned_index(versions@, version@) is None,
        },
{
    let mut found: Option<usize> = None;
    let mut i: usize = 0;
    proof {
        assert(versions@.take(0) =~= Seq::<VSMarketPlaceExtensionVersion>::empty());
    }
    while i < versions.len()
        invariant
            i <= versions.len(),
            match found {
                Some(k) => k < i && pinned_index(versions@.take(i as int), version@) == Some(
                    k as int,
                ),
                None => pinned_index(versions@.take(i as int), version@) is None,
            },
        decreases versions.len() - i,
    {
        proof {
            let next = versions@.take(i + 1);
            assert(next.drop_last() =~= versions@.take(i as int));
            assert(next.last() == versions@[i as int]);
        }
        if str_eq(versions[i].version.as_str(), version) {
            found = Some(i);
        }
        i += 1;
    }
    proof {
        assert(versions@.take(versions.len() as int) =~= versions@);
    }
    found
}

impl VSMarketPlaceExtensionRefined {
    /// The query that asks the gallery for an extension.
    pub fn request(unique_id: String) -> (r: Query)
        ensures
            r.url@ == query_address(),
            header_pairs(r.headers@) == query_headers(),
            r.payload.asks_for(unique_id@),
    {
        let mut headers: Vec<Header> = Vec::new();
        headers.push(header("accept", "application/json;api-version=6.1-preview.1"));
        headers.push(header("referer", ""));
        headers.push(
            header(
                "user-agent",
                "Mozilla/5.0 (Macintosh; Intel Mac OS X 10_15_5) AppleWebKit/537.36 (KHTML, like Gecko) Code/1.51.0 Chrome/83.0.4103.122 Electron/9.3.3 Safari/537.36",
            ),
        );
        headers.push(header("x-market-client-id", "VSCode 1.51.0"));
        headers.push(header("content-type", "application/json"));
        proof {
            assert(header_pairs(headers@) =~= query_headers());
        }
        Query {
            url: "https://marketplace.visualstudio.com/_apis/public/gallery/extensionquery".to_owned(),
            headers,
            payload: Payload::new(unique_id),
        }
    }

    /// What is kept of an extension in one of its versions.
    fn refine(extension: &VSMarketPlaceExtension, index: usize) -> (r: Result<Self, ResolveError>)
        requires
            index < extension.versions@.len(),
        ensures
            match r {
                Ok(kept) => refined_version(*extension, extension.versions@[index as int]) == Ok::<
                    RefinedModel,
                    ResolveError,
                >(kept@),
                Err(e) => refined_version(*extension, extension.versions@[index as int]) == Err::<
                    RefinedModel,
                    ResolveError,
                >(e),
            },
    {
        let version = &extension.versions[index];
        let (vsix_url, vsix_manifest_url, changelog_url, readme_url) = locate_assets(
            &version.files,
        );
        if vsix_url.as_str().is_empty() || vsix_manifest_url.as_str().is_empty() {
            Err(ResolveError::MissingRequiredAsset)
        } else {
            Ok(
                VSMarketPlaceExtensionRefined {
                    publisher: extension.publisher.publisher_name.clone(),
                    extension_name: extension.extension_name.clone(),
                    display_name: extension.display_name.clone(),
                    description: extension.short_description.clone(),
                    version: version.version.clone(),
                    vsix_url,
                    vsix_manifest_url,
                    changelog_url: some_if_non_empty(changelog_url),
                    readme_url: some_if_non_empty(readme_url),
                },
            )
        }
    }

    fn choose_from(response: &VSMarketPlaceQueryResultResponse, pin: Option<&str>) -> (r: Result<
        Self,
        ResolveError,
    >)
        ensures
            match r {
                Ok(kept) => refined(*response, pin_text(pin)) == Ok::<RefinedModel, ResolveError>(
                    kept@,
                ),
                Err(e) => refined(*response, pin_text(pin)) == Err::<RefinedModel, ResolveError>(e),
            },
    {
        if response.results.len() == 0 {
            return Err(ResolveError::NoResults);
        }
        let result = &response.results[0];
        if result.extensions.len() == 0 {
            return Err(ResolveError::NoExtensions);
        }
        let extension = &result.extensions[0];
        let index = match pin {
            Some(version) => find_version(&extension.versions, version),
            None => if extension.versions.len() > 0 {
                Some(0)
            } else {
                None
            },
        };
        match index {
            None => Err(ResolveError::VersionNotFound),
            Some(i) => Self::refine(extension, i),
        }
    }

    /// The address of the extension's package archive.
    pub fn src(&self) -> (r: String)
        ensures
            r@ == asset_url(self.publisher@, self.extension_name@, self.version@),
    {
        let mut url = "https://".to_owned();
        url.append(self.publisher.as_str());
        url.append(".gallery.vsassets.io/_apis/public/gallery/publisher/");
        url.append(self.publisher.as_str());
        url.append("/extension/");
        url.append(self.extension_name.as_str());
        url.append("/");
        url.append(self.version.as_str());
        url.append("/assetbyname/Microsoft.VisualStudio.Services.VSIXPackage");
        url
    }

    /// The metadata of the package that the extension becomes, given the
    /// links of its manifest, the long description found in its README and
    /// the license of its repository: empty texts are absent.
    pub open spec fn meta_model(
        self,
        links: ManifestLinks,
        long_description: Seq<char>,
        license: Option<NixLicense>,
    ) -> MetaModel {
        MetaModel {
            description: present(opt_text(self.description)),
            long_description: non_empty(long_description),
            homepage: present(opt_text(links.homepage)),
            license: match license {
                Some(l) => Some(seq![l]),
                None => None,
            },
            changelog: match present(opt_text(self.changelog_url)) {
                Some(c) => Some(seq![c]),
                None => None,
            },
            ..default_meta()
        }
    }

    /// The metadata of a package never holds an empty text where a value is
    /// absent upstream.
    pub proof fn lemma_meta_normalized(
        self,
        links: ManifestLinks,
        long_description: Seq<char>,
        license: Option<NixLicense>,
    )
        ensures
            self.meta_model(links, long_description, license).normalized(),
    {
    }

    /// The package that the extension becomes under the manifest key `name`.
    pub open spec fn package_model(
        self,
        name: Seq<char>,
        links: ManifestLinks,
        long_description: Seq<char>,
        license: Option<NixLicense>,
        sha256: Seq<char>,
    ) -> PackageModel {
        PackageModel {
            name,
            pname: self.extension_name@,
            src: asset_url(self.publisher@, self.extension_name@, self.version@),
            version: self.version@,
            sha256,
            meta: self.meta_model(links, long_description, license),
        }
    }

    /// Builds the package descriptor of the extension. `pname` is the key
    /// under which the manifest lists it; the links are those of its
    /// manifest document, the long description that of its README, the
    /// license that of its repository, the hash that of its package archive.
    pub fn to_nixpkg(
        self,
        pname: String,
        links: ManifestLinks,
        long_description: String,
        license: Option<NixLicense>,
        sha256: String,
    ) -> (r: NixPackage)
        ensures
            r@ == self.package_model(pname@, links, long_description@, license, sha256@),
    {
        let src = self.src();
        let ghost changelog_url = present(opt_text(self.changelog_url));
        let licenses = match license {
            Some(l) => Some(vec![l]),
            None => None,
        };
        let changelog = match some_if_present(self.changelog_url) {
            Some(c) => {
                let mut list: Vec<String> = Vec::new();
                list.push(c);
                Some(list)
            },
            None => None,
        };
        let base = NixPackageMeta::default();
        let meta = NixPackageMeta {
            description: some_if_present(self.description),
            long_description: some_if_non_empty(long_description),
            homepage: some_if_present(links.homepage),
            license: licenses,
            changelog,
            branch: base.branch,
            download_page: base.download_page,
            priority: base.priority,
            maintainers: base.maintainers,
            platforms: base.platforms,
            tests: base.tests,
            timeout: base.timeout,
            hydra_platforms: base.hydra_platforms,
            broken: base.broken,
            update_walker: base.update_walker,
        };
        proof {
            if let Some(c) = changelog_url {
                assert(meta@.changelog->0 =~= seq![c]);
            }
            if let Some(l) = license {
                assert(meta@.license->0 =~= seq![l]);
            }
        }
        NixPackage {
            name: pname,
            pname: self.extension_name,
            src,
            version: self.version,
            sha256,
            meta,
        }
    }

    /// What is kept of the gallery's reply to a query for the latest version
    /// of an extension.
    pub fn get(reply: Reply<VSMarketPlaceQueryResultResponse>) -> (r: Result<Self, ResolveError>)
        ensures
            match r {
                Ok(kept) => refined_reply(reply, None) == Ok::<RefinedModel, ResolveError>(kept@),
                Err(e) => refined_reply(reply, None) == Err::<RefinedModel, ResolveError>(e),
            },
    {
        match accept(reply) {
            Ok(response) => Self::choose_from(&response, None),
            Err(e) => Err(e),
        }
    }

    /// What is kept of the gallery's reply to a query for one version of an
    /// extension.
    pub fn get_with_version(reply: Reply<VSMarketPlaceQueryResultResponse>, version: String) -> (r:
        Result<Self, ResolveError>)
        ensures
            match r {
                Ok(kept) => refined_reply(reply, Some(version@)) == Ok::<
                    RefinedModel,
                    ResolveError,
                >(kept@),
                Err(e) => refined_reply(reply, Some(version@)) == Err::<RefinedModel, ResolveError>(
                    e,
                ),
            },
    {
        match accept(reply) {
            Ok(response) => Self::choose_from(&response, Some(version.as_str())),
            Err(e) => Err(e),
        }
    }
}

/// A list of files without a file of some kind serves no asset of that kind.
pub proof fn lemma_absent_asset(
    files: Seq<VSMarketPlaceExtensionVersionFile>,
    kind: AssetTypeMicrosoftVisualStudio,
)
    requires
        forall|i: int| 0 <= i < files.len() ==> files[i].asset_type != kind,
    ensures
        asset_source(files, kind) == Seq::<char>::empty(),
    decreases files.len(),
{
    if files.len() > 0 {
        lemma_absent_asset(files.drop_last(), kind);
    }
}

/// A version whose files lack the package archive, or its manifest, is never
/// refined: resolution fails with `MissingRequiredAsset`. What is refined
/// names both, and neither address is empty.
pub proof fn lemma_required_assets(
    extension: VSMarketPlaceExtension,
    version: VSMarketPlaceExtensionVersion,
)
    ensures
        (forall|i: int|
            0 <= i < version.files@.len() ==> version.files@[i].asset_type
                != AssetTypeMicrosoftVisualStudio::ServicesVSIXPackage) ==> refined_version(
            extension,
            version,
        ) == Err::<RefinedModel, ResolveError>(ResolveError::MissingRequiredAsset),
        (forall|i: int|
            0 <= i < version.files@.len() ==> version.files@[i].asset_type
                != AssetTypeMicrosoftVisualStudio::ServicesVSIXManifest) ==> refined_version(
            extension,
            version,
        ) == Err::<RefinedModel, ResolveError>(ResolveError::MissingRequiredAsset),
        refined_version(extension, version) matches Ok(kept) ==> kept.vsix_url.len() > 0
            && kept.vsix_manifest_url.len() > 0,
{
    if forall|i: int|
        0 <= i < version.files@.len() ==> version.files@[i].asset_type
            != AssetTypeMicrosoftVisualStudio::ServicesVSIXPackage {
        lemma_absent_asset(version.files@, AssetTypeMicrosoftVisualStudio::ServicesVSIXPackage);
    }
    if forall|i: int|
        0 <= i < version.files@.len() ==> version.files@[i].asset_type
            != AssetTypeMicrosoftVisualStudio::ServicesVSIXManifest {
        lemma_absent_asset(version.files@, AssetTypeMicrosoftVisualStudio::ServicesVSIXManifest);
    }
}

/// The text of an optional pin.
pub open spec fn pin_text(pin: Option<&str>) -> Option<Seq<char>> {
    match pin {
        Some(version) => Some(version@),
        None => None,
    }
}

} // verus!
