//! Packages and the ways Nix fetches them.

use crate::error::{Error, ErrorView};
use crate::model::result_view;
use crate::text::{cut_at_first, split_once_str};
use vstd::prelude::*;

verus! {

/// The registry that serves a package when its entry names no other.
pub const DEFAULT_REGISTRY: &'static str = "https://registry.npmjs.org/";

/// How Nix obtains the content of one package.
#[derive(Debug, Clone, PartialEq, Eq, PartialOrd, Ord, Hash)]
pub enum Fetcher {
    /// Fetched with `pkgs.fetchurl`.
    FetchUrl {
        /// Where the archive is.
        url: String,
        /// The hash of the archive, as the lockfile gives it.
        hash: String,
        /// The file name to store the archive under. Set only for an archive
        /// from another registry than the default one, so that the name ends
        /// in `.tgz` whatever the URL looks like.
        name: Option<String>,
    },
    /// Fetched with `pkgs.fetchgit`.
    FetchGit {
        /// The repository.
        url: String,
        /// The revision to check out.
        rev: String,
        /// The hash of the checkout, which a prefetch supplies.
        hash: String,
    },
    /// Fetched with `pkgs.fetchFromGitHub`.
    FetchGitHub {
        /// The owner of the repository.
        owner: String,
        /// The repository.
        repo: String,
        /// The revision to check out.
        rev: String,
        /// The hash of the checkout, which a prefetch supplies.
        hash: String,
    },
    /// Fetched with `pkgs.fetchtarball`.
    FetchTarball {
        /// Where the tarball is.
        url: String,
        /// The hash of its content, which a prefetch supplies.
        hash: String,
    },
    /// Copied to the store from a path in the project; nothing is fetched
    /// and no hash is needed.
    CopyToStore {
        /// The path, from the project's root.
        path: String,
    },
}

/// A [`Fetcher`] with every text as a sequence of characters.
pub ghost enum FetcherView {
    FetchUrl { url: Seq<char>, hash: Seq<char>, name: Option<Seq<char>> },
    FetchGit { url: Seq<char>, rev: Seq<char>, hash: Seq<char> },
    FetchGitHub { owner: Seq<char>, repo: Seq<char>, rev: Seq<char>, hash: Seq<char> },
    FetchTarball { url: Seq<char>, hash: Seq<char> },
    CopyToStore { path: Seq<char> },
}

impl View for Fetcher {
    type V = FetcherView;

    open spec fn view(&self) -> FetcherView {
        match self {
            Fetcher::FetchUrl { url, hash, name } => FetcherView::FetchUrl {
                url: url@,
                hash: hash@,
                name: name.deep_view(),
            },
            Fetcher::FetchGit { url, rev, hash } => FetcherView::FetchGit {
                url: url@,
                rev: rev@,
                hash: hash@,
            },
            Fetcher::FetchGitHub { owner, repo, rev, hash } => FetcherView::FetchGitHub {
                owner: owner@,
                repo: repo@,
                rev: rev@,
                hash: hash@,
            },
            Fetcher::FetchTarball { url, hash } => FetcherView::FetchTarball {
                url: url@,
                hash: hash@,
            },
            Fetcher::CopyToStore { path } => FetcherView::CopyToStore { path: path@ },
        }
    }
}

/// One package of the lockfile: the name it goes by and how to fetch it.
#[derive(Debug, Clone, PartialEq, Eq, PartialOrd, Ord, Hash)]
pub struct Package {
    /// The name the package goes by.
    pub name: String,
    /// How its content is obtained.
    pub fetcher: Fetcher,
}

/// A [`Package`] with every text as a sequence of characters.
pub ghost struct PackageView {
    pub name: Seq<char>,
    pub fetcher: FetcherView,
}

impl View for Package {
    type V = PackageView;

    open spec fn view(&self) -> PackageView {
        PackageView { name: self.name@, fetcher: self.fetcher@ }
    }
}

impl Package {
    /// A package from its two parts.
    pub fn new(name: String, fetcher: Fetcher) -> (package: Package)
        ensures
            package@ == (PackageView { name: name@, fetcher: fetcher@ }),
    {
        Package { name, fetcher }
    }
}

/// What a prefetch of a package's content reports.
#[derive(Debug, Clone, PartialEq, Eq)]
pub struct PrefetchResult {
    /// The hash of the content.
    pub hash: String,
}

/// A [`PrefetchResult`] with its hash as a sequence of characters.
pub ghost struct PrefetchResultView {
    pub hash: Seq<char>,
}

impl View for PrefetchResult {
    type V = PrefetchResultView;

    open spec fn view(&self) -> PrefetchResultView {
        PrefetchResultView { hash: self.hash@ }
    }
}

/// The tarball URL of an entry where it names one: an empty text counts as
/// none.
pub open spec fn explicit_url(tarball_url: Option<Seq<char>>) -> Option<Seq<char>> {
    match tarball_url {
        Some(url) if url.len() > 0 => Some(url),
        _ => None,
    }
}

/// The file name of the archive of `name` at `version`.
pub open spec fn tgz_name(name: Seq<char>, version: Seq<char>) -> Seq<char> {
    name + "-"@ + version + ".tgz"@
}

/// The URL of an npm package's archive.
///
/// An explicit URL is taken as it is. Otherwise the archive lies in the
/// default registry, under the package's scope, if it has one, and its name:
/// `scope/name@version` and `name@version` are the two forms of `ident`.
pub open spec fn npm_url(ident: Seq<char>, tarball_url: Option<Seq<char>>) -> Result<
    Seq<char>,
    ErrorView,
> {
    match explicit_url(tarball_url) {
        Some(url) => Ok(url),
        None => match cut_at_first(ident, '/') {
            Some((scope, rest)) => match cut_at_first(rest, '@') {
                Some((name, version)) => Ok(
                    DEFAULT_REGISTRY@ + scope + "/"@ + name + "/-/"@ + tgz_name(name, version),
                ),
                None => Err(ErrorView::NoAtInPackageIdentifier),
            },
            None => match cut_at_first(ident, '@') {
                Some((name, version)) => Ok(
                    DEFAULT_REGISTRY@ + name + "/-/"@ + tgz_name(name, version),
                ),
                None => Err(ErrorView::NoAtInPackageIdentifier),
            },
        },
    }
}

/// The name and version that follow the scope of `ident`, where it has the
/// form `scope/name@version`.
pub open spec fn scoped_name_and_version(ident: Seq<char>) -> Option<(Seq<char>, Seq<char>)> {
    match cut_at_first(ident, '/') {
        Some((_, rest)) => cut_at_first(rest, '@'),
        None => None,
    }
}

/// The file name for the archive of `ident`: name and version joined by a
/// hyphen, whether or not a scope precedes them, and `ident` itself where it
/// holds no `@` to part them; `.tgz` ends it in every case.
pub open spec fn tgz_filename(ident: Seq<char>) -> Seq<char> {
    match scoped_name_and_version(ident) {
        Some((name, version)) => tgz_name(name, version),
        None => match cut_at_first(ident, '@') {
            Some((name, version)) => tgz_name(name, version),
            None => ident + ".tgz"@,
        },
    }
}

/// The fetcher of an npm package: its archive's URL, the hash from the
/// lockfile, and a file name only where the URL was given explicitly.
pub open spec fn npm_fetcher(
    ident: Seq<char>,
    hash: Seq<char>,
    tarball_url: Option<Seq<char>>,
) -> Result<FetcherView, ErrorView> {
    match npm_url(ident, tarball_url) {
        Ok(url) => Ok(
            FetcherView::FetchUrl {
                url,
                hash,
                name: match explicit_url(tarball_url) {
                    Some(_) => Some(tgz_filename(ident)),
                    None => None,
                },
            },
        ),
        Err(error) => Err(error),
    }
}

/// What an npm fetcher is made of, wherever there is one: it fetches by
/// URL, with the hash that was handed in; a non-empty tarball URL is used as
/// it stands; and the file name is set for such a URL and for no other.
pub proof fn lemma_npm_fetcher_parts(
    ident: Seq<char>,
    hash: Seq<char>,
    tarball_url: Option<Seq<char>>,
)
    ensures
        npm_fetcher(ident, hash, tarball_url) is Ok <==> npm_url(ident, tarball_url) is Ok,
        match npm_fetcher(ident, hash, tarball_url) {
            Ok(fetcher) => {
                &&& fetcher is FetchUrl
                &&& fetcher->FetchUrl_hash == hash
                &&& Ok::<Seq<char>, ErrorView>(fetcher->FetchUrl_url) == npm_url(ident, tarball_url)
                &&& fetcher->FetchUrl_name is Some <==> tarball_url is Some && tarball_url->0.len() > 0
                &&& fetcher->FetchUrl_name is Some ==> fetcher->FetchUrl_url == tarball_url->0
                    && fetcher->FetchUrl_name->0 == tgz_filename(ident)
            },
            Err(error) => error == ErrorView::NoAtInPackageIdentifier && explicit_url(tarball_url)
                is None,
        },
{
}

/// Joins name and version into the archive's file name.
fn join_tgz_name(name: &str, version: &str) -> (joined: String)
    ensures
        joined@ == tgz_name(name@, version@),
{
    let mut joined = name.to_owned();
    joined.append("-");
    joined.append(version);
    joined.append(".tgz");
    joined
}

impl Fetcher {
    /// The fetcher of the npm package `ident`, with the hash that the
    /// lockfile gives and the tarball URL of its entry, if it has one.
    ///
    /// Fails exactly where [`Fetcher::to_npm_url`] does.
    pub fn new_npm_package(ident: &str, hash: String, tarball_url: Option<&str>) -> (fetcher:
        Result<Fetcher, Error>)
        ensures
            result_view(fetcher) == npm_fetcher(ident@, hash@, tarball_url.deep_view()),
    {
        let url = match Fetcher::to_npm_url(ident, tarball_url) {
            Ok(url) => url,
            Err(error) => return Err(error),
        };
        let name = match tarball_url {
            Some(given) => if given.is_empty() {
                None
            } else {
                Some(Fetcher::extract_tgz_filename(ident))
            },
            None => None,
        };
        Ok(Fetcher::FetchUrl { url, hash, name })
    }

    /// The file name to store the archive of `ident` under. Never fails: an
    /// identifier without `@` is used whole.
    pub fn extract_tgz_filename(ident: &str) -> (filename: String)
        ensures
            filename@ == tgz_filename(ident@),
    {
        if let Some((_, rest)) = split_once_str(ident, '/') {
            if let Some((name, version)) = split_once_str(rest, '@') {
                return join_tgz_name(name, version);
            }
        }
        if let Some((name, version)) = split_once_str(ident, '@') {
            return join_tgz_name(name, version);
        }
        let mut filename = ident.to_owned();
        filename.append(".tgz");
        filename
    }

    /// The URL to fetch the npm package `ident` from.
    ///
    /// A non-empty `tarball_url` is returned as it is. Otherwise the URL is
    /// built in the default registry, which needs an `@` in `ident` (after
    /// the scope, if there is one): without it the result is
    /// `NoAtInPackageIdentifier`.
    pub fn to_npm_url(ident: &str, tarball_url: Option<&str>) -> (url: Result<String, Error>)
        ensures
            result_view(url) == npm_url(ident@, tarball_url.deep_view()),
    {
        if let Some(given) = tarball_url {
            if !given.is_empty() {
                return Ok(given.to_owned());
            }
        }
        let mut url = DEFAULT_REGISTRY.to_owned();
        match split_once_str(ident, '/') {
            Some((scope, rest)) => match split_once_str(rest, '@') {
                Some((name, version)) => {
                    url.append(scope);
                    url.append("/");
                    url.append(name);
                    url.append("/-/");
                    url.append(join_tgz_name(name, version).as_str());
                    Ok(url)
                },
                None => Err(Error::NoAtInPackageIdentifier),
            },
            None => match split_once_str(ident, '@') {
                Some((name, version)) => {
                    url.append(name);
                    url.append("/-/");
                    url.append(join_tgz_name(name, version).as_str());
                    Ok(url)
                },
                None => Err(Error::NoAtInPackageIdentifier),
            },
        }
    }
}

} // verus!
