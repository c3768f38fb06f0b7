//! Decoding one lockfile entry.
//!
//! An entry is a name and a list of JSON values. The length of the list is
//! the only sign of what the entry describes:
//!
//! | values | package | layout |
//! |---|---|---|
//! | 1 | workspace | `[identifier]`, with `workspace:<path>` in it |
//! | 2 | tarball or local file | `[identifier, ..]`, `name@<http url>` or `name@file:<path>` |
//! | 3 | git or GitHub | `[identifier, ..]`, `name@git+<url>#<rev>` or `name@github:<owner>/<repo>#<rev>` |
//! | 4 | npm | `[identifier, tarball_url, metadata, hash]` |
//!
//! Workspace, file and npm entries decode to a [`Package`] at once. For the
//! others the lockfile holds no hash: decoding stops at a [`HashRequest`],
//! which says what to prefetch, and [`HashRequest::complete`] builds the
//! package from what the prefetch reported. Fetching is the caller's part;
//! nothing here touches the network.

use crate::error::{Error, ErrorView};
use crate::json::{json_str, json_text, value_text};
use crate::model::result_view;
use crate::package::{
    npm_fetcher, Fetcher, FetcherView, Package, PackageView, PrefetchResult, PrefetchResultView,
};
use crate::text::{
    after_last, chars_of, cut_at_first, occurs_at, occurs_in, rsplit_after, split_once_str,
    str_contains, str_starts_with, without_prefix,
};
use serde_json::Value;
use vstd::prelude::*;

verus! {

/// A text of at least two characters that begins and ends with a double
/// quote: the JSON text of a string value.
pub open spec fn is_quoted(text: Seq<char>) -> bool {
    text.len() >= 2 && text.first() == '"' && text.last() == '"'
}

/// `text` without its first and its last character.
pub open spec fn unquoted(text: Seq<char>) -> Seq<char> {
    text.subrange(1, text.len() - 1)
}

/// Whether a field can be taken from `value`: its JSON text is quoted.
pub open spec fn is_takeable(value: Value) -> bool {
    is_quoted(json_text(value))
}

/// The field that a take reads from `value`: its JSON text between the
/// quotes.
pub open spec fn taken_text(value: Value) -> Seq<char> {
    unquoted(json_text(value))
}

/// `values` after the element at `index` is taken out and the last element
/// has moved into its place.
pub open spec fn swap_removed(values: Seq<Value>, index: int) -> Seq<Value> {
    values.update(index, values.last()).drop_last()
}

/// Takes the field at `index` out of `values`.
///
/// The value at `index` leaves the list and the last value moves into its
/// place, so the order of what remains is not the order before. The field is
/// the value's JSON text without the quotes around it. Only a string value
/// has such quotes, which the caller must know of the value it asks for.
pub fn swap_remove_value(values: &mut Vec<Value>, index: usize) -> (field: String)
    requires
        index < old(values).len(),
        is_takeable(old(values)@[index as int]),
    ensures
        field@ == taken_text(old(values)@[index as int]),
        json_text(old(values)@[index as int]) == seq!['"'] + field@ + seq!['"'],
        final(values)@ == swap_removed(old(values)@, index as int),
{
    let value = values.swap_remove(index);
    let text = value_text(&value);
    strip_quotes(text.as_str())
}

/// Parts `input` at the first `delimiter`: what stands before it and what
/// stands after it, the delimiter itself dropped. `None` where `input` holds
/// no `delimiter`.
pub fn split_once_owned(input: String, delimiter: char) -> (parts: Option<(String, String)>)
    ensures
        parts.deep_view() == cut_at_first(input@, delimiter),
{
    match split_once_str(input.as_str(), delimiter) {
        Some((before, after)) => Some((before.to_owned(), after.to_owned())),
        None => None,
    }
}

/// `input` without `prefix` at its start; `input` as it is where it does not
/// start with `prefix`.
pub fn drop_prefix(input: String, prefix: &str) -> (rest: String)
    ensures
        rest@ == without_prefix(input@, prefix@),
{
    if str_starts_with(input.as_str(), prefix) {
        let prefix_len = prefix.unicode_len();
        let input_len = input.as_str().unicode_len();
        input.as_str().substring_char(prefix_len, input_len).to_owned()
    } else {
        input
    }
}

/// `text` without the quotes around it.
fn strip_quotes(text: &str) -> (inner: String)
    requires
        is_quoted(text@),
    ensures
        inner@ == unquoted(text@),
        text@ == seq!['"'] + inner@ + seq!['"'],
{
    let len = text.unicode_len();
    let inner = text.substring_char(1, len - 1).to_owned();
    assert(text@ =~= seq!['"'] + inner@ + seq!['"']);
    inner
}

/// Whether `text` is quoted.
fn is_quoted_text(text: &str) -> (b: bool)
    ensures
        b == is_quoted(text@),
{
    let chars = chars_of(text);
    let len = chars.len();
    len >= 2 && chars[0] == '"' && chars[len - 1] == '"'
}

/// The field that a take would read from `value`, which stays where it is;
/// `None` where no field can be taken from it.
pub fn peek_field(value: &Value) -> (field: Option<String>)
    ensures
        field is Some <==> is_takeable(*value),
        field matches Some(f) ==> f@ == taken_text(*value),
{
    let text = value_text(value);
    if is_quoted_text(text.as_str()) {
        Some(strip_quotes(text.as_str()))
    } else {
        None
    }
}

/// A take removes the value it reads and no other: what remains holds the
/// same values as before, each as often, but for one copy of the value
/// taken.
pub proof fn lemma_take_removes_one(values: Seq<Value>, index: int)
    requires
        0 <= index < values.len(),
    ensures
        swap_removed(values, index).len() == values.len() - 1,
        swap_removed(values, index).to_multiset() == values.to_multiset().remove(values[index]),
{
    broadcast use vstd::seq_lib::group_to_multiset_ensures;

    let last = values.len() - 1;
    let moved = values.update(index, values.last());
    assert(moved.drop_last() =~= moved.remove(last));
    if index == last {
        assert(moved =~= values);
    } else {
        assert(swap_removed(values, index).to_multiset() =~= values.to_multiset().remove(
            values[index],
        ));
    }
}

/// After a take the list no longer shows the text that was taken, provided
/// that no other value of the list had the same text before.
pub proof fn lemma_taken_text_is_gone(values: Seq<Value>, index: int)
    requires
        0 <= index < values.len(),
        forall|other: int|
            0 <= other < values.len() && other != index ==> json_text(#[trigger] values[other])
                != json_text(values[index]),
    ensures
        forall|k: int|
            0 <= k < swap_removed(values, index).len() ==> json_text(
                #[trigger] swap_removed(values, index)[k],
            ) != json_text(values[index]),
{
    let rest = swap_removed(values, index);
    assert forall|k: int| 0 <= k < rest.len() implies json_text(#[trigger] rest[k]) != json_text(
        values[index],
    ) by {
        assert(rest[k] == values[if k == index { values.len() - 1 } else { k }]);
    }
}

/// What to prefetch before a package can be completed, with the fields that
/// decoding has already read.
#[derive(Debug, Clone, PartialEq, Eq)]
pub enum HashRequest {
    /// A GitHub repository at a revision.
    GitHub {
        /// The location as the lockfile has it: `github:<owner>/<repo>`.
        path: String,
        /// The revision.
        rev: String,
    },
    /// A git repository at a revision.
    Git {
        /// The repository's URL, without `git+` in front.
        url: String,
        /// The revision.
        rev: String,
    },
    /// A tarball behind a URL.
    Tarball {
        /// The URL.
        url: String,
    },
}

/// A [`HashRequest`] with every text as a sequence of characters.
pub ghost enum HashRequestView {
    GitHub { path: Seq<char>, rev: Seq<char> },
    Git { url: Seq<char>, rev: Seq<char> },
    Tarball { url: Seq<char> },
}

impl View for HashRequest {
    type V = HashRequestView;

    open spec fn view(&self) -> HashRequestView {
        match self {
            HashRequest::GitHub { path, rev } => HashRequestView::GitHub { path: path@, rev: rev@ },
            HashRequest::Git { url, rev } => HashRequestView::Git { url: url@, rev: rev@ },
            HashRequest::Tarball { url } => HashRequestView::Tarball { url: url@ },
        }
    }
}

/// What decoding an entry yields: the package, or the request for the hash
/// that it still lacks.
#[derive(Debug, Clone, PartialEq, Eq)]
pub enum Decoded {
    /// The entry held all that the package needs.
    Ready(Package),
    /// The package needs a hash that only a prefetch can supply.
    NeedsHash(HashRequest),
}

/// A [`Decoded`] with every text as a sequence of characters.
pub ghost enum DecodedView {
    Ready(PackageView),
    NeedsHash(HashRequestView),
}

impl View for Decoded {
    type V = DecodedView;

    open spec fn view(&self) -> DecodedView {
        match self {
            Decoded::Ready(package) => DecodedView::Ready(package@),
            Decoded::NeedsHash(request) => DecodedView::NeedsHash(request@),
        }
    }
}

/// The locator to hand to the prefetcher for `request`.
pub open spec fn locator_of(request: HashRequestView) -> Seq<char> {
    match request {
        HashRequestView::GitHub { path, rev } => path + "?ref="@ + rev,
        HashRequestView::Git { url, rev } => "git+"@ + url + "?rev="@ + rev,
        HashRequestView::Tarball { url } => url,
    }
}

/// The package that `request` becomes once the prefetch has ended with
/// `outcome`.
///
/// A failed prefetch fails the package, with the prefetcher's message. A
/// GitHub location is parted into owner and repository only now, so a
/// location without `/` fails after a prefetch that succeeded. The names are
/// made up from what was fetched: `github:<owner>-<repo>-<rev>`, `git:<rev>`,
/// `tarball:<url>`.
pub open spec fn completed(
    request: HashRequestView,
    outcome: Result<PrefetchResultView, Seq<char>>,
) -> Result<PackageView, ErrorView> {
    match outcome {
        Err(message) => Err(ErrorView::Prefetch(message)),
        Ok(prefetched) => match request {
            HashRequestView::GitHub { path, rev } => match cut_at_first(path, '/') {
                Some((owner_with_prefix, repo)) => {
                    let owner = without_prefix(owner_with_prefix, "github:"@);
                    Ok(
                        PackageView {
                            name: "github:"@ + owner + "-"@ + repo + "-"@ + rev,
                            fetcher: FetcherView::FetchGitHub {
                                owner,
                                repo,
                                rev,
                                hash: prefetched.hash,
                            },
                        },
                    )
                },
                None => Err(ErrorView::ImproperGithubUrl),
            },
            HashRequestView::Git { url, rev } => Ok(
                PackageView {
                    name: "git:"@ + rev,
                    fetcher: FetcherView::FetchGit { url, rev, hash: prefetched.hash },
                },
            ),
            HashRequestView::Tarball { url } => Ok(
                PackageView {
                    name: "tarball:"@ + url,
                    fetcher: FetcherView::FetchTarball { url, hash: prefetched.hash },
                },
            ),
        },
    }
}

impl HashRequest {
    /// The locator to hand to the prefetcher.
    pub fn locator(&self) -> (locator: String)
        ensures
            locator@ == locator_of(self@),
    {
        match self {
            HashRequest::GitHub { path, rev } => {
                let mut locator = path.clone();
                locator.append("?ref=");
                locator.append(rev.as_str());
                locator
            },
            HashRequest::Git { url, rev } => {
                let mut locator = "git+".to_owned();
                locator.append(url.as_str());
                locator.append("?rev=");
                locator.append(rev.as_str());
                locator
            },
            HashRequest::Tarball { url } => url.clone(),
        }
    }

    /// Builds the package from the outcome of the prefetch: `Ok` with what
    /// the prefetcher reported for [`HashRequest::locator`], `Err` with its
    /// message where it failed.
    pub fn complete(self, outcome: Result<PrefetchResult, String>) -> (package: Result<
        Package,
        Error,
    >)
        ensures
            result_view(package) == completed(self@, result_view(outcome)),
    {
        let prefetched = match outcome {
            Ok(prefetched) => prefetched,
            Err(message) => return Err(Error::Prefetch(message)),
        };
        match self {
            HashRequest::GitHub { path, rev } => {
                let (owner_with_prefix, repo) = match split_once_owned(path, '/') {
                    Some(parts) => parts,
                    None => return Err(Error::ImproperGithubUrl),
                };
                let owner = drop_prefix(owner_with_prefix, "github:");
                let mut name = "github:".to_owned();
                name.append(owner.as_str());
                name.append("-");
                name.append(repo.as_str());
                name.append("-");
                name.append(rev.as_str());
                Ok(Package::new(name, Fetcher::FetchGitHub { owner, repo, rev, hash: prefetched.hash }))
            },
            HashRequest::Git { url, rev } => {
                let mut name = "git:".to_owned();
                name.append(rev.as_str());
                Ok(Package::new(name, Fetcher::FetchGit { url, rev, hash: prefetched.hash }))
            },
            HashRequest::Tarball { url } => {
                let mut name = "tarball:".to_owned();
                name.append(url.as_str());
                Ok(Package::new(name, Fetcher::FetchTarball { url, hash: prefetched.hash }))
            },
        }
    }
}

impl Decoded {
    /// The package, with its hash prefetched where it lacks one.
    ///
    /// `prefetch` is called only for a package that needs a hash, once, with
    /// [`HashRequest::locator`]; what it returns goes to
    /// [`HashRequest::complete`].
    pub fn resolve<F: FnOnce(&str) -> Result<PrefetchResult, String>>(self, prefetch: F) -> (package:
        Result<Package, Error>)
        requires
            self@ matches DecodedView::NeedsHash(request) ==> forall|locator: &str|
                locator@ == locator_of(request) ==> call_requires(prefetch, (locator,)),
        ensures
            match self@ {
                DecodedView::Ready(ready) => result_view(package) == Ok::<PackageView, ErrorView>(
                    ready,
                ),
                DecodedView::NeedsHash(request) => exists|
                    locator: &str,
                    outcome: Result<PrefetchResult, String>,
                |
                    locator@ == locator_of(request) && call_ensures(prefetch, (locator,), outcome)
                        && result_view(package) == completed(request, result_view(outcome)),
            },
    {
        match self {
            Decoded::Ready(package) => Ok(package),
            Decoded::NeedsHash(request) => {
                let locator = request.locator();
                let outcome = prefetch(locator.as_str());
                request.complete(outcome)
            },
        }
    }
}

/// A completed package carries the hash that the prefetch reported, in the
/// fetcher that its request asked for. After a prefetch that succeeded only
/// a GitHub location without `/` can still fail.
pub proof fn lemma_completed_carries_hash(request: HashRequestView, prefetched: PrefetchResultView)
    ensures
        match completed(request, Ok(prefetched)) {
            Ok(package) => match request {
                HashRequestView::GitHub { path, rev } => package.fetcher is FetchGitHub
                    && package.fetcher->FetchGitHub_hash == prefetched.hash
                    && package.fetcher->FetchGitHub_rev == rev,
                HashRequestView::Git { url, rev } => package.fetcher == (FetcherView::FetchGit {
                    url,
                    rev,
                    hash: prefetched.hash,
                }),
                HashRequestView::Tarball { url } => package.fetcher == (FetcherView::FetchTarball {
                    url,
                    hash: prefetched.hash,
                }),
            },
            Err(error) => error == ErrorView::ImproperGithubUrl && request is GitHub,
        },
{
}

/// The package of a workspace entry: the path after the last `workspace:` in
/// `id`, to be copied to the store under the entry's own name.
pub open spec fn workspace_package(name: Seq<char>, id: Seq<char>) -> Result<
    PackageView,
    ErrorView,
> {
    match after_last(id, "workspace:"@) {
        Some(path) => Ok(PackageView { name, fetcher: FetcherView::CopyToStore { path } }),
        None => Err(ErrorView::MissingWorkspaceSpecifier),
    }
}

/// The package of a local file: the path after the last `file:` in
/// `location`, to be copied to the store under the entry's own name.
pub open spec fn file_package(name: Seq<char>, location: Seq<char>) -> Result<
    PackageView,
    ErrorView,
> {
    match after_last(location, "file:"@) {
        Some(path) => Ok(PackageView { name, fetcher: FetcherView::CopyToStore { path } }),
        None => Err(ErrorView::MissingFileSpecifier),
    }
}

/// What an entry of two values decodes to. The location is what follows the
/// last `@` of `id`: one that starts with `http` is a tarball to prefetch,
/// any other a local file.
pub open spec fn tarball_or_file_package(name: Seq<char>, id: Seq<char>) -> Result<
    DecodedView,
    ErrorView,
> {
    match after_last(id, "@"@) {
        Some(location) => if "http"@.is_prefix_of(location) {
            Ok(DecodedView::NeedsHash(HashRequestView::Tarball { url: location }))
        } else {
            match file_package(name, location) {
                Ok(package) => Ok(DecodedView::Ready(package)),
                Err(error) => Err(error),
            }
        },
        None => Err(ErrorView::NoAtInPackageIdentifier),
    }
}

/// The location of a local file never holds `http`: one that starts with it
/// is a tarball, and no other may hold it at all.
pub open spec fn file_location_fits(id: Seq<char>) -> bool {
    match after_last(id, "@"@) {
        Some(location) => "http"@.is_prefix_of(location) || !occurs_in(location, "http"@),
        None => true,
    }
}

/// The request for a GitHub package: location and revision are the two
/// sides of the first `#` in `source`.
pub open spec fn github_request(source: Seq<char>) -> Result<HashRequestView, ErrorView> {
    match cut_at_first(source, '#') {
        Some((path, rev)) => Ok(HashRequestView::GitHub { path, rev }),
        None => Err(ErrorView::MissingGitRef),
    }
}

/// The request for a git package: URL and revision are the two sides of the
/// first `#` in `source`, once a leading `git+` is dropped.
pub open spec fn git_request(source: Seq<char>) -> Result<HashRequestView, ErrorView> {
    match cut_at_first(without_prefix(source, "git+"@), '#') {
        Some((url, rev)) => Ok(HashRequestView::Git { url, rev }),
        None => Err(ErrorView::MissingGitRef),
    }
}

/// What an entry of three values decodes to. The source is what follows the
/// last `@` of `id`: one that starts with `github:` names a GitHub
/// repository, any other a git repository.
pub open spec fn git_or_github_request(id: Seq<char>) -> Result<HashRequestView, ErrorView> {
    match after_last(id, "@"@) {
        Some(source) => if "github:"@.is_prefix_of(source) {
            github_request(source)
        } else {
            git_request(source)
        },
        None => Err(ErrorView::NoAtInPackageIdentifier),
    }
}

/// The package of an npm entry. It goes by its identifier, and its hash is
/// the one in the lockfile.
pub open spec fn npm_package(
    id: Seq<char>,
    hash: Seq<char>,
    tarball_url: Option<Seq<char>>,
) -> Result<PackageView, ErrorView> {
    match npm_fetcher(id, hash, tarball_url) {
        Ok(fetcher) => Ok(PackageView { name: id, fetcher }),
        Err(error) => Err(error),
    }
}

/// The tarball URL that the npm decoder reads: the second value of an entry
/// of four or more, where that is a string.
pub open spec fn npm_tarball_url(values: Seq<Value>) -> Option<Seq<char>> {
    if values.len() >= 4 {
        json_str(values[1])
    } else {
        None
    }
}

/// What the entry `name`, `values` decodes to: the number of values picks
/// the decoder, and any number but one to four is an error that carries it.
pub open spec fn decoded_entry(name: Seq<char>, values: Seq<Value>) -> Result<
    DecodedView,
    ErrorView,
> {
    if values.len() == 1 {
        match workspace_package(name, taken_text(values[0])) {
            Ok(package) => Ok(DecodedView::Ready(package)),
            Err(error) => Err(error),
        }
    } else if values.len() == 2 {
        tarball_or_file_package(name, taken_text(values[0]))
    } else if values.len() == 3 {
        match git_or_github_request(taken_text(values[0])) {
            Ok(request) => Ok(DecodedView::NeedsHash(request)),
            Err(error) => Err(error),
        }
    } else if values.len() == 4 {
        match npm_package(taken_text(values[0]), taken_text(values[3]), json_str(values[1])) {
            Ok(package) => Ok(DecodedView::Ready(package)),
            Err(error) => Err(error),
        }
    } else {
        Err(ErrorView::UnexpectedPackageEntryLength(values.len() as usize))
    }
}

/// What the decoders take for granted of an entry of one to four values: the
/// identifier is a string; a local file's location holds no `http`; an npm
/// entry's hash is a string with `sha512-` in it. A lockfile that bun wrote
/// meets all of this.
pub open spec fn well_formed_entry(values: Seq<Value>) -> bool {
    &&& 1 <= values.len() <= 4 ==> is_takeable(values[0])
    &&& values.len() == 2 ==> file_location_fits(taken_text(values[0]))
    &&& values.len() == 4 ==> is_takeable(values[3]) && occurs_in(
        taken_text(values[3]),
        "sha512-"@,
    )
}

/// One lockfile entry on its way to a package.
#[derive(Debug)]
pub struct PackageDeserializer {
    /// The name of the entry.
    pub name: String,
    /// The values of the entry.
    pub values: Vec<Value>,
}

impl PackageDeserializer {
    /// Decodes the entry `name`, `values`.
    ///
    /// The number of values alone decides how: one is a workspace package,
    /// two a tarball or a local file, three a git or GitHub repository, four
    /// an npm package. Any other number fails with
    /// `UnexpectedPackageEntryLength` and the number.
    pub fn deserialize_package(name: String, values: Vec<Value>) -> (decoded: Result<
        Decoded,
        Error,
    >)
        requires
            well_formed_entry(values@),
        ensures
            result_view(decoded) == decoded_entry(name@, values@),
            !(1 <= values.len() <= 4) ==> result_view(decoded) == Err::<DecodedView, ErrorView>(
                ErrorView::UnexpectedPackageEntryLength(values.len()),
            ),
    {
        let arity = values.len();
        let deserializer = PackageDeserializer { name, values };
        match arity {
            1 => match deserializer.deserialize_workspace_package() {
                Ok(package) => Ok(Decoded::Ready(package)),
                Err(error) => Err(error),
            },
            2 => deserializer.deserialize_tarball_or_file_package(),
            3 => match deserializer.deserialize_git_or_github_package() {
                Ok(request) => Ok(Decoded::NeedsHash(request)),
                Err(error) => Err(error),
            },
            4 => match deserializer.deserialize_npm_package() {
                Ok(package) => Ok(Decoded::Ready(package)),
                Err(error) => Err(error),
            },
            x => Err(Error::UnexpectedPackageEntryLength(x)),
        }
    }

    /// Decodes the entry `name`, `values` where it is well formed, and
    /// returns `None` where it is not.
    pub fn try_deserialize_package(name: String, values: Vec<Value>) -> (decoded: Option<
        Result<Decoded, Error>,
    >)
        ensures
            decoded is Some <==> well_formed_entry(values@),
            decoded matches Some(result) ==> result_view(result) == decoded_entry(name@, values@),
    {
        if is_well_formed(&values) {
            Some(PackageDeserializer::deserialize_package(name, values))
        } else {
            None
        }
    }

    /// Decodes an npm package, whose entry is
    /// `[identifier, tarball_url, metadata, hash]`.
    ///
    /// Identifier and hash are taken out of the list, first and last. The
    /// tarball URL is the second value, read where the list has four values
    /// or more and the value is a string; it is empty for the default
    /// registry. The package goes by its identifier.
    pub fn deserialize_npm_package(self) -> (package: Result<Package, Error>)
        requires
            self.values.len() >= 2,
            is_takeable(self.values@[0]),
            is_takeable(self.values@.last()),
            occurs_in(taken_text(self.values@.last()), "sha512-"@),
        ensures
            result_view(package) == npm_package(
                taken_text(self.values@[0]),
                taken_text(self.values@.last()),
                npm_tarball_url(self.values@),
            ),
    {
        let mut values = self.values;
        let id = swap_remove_value(&mut values, 0);
        let hash = swap_remove_value(&mut values, 0);
        let tarball_url = if values.len() > 1 {
            values[1].as_str()
        } else {
            None
        };
        match Fetcher::new_npm_package(id.as_str(), hash, tarball_url) {
            Ok(fetcher) => Ok(Package::new(id, fetcher)),
            Err(error) => Err(error),
        }
    }

    /// Decodes a git or GitHub package, whose identifier ends in
    /// `@git+<url>#<rev>` or `@github:<owner>/<repo>#<rev>`.
    pub fn deserialize_git_or_github_package(self) -> (request: Result<HashRequest, Error>)
        requires
            self.values.len() >= 1,
            is_takeable(self.values@[0]),
        ensures
            result_view(request) == git_or_github_request(taken_text(self.values@[0])),
    {
        let mut values = self.values;
        let id = swap_remove_value(&mut values, 0);
        let source = match PackageDeserializer::drain_after_substring(id, "@") {
            Some(source) => source,
            None => return Err(Error::NoAtInPackageIdentifier),
        };
        if str_starts_with(source.as_str(), "github:") {
            PackageDeserializer::deserialize_github_package(source)
        } else {
            PackageDeserializer::deserialize_git_package(source)
        }
    }

    /// Decodes a GitHub package from `github:<owner>/<repo>#<rev>`; without
    /// a `#` the result is `MissingGitRef`.
    pub fn deserialize_github_package(id: String) -> (request: Result<HashRequest, Error>)
        ensures
            result_view(request) == github_request(id@),
    {
        match split_once_owned(id, '#') {
            Some((path, rev)) => Ok(HashRequest::GitHub { path, rev }),
            None => Err(Error::MissingGitRef),
        }
    }

    /// Decodes a git package from `git+<url>#<rev>`; without a `#` the
    /// result is `MissingGitRef`.
    pub fn deserialize_git_package(id: String) -> (request: Result<HashRequest, Error>)
        ensures
            result_view(request) == git_request(id@),
    {
        let git_url = drop_prefix(id, "git+");
        match split_once_owned(git_url, '#') {
            Some((url, rev)) => Ok(HashRequest::Git { url, rev }),
            None => Err(Error::MissingGitRef),
        }
    }

    /// Decodes a tarball or a local file, whose identifier ends in
    /// `@<http url>` or `@file:<path>`.
    pub fn deserialize_tarball_or_file_package(self) -> (decoded: Result<Decoded, Error>)
        requires
            self.values.len() >= 1,
            is_takeable(self.values@[0]),
            file_location_fits(taken_text(self.values@[0])),
        ensures
            result_view(decoded) == tarball_or_file_package(
                self.name@,
                taken_text(self.values@[0]),
            ),
    {
        let mut values = self.values;
        let id = swap_remove_value(&mut values, 0);
        let location = match PackageDeserializer::drain_after_substring(id, "@") {
            Some(location) => location,
            None => return Err(Error::NoAtInPackageIdentifier),
        };
        if str_starts_with(location.as_str(), "http") {
            assert(occurs_at(location@, "http"@, 0));
            match PackageDeserializer::deserialize_tarball_package(location) {
                Ok(request) => Ok(Decoded::NeedsHash(request)),
                Err(error) => Err(error),
            }
        } else {
            match PackageDeserializer::deserialize_file_package(self.name, location) {
                Ok(package) => Ok(Decoded::Ready(package)),
                Err(error) => Err(error),
            }
        }
    }

    /// Decodes a local file from its location, which holds `file:<path>`;
    /// without `file:` the result is `MissingFileSpecifier`.
    pub fn deserialize_file_package(name: String, path: String) -> (package: Result<
        Package,
        Error,
    >)
        requires
            !occurs_in(path@, "http"@),
        ensures
            result_view(package) == file_package(name@, path@),
    {
        match PackageDeserializer::drain_after_substring(path, "file:") {
            Some(path) => Ok(Package::new(name, Fetcher::CopyToStore { path })),
            None => Err(Error::MissingFileSpecifier),
        }
    }

    /// Decodes a tarball from its URL. This never fails: what can go wrong
    /// with a tarball goes wrong in the prefetch.
    pub fn deserialize_tarball_package(url: String) -> (request: Result<HashRequest, Error>)
        requires
            occurs_in(url@, "http"@),
        ensures
            result_view(request) == Ok::<HashRequestView, ErrorView>(
                HashRequestView::Tarball { url: url@ },
            ),
    {
        Ok(HashRequest::Tarball { url })
    }

    /// Decodes a workspace package, whose identifier holds
    /// `workspace:<path>`; without `workspace:` the result is
    /// `MissingWorkspaceSpecifier`.
    pub fn deserialize_workspace_package(self) -> (package: Result<Package, Error>)
        requires
            self.values.len() >= 1,
            is_takeable(self.values@[0]),
        ensures
            result_view(package) == workspace_package(self.name@, taken_text(self.values@[0])),
    {
        let mut values = self.values;
        let id = swap_remove_value(&mut values, 0);
        match PackageDeserializer::drain_after_substring(id, "workspace:") {
            Some(path) => Ok(Package::new(self.name, Fetcher::CopyToStore { path })),
            None => Err(Error::MissingWorkspaceSpecifier),
        }
    }

    /// What follows the last `sub` in `input`; `None` where `input` holds
    /// no `sub`.
    pub fn drain_after_substring(input: String, sub: &str) -> (rest: Option<String>)
        ensures
            rest.deep_view() == after_last(input@, sub@),
    {
        match rsplit_after(input.as_str(), sub) {
            Some(rest) => Some(rest.to_owned()),
            None => None,
        }
    }
}

/// Whether the location in `id` is one that the decoder of two values
/// accepts.
fn location_fits(id: &str) -> (b: bool)
    ensures
        b == file_location_fits(id@),
{
    match rsplit_after(id, "@") {
        Some(location) => str_starts_with(location, "http") || !str_contains(location, "http"),
        None => true,
    }
}

/// Whether `values` is an entry that the decoders accept.
pub fn is_well_formed(values: &Vec<Value>) -> (b: bool)
    ensures
        b == well_formed_entry(values@),
{
    let arity = values.len();
    if arity < 1 || arity > 4 {
        return true;
    }
    let id = match peek_field(&values[0]) {
        Some(id) => id,
        None => return false,
    };
    if arity == 2 {
        location_fits(id.as_str())
    } else if arity == 4 {
        match peek_field(&values[3]) {
            Some(hash) => str_contains(hash.as_str(), "sha512-"),
            None => false,
        }
    } else {
        true
    }
}

/// Where each kind of entry gets its hash. An entry of one value, and a
/// local file among those of two, is copied to the store under the entry's
/// name and has no hash. An npm entry carries its hash in the lockfile and
/// needs no prefetch. A tarball and every entry of three values wait for
/// one.
pub proof fn lemma_hash_source_by_arity(name: Seq<char>, values: Seq<Value>)
    ensures
        match decoded_entry(name, values) {
            Ok(DecodedView::Ready(package)) => {
                &&& values.len() == 1 || values.len() == 2 ==> package.name == name
                    && package.fetcher is CopyToStore
                &&& values.len() == 4 ==> package.name == taken_text(values[0])
                    && package.fetcher is FetchUrl && package.fetcher->FetchUrl_hash == taken_text(
                    values[3],
                )
                &&& values.len() != 3
            },
            Ok(DecodedView::NeedsHash(request)) => {
                &&& values.len() == 2 ==> request is Tarball
                &&& values.len() == 3 ==> request is Git || request is GitHub
                &&& values.len() == 2 || values.len() == 3
            },
            Err(error) => 1 <= values.len() <= 4 || error == ErrorView::UnexpectedPackageEntryLength(
                values.len() as usize,
            ),
        },
{
}

} // verus!
