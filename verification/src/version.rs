//! Release channels, the version document, and the source archive URL.

use vstd::prelude::*;

verus! {

/// Where the version document is published. It is fetched anew for every
/// request and never kept.
pub const VERSIONS_URL: &'static str = "https://product-details.mozilla.org/1.0/firefox_versions.json";

/// A release channel of Firefox.
#[derive(Clone, Copy, Debug, PartialEq, Eq, Structural)]
pub enum FirefoxTargets {
    Stable,
    Beta,
    Nightly,
    DevEdition,
    ESRNext,
}

impl FirefoxTargets {
    /// The name under which a request asks for this channel.
    pub open spec fn key(self) -> Seq<char> {
        match self {
            FirefoxTargets::Stable => "stable"@,
            FirefoxTargets::Beta => "beta"@,
            FirefoxTargets::Nightly => "nightly"@,
            FirefoxTargets::DevEdition => "dev"@,
            FirefoxTargets::ESRNext => "esr"@,
        }
    }
}

/// The channel that `name` asks for. Names are matched letter for letter, in
/// lower case as written here, and no other text names a channel.
pub open spec fn channel_named(name: Seq<char>) -> Option<FirefoxTargets> {
    if name == FirefoxTargets::Stable.key() {
        Some(FirefoxTargets::Stable)
    } else if name == FirefoxTargets::Beta.key() {
        Some(FirefoxTargets::Beta)
    } else if name == FirefoxTargets::Nightly.key() {
        Some(FirefoxTargets::Nightly)
    } else if name == FirefoxTargets::DevEdition.key() {
        Some(FirefoxTargets::DevEdition)
    } else if name == FirefoxTargets::ESRNext.key() {
        Some(FirefoxTargets::ESRNext)
    } else {
        None
    }
}

/// What a client is told when `name` asks for no channel: the name it sent,
/// and the five it could have sent.
pub open spec fn invalid_target_message(name: Seq<char>) -> Seq<char> {
    "Invalid target '"@ + name + "'. Try 'stable', 'beta', 'nightly', 'dev', or 'esr'."@
}

/// Whether two texts hold the same characters.
fn same_text(left: &str, right: &str) -> (same: bool)
    ensures
        same == (left@ == right@),
{
    let len: usize = left.unicode_len();
    if right.unicode_len() != len {
        return false;
    }
    let mut at: usize = 0;
    while at < len
        invariant
            at <= len,
            len == left@.len(),
            len == right@.len(),
            left@.subrange(0, at as int) == right@.subrange(0, at as int),
        decreases len - at,
    {
        if left.get_char(at) != right.get_char(at) {
            assert(left@[at as int] != right@[at as int]);
            return false;
        }
        assert(left@.subrange(0, at + 1) == left@.subrange(0, at as int).push(left@[at as int]));
        assert(right@.subrange(0, at + 1) == right@.subrange(0, at as int).push(
            right@[at as int],
        ));
        at = at + 1;
    }
    assert(left@ == left@.subrange(0, len as int));
    assert(right@ == right@.subrange(0, len as int));
    true
}

impl TryFrom<&String> for FirefoxTargets {
    type Error = String;

    /// Reads a channel's name. Any other text is refused, with the message
    /// that the client is to see.
    fn try_from(value: &String) -> (parsed: Result<FirefoxTargets, String>)
        ensures
            match channel_named(value@) {
                Some(channel) => parsed == Ok::<FirefoxTargets, String>(channel),
                None => parsed matches Err(message) && message@ == invalid_target_message(value@),
            },
    {
        let name = value.as_str();
        if same_text(name, "stable") {
            Ok(FirefoxTargets::Stable)
        } else if same_text(name, "beta") {
            Ok(FirefoxTargets::Beta)
        } else if same_text(name, "nightly") {
            Ok(FirefoxTargets::Nightly)
        } else if same_text(name, "dev") {
            Ok(FirefoxTargets::DevEdition)
        } else if same_text(name, "esr") {
            Ok(FirefoxTargets::ESRNext)
        } else {
            let message = String::from_str("Invalid target '");
            let message = message.concat(name);
            Err(message.concat("'. Try 'stable', 'beta', 'nightly', 'dev', or 'esr'."))
        }
    }
}

/// The error of the conversion is a string on the heap, of which a contract
/// can fix the text only: `try_from` states its result in its own `ensures`.
impl vstd::std_specs::convert::TryFromSpecImpl<&String> for FirefoxTargets {
    open spec fn obeys_try_from_spec() -> bool {
        false
    }

    open spec fn try_from_spec(value: &String) -> Result<FirefoxTargets, String> {
        match channel_named(value@) {
            Some(channel) => Ok(channel),
            None => Err(arbitrary()),
        }
    }
}

/// The version document: the text that upstream publishes for each channel,
/// and a few fields that nothing here reads.
#[allow(non_snake_case)]
#[derive(Clone, Debug)]
pub struct FirefoxVersionAPI {
    pub FIREFOX_AURORA: String,
    pub FIREFOX_DEVEDITION: String,
    pub FIREFOX_ESR: String,
    pub FIREFOX_ESR_NEXT: String,
    pub FIREFOX_NIGHTLY: String,
    pub LAST_MERGE_DATE: String,
    pub LAST_RELEASE_DATE: String,
    pub LATEST_FIREFOX_VERSION: String,
    pub LATEST_FIREFOX_DEVEL_VERSION: String,
}

/// A version document as contracts see it: the characters of each field.
pub struct VersionDocument {
    pub firefox_aurora: Seq<char>,
    pub firefox_devedition: Seq<char>,
    pub firefox_esr: Seq<char>,
    pub firefox_esr_next: Seq<char>,
    pub firefox_nightly: Seq<char>,
    pub last_merge_date: Seq<char>,
    pub last_release_date: Seq<char>,
    pub latest_firefox_version: Seq<char>,
    pub latest_firefox_devel_version: Seq<char>,
}

impl VersionDocument {
    /// The version that the document gives for `target`.
    pub open spec fn version(self, target: FirefoxTargets) -> Seq<char> {
        match target {
            FirefoxTargets::Stable => self.latest_firefox_version,
            FirefoxTargets::Beta => self.latest_firefox_devel_version,
            FirefoxTargets::Nightly => self.firefox_nightly,
            FirefoxTargets::DevEdition => self.firefox_devedition,
            FirefoxTargets::ESRNext => self.firefox_esr_next,
        }
    }
}

impl View for FirefoxVersionAPI {
    type V = VersionDocument;

    open spec fn view(&self) -> VersionDocument {
        VersionDocument {
            firefox_aurora: self.FIREFOX_AURORA@,
            firefox_devedition: self.FIREFOX_DEVEDITION@,
            firefox_esr: self.FIREFOX_ESR@,
            firefox_esr_next: self.FIREFOX_ESR_NEXT@,
            firefox_nightly: self.FIREFOX_NIGHTLY@,
            last_merge_date: self.LAST_MERGE_DATE@,
            last_release_date: self.LAST_RELEASE_DATE@,
            latest_firefox_version: self.LATEST_FIREFOX_VERSION@,
            latest_firefox_devel_version: self.LATEST_FIREFOX_DEVEL_VERSION@,
        }
    }
}

impl FirefoxVersionAPI {
    /// Looks up the version of `target`. Every channel has a field, so there
    /// is always an answer, and it depends on the document and the channel
    /// alone.
    pub fn get_version<'a>(&'a self, target: &FirefoxTargets) -> (version: &'a str)
        ensures
            version@ == self@.version(*target),
    {
        match target {
            FirefoxTargets::Stable => self.LATEST_FIREFOX_VERSION.as_str(),
            FirefoxTargets::Beta => self.LATEST_FIREFOX_DEVEL_VERSION.as_str(),
            FirefoxTargets::Nightly => self.FIREFOX_NIGHTLY.as_str(),
            FirefoxTargets::DevEdition => self.FIREFOX_DEVEDITION.as_str(),
            FirefoxTargets::ESRNext => self.FIREFOX_ESR_NEXT.as_str(),
        }
    }
}

/// Why no version could be given.
#[derive(Clone, Debug, PartialEq, Eq)]
pub enum VersionError {
    /// The request named no channel. Holds the message for the client.
    InvalidChannel(String),
    /// The version document could not be fetched, or was not of the expected
    /// shape. Holds the text of the underlying error.
    Upstream(String),
}

/// A `VersionError` as contracts see it.
pub enum Failure {
    InvalidChannel(Seq<char>),
    Upstream(Seq<char>),
}

impl Failure {
    /// The text that describes the failure.
    pub open spec fn message(self) -> Seq<char> {
        match self {
            Failure::InvalidChannel(message) => message,
            Failure::Upstream(text) => text,
        }
    }
}

impl View for VersionError {
    type V = Failure;

    open spec fn view(&self) -> Failure {
        match self {
            VersionError::InvalidChannel(message) => Failure::InvalidChannel(message@),
            VersionError::Upstream(text) => Failure::Upstream(text@),
        }
    }
}

impl VersionError {
    /// The text that describes the error.
    pub fn message(&self) -> (message: String)
        ensures
            message@ == self@.message(),
    {
        match self {
            VersionError::InvalidChannel(message) => message.clone(),
            VersionError::Upstream(text) => text.clone(),
        }
    }
}

/// How fetching the version document ended, as contracts see it: the
/// document, or the text of the error.
pub open spec fn fetched_view(fetched: Result<FirefoxVersionAPI, String>) -> Result<
    VersionDocument,
    Seq<char>,
> {
    match fetched {
        Ok(document) => Ok(document@),
        Err(text) => Err(text@),
    }
}

/// How looking up a version ended, as contracts see it.
pub open spec fn resolved_view(resolved: Result<String, VersionError>) -> Result<
    Seq<char>,
    Failure,
> {
    match resolved {
        Ok(version) => Ok(version@),
        Err(error) => Err(error@),
    }
}

/// The version of `channel`, given how the fetch ended: the document's entry
/// for the channel, or the fetch's error as an upstream failure.
pub open spec fn version_from(
    channel: FirefoxTargets,
    fetched: Result<VersionDocument, Seq<char>>,
) -> Result<Seq<char>, Failure> {
    match fetched {
        Ok(document) => Ok(document.version(channel)),
        Err(text) => Err(Failure::Upstream(text)),
    }
}

/// The version that a request for `name` is answered with, given how the
/// fetch ended. The name is read first: where it names no channel that is the
/// error, whatever the fetch gave.
pub open spec fn version_from_target(
    name: Seq<char>,
    fetched: Result<VersionDocument, Seq<char>>,
) -> Result<Seq<char>, Failure> {
    match channel_named(name) {
        Some(channel) => version_from(channel, fetched),
        None => Err(Failure::InvalidChannel(invalid_target_message(name))),
    }
}

impl FirefoxTargets {
    /// Gives this channel's version once the version document has been
    /// fetched from `VERSIONS_URL`. `fetched` is what the fetch gave: the
    /// document, or the text of the error that the request or the decoding of
    /// its body ended with.
    pub fn get_version(&self, fetched: Result<FirefoxVersionAPI, String>) -> (resolved: Result<
        String,
        VersionError,
    >)
        ensures
            resolved_view(resolved) == version_from(*self, fetched_view(fetched)),
    {
        match fetched {
            Ok(document) => Ok(document.get_version(self).to_owned()),
            Err(text) => Err(VersionError::Upstream(text)),
        }
    }
}

/// Answers a request for the version of the channel that `target` names,
/// given what fetching the version document gave. The fetch is looked at only
/// where `target` names a channel.
pub fn get_version_from_target(
    target: &String,
    fetched: Result<FirefoxVersionAPI, String>,
) -> (resolved: Result<String, VersionError>)
    ensures
        resolved_view(resolved) == version_from_target(target@, fetched_view(fetched)),
{
    match FirefoxTargets::try_from(target) {
        Ok(channel) => channel.get_version(fetched),
        Err(message) => Err(VersionError::InvalidChannel(message)),
    }
}

/// What stands before the version in a source archive URL.
pub open spec fn source_url_head() -> Seq<char> {
    "https://archive.mozilla.org/pub/firefox/releases/"@
}

/// What stands between the two occurrences of the version.
pub open spec fn source_url_middle() -> Seq<char> {
    "/source/firefox-"@
}

/// What stands behind the version in the file name.
pub open spec fn source_url_tail() -> Seq<char> {
    ".source.tar.xz"@
}

/// The source archive URL of a release: the version names both the directory
/// and the file.
pub open spec fn source_url(version: Seq<char>) -> Seq<char> {
    source_url_head() + version + source_url_middle() + version + source_url_tail()
}

/// Builds the URL of the source archive of `version`. Nothing is asked of the
/// version: any text gives a URL.
pub fn get_source_url(version: String) -> (url: String)
    ensures
        url@ == source_url(version@),
{
    let url = String::from_str("https://archive.mozilla.org/pub/firefox/releases/");
    let url = url.concat(version.as_str());
    let url = url.concat("/source/firefox-");
    let url = url.concat(version.as_str());
    url.concat(".source.tar.xz")
}

/// A name asks for a channel exactly when it is that channel's key: each of
/// the five keys names its own channel, and no other text names any.
pub proof fn lemma_channel_named_iff_key(name: Seq<char>, channel: FirefoxTargets)
    ensures
        channel_named(name) == Some(channel) <==> name == channel.key(),
{
    reveal_strlit("stable");
    reveal_strlit("beta");
    reveal_strlit("nightly");
    reveal_strlit("dev");
    reveal_strlit("esr");
    assert("stable"@.len() == 6);
    assert("beta"@.len() == 4);
    assert("nightly"@.len() == 7);
    assert("dev"@.len() == 3);
    assert("esr"@.len() == 3);
    assert("dev"@[0] != "esr"@[0]);
}

/// A text names no channel exactly when it is the key of none.
pub proof fn lemma_unnamed_iff_no_key(name: Seq<char>)
    ensures
        channel_named(name) is None <==> forall|channel: FirefoxTargets|
            name != #[trigger] channel.key(),
{
    assert forall|channel: FirefoxTargets| channel_named(name) is None implies name
        != #[trigger] channel.key() by {
        lemma_channel_named_iff_key(name, channel);
    }
}

/// A name that asks for no channel is answered without the version document:
/// whatever the fetch gave, or would have given, the answer is the same.
pub proof fn lemma_invalid_target_needs_no_fetch(
    name: Seq<char>,
    fetched: Result<VersionDocument, Seq<char>>,
    other: Result<VersionDocument, Seq<char>>,
)
    requires
        channel_named(name) is None,
    ensures
        version_from_target(name, fetched) == version_from_target(name, other),
        version_from_target(name, fetched) == Err::<Seq<char>, Failure>(
            Failure::InvalidChannel(invalid_target_message(name)),
        ),
{
}

/// A source archive URL holds the version twice, unchanged: once as the
/// directory, between the head and the middle, and once in the file name,
/// between the middle and the tail. This holds of every version, whatever
/// characters it is made of.
pub proof fn lemma_source_url_embeds_version(version: Seq<char>)
    ensures
        ({
            let url = source_url(version);
            let directory = source_url_head().len() as int;
            let file = directory + version.len() + source_url_middle().len();
            &&& url.len() == source_url_head().len() + source_url_middle().len()
                + source_url_tail().len() + 2 * version.len()
            &&& url.subrange(0, directory) == source_url_head()
            &&& url.subrange(directory, directory + version.len()) == version
            &&& url.subrange(directory + version.len(), file) == source_url_middle()
            &&& url.subrange(file, file + version.len()) == version
            &&& url.subrange(file + version.len(), url.len() as int) == source_url_tail()
        }),
{
}

/// The version can be read back from a source archive URL: two versions with
/// the same URL are the same version.
pub proof fn lemma_source_url_names_one_version(version: Seq<char>, other: Seq<char>)
    requires
        source_url(version) == source_url(other),
    ensures
        version == other,
{
    lemma_source_url_embeds_version(version);
    lemma_source_url_embeds_version(other);
}

} // verus!
