//! Photo references and the photo source.
//!
//! A [`FilePhotoLoader`] yields the images of one directory without end: a pass
//! walks one listing of the directory, and a fresh listing is taken whenever the
//! pass is used up. The loader never touches the file system itself. It tells
//! its host what to read next ([`SourceStep`]) and takes the answers back, so
//! every decision it makes is a function of its state and of those answers.

use url::Url;
use vstd::prelude::*;
use vstd::string::StringExecFns;

verus! {

/// The text of the `file` URL that names the file system path `path`, or `None`
/// where the path has no such URL.
pub uninterp spec fn file_url_of_path(path: Seq<char>) -> Option<Seq<char>>;

/// The file system path that the URL text `url` names, or `None` where the text
/// is no URL or the URL names no local path that is valid Unicode.
pub uninterp spec fn file_path_of_url(url: Seq<char>) -> Option<Seq<char>>;

/// The characters of an optional string.
pub open spec fn text_of(text: Option<String>) -> Option<Seq<char>> {
    match text {
        Some(t) => Some(t@),
        None => None,
    }
}

/// Calls `url::Url::from_file_path` and hands back the URL's serialization.
///
/// Trusted: the result is the named function `file_url_of_path` of the path's
/// text. The outside function fails exactly where a path is not absolute; the
/// contract claims nothing of that beyond the name.
#[verifier::external_body]
fn url_from_file_path(path: &str) -> (url: Option<String>)
    ensures
        text_of(url) == file_url_of_path(path@),
{
    Url::from_file_path(path).ok().map(String::from)
}

/// Calls `url::Url::to_file_path` on the URL that `url` spells, after reading
/// the text back with `url::Url::parse`.
///
/// Trusted: the result is the named function `file_path_of_url` of the text.
/// A text that does not parse, a URL without a local path and a path that is
/// not valid Unicode all give `None`.
#[verifier::external_body]
fn url_to_file_path(url: &str) -> (path: Option<String>)
    ensures
        text_of(path) == file_path_of_url(url@),
{
    let parsed = Url::parse(url).ok()?;
    parsed.to_file_path().ok()?.into_os_string().into_string().ok()
}

/// A canonical, absolute locator of one image: the text of a `file` URL.
#[derive(Debug, PartialEq, Eq, Hash)]
pub struct PhotoReference {
    url: String,
}

impl View for PhotoReference {
    type V = Seq<char>;

    closed spec fn view(&self) -> Seq<char> {
        self.url@
    }
}

impl Clone for PhotoReference {
    fn clone(&self) -> (copy: Self)
        ensures
            copy@ == self@,
    {
        PhotoReference { url: self.url.clone() }
    }
}

impl PhotoReference {
    /// The reference to the file at the absolute path `path`.
    pub fn from_file_path(path: &str) -> (reference: Option<PhotoReference>)
        ensures
            match reference {
                Some(r) => file_url_of_path(path@) == Some(r@),
                None => file_url_of_path(path@) is None,
            },
    {
        match url_from_file_path(path) {
            Some(url) => Some(PhotoReference { url }),
            None => None,
        }
    }

    /// The URL text of the reference.
    pub fn as_str(&self) -> (text: &str)
        ensures
            text@ == self@,
    {
        self.url.as_str()
    }

    /// The local path of the image, where the reference has one.
    pub fn to_file_path(&self) -> (path: Option<String>)
        ensures
            text_of(path) == file_path_of_url(self@),
    {
        url_to_file_path(self.url.as_str())
    }
}

/// Why a photo source could not yield a reference.
#[derive(Debug)]
pub enum SourceError {
    /// The base directory could not be listed.
    DirectoryUnreadable { cause: String },
    /// The listing of the base directory held no entry.
    NoPhotosFound { directory: String },
    /// One entry could not be turned into a reference.
    ResolutionFailed { cause: String },
}

/// A [`SourceError`] with its texts as sequences of characters.
pub enum SourceErrorView {
    DirectoryUnreadable { cause: Seq<char> },
    NoPhotosFound { directory: Seq<char> },
    ResolutionFailed { cause: Seq<char> },
}

impl View for SourceError {
    type V = SourceErrorView;

    open spec fn view(&self) -> SourceErrorView {
        match self {
            SourceError::DirectoryUnreadable { cause } => SourceErrorView::DirectoryUnreadable {
                cause: cause@,
            },
            SourceError::NoPhotosFound { directory } => SourceErrorView::NoPhotosFound {
                directory: directory@,
            },
            SourceError::ResolutionFailed { cause } => SourceErrorView::ResolutionFailed {
                cause: cause@,
            },
        }
    }
}

impl SourceErrorView {
    /// The text that describes the failure.
    pub open spec fn message(self) -> Seq<char> {
        match self {
            SourceErrorView::DirectoryUnreadable { cause } => cause,
            SourceErrorView::NoPhotosFound { directory } => "No photos found in directory "@
                + directory,
            SourceErrorView::ResolutionFailed { cause } => cause,
        }
    }
}

impl SourceError {
    /// The text that describes the failure.
    pub fn message(&self) -> (text: String)
        ensures
            text@ == self@.message(),
    {
        match self {
            SourceError::DirectoryUnreadable { cause } => cause.clone(),
            SourceError::NoPhotosFound { directory } => String::from_str(
                "No photos found in directory ",
            ).concat(directory.as_str()),
            SourceError::ResolutionFailed { cause } => cause.clone(),
        }
    }
}

/// Something that yields one photo reference per call, without end.
pub trait PhotoLoader {
    /// The next photo, or the reason why there is none this time.
    fn load_next_photo(&mut self) -> Result<PhotoReference, SourceError>;
}

/// One entry of a directory listing, as the host read it.
#[derive(Debug)]
pub enum ListedEntry {
    /// The path of the entry.
    Path(String),
    /// The entry could not be read; the text says why.
    Unreadable(String),
}

/// A [`ListedEntry`] with its text as a sequence of characters.
pub enum EntryView {
    Path(Seq<char>),
    Unreadable(Seq<char>),
}

impl View for ListedEntry {
    type V = EntryView;

    open spec fn view(&self) -> EntryView {
        match self {
            ListedEntry::Path(path) => EntryView::Path(path@),
            ListedEntry::Unreadable(cause) => EntryView::Unreadable(cause@),
        }
    }
}

/// What a photo source does next within one request for a photo.
#[derive(Debug)]
pub enum SourceStep {
    /// The host lists this directory and answers with
    /// [`FilePhotoLoader::accept_listing`].
    ListDirectory(String),
    /// The host makes this path canonical and answers with
    /// [`FilePhotoLoader::accept_resolution`].
    Resolve(String),
    /// The request is over: it failed.
    Failed(SourceError),
}

/// A [`SourceStep`] with its texts as sequences of characters.
pub enum StepView {
    ListDirectory(Seq<char>),
    Resolve(Seq<char>),
    Failed(SourceErrorView),
}

impl View for SourceStep {
    type V = StepView;

    open spec fn view(&self) -> StepView {
        match self {
            SourceStep::ListDirectory(directory) => StepView::ListDirectory(directory@),
            SourceStep::Resolve(path) => StepView::Resolve(path@),
            SourceStep::Failed(error) => StepView::Failed(error@),
        }
    }
}

/// What the host read of a directory: its entries, or why it could not be
/// opened.
pub type ListingView = Result<Seq<EntryView>, Seq<char>>;

/// What the host made of one path: the canonical path, or why there is none.
pub type ResolutionView = Result<Seq<char>, Seq<char>>;

/// How a request for a photo ends: with the text of a reference or a failure.
pub type OutcomeView = Result<Seq<char>, SourceErrorView>;

/// The listing that the host hands to [`FilePhotoLoader::accept_listing`].
pub open spec fn listing_view(listing: Result<Vec<ListedEntry>, String>) -> ListingView {
    match listing {
        Ok(entries) => Ok(entries@.map_values(|e: ListedEntry| e@)),
        Err(cause) => Err(cause@),
    }
}

/// The answer that the host hands to [`FilePhotoLoader::accept_resolution`].
pub open spec fn resolution_view(canonical: Result<String, String>) -> ResolutionView {
    match canonical {
        Ok(path) => Ok(path@),
        Err(cause) => Err(cause@),
    }
}

/// The end of a request for a photo.
pub open spec fn outcome_view(photo: Result<PhotoReference, SourceError>) -> OutcomeView {
    match photo {
        Ok(reference) => Ok(reference@),
        Err(error) => Err(error@),
    }
}

/// The reference to the entry at `path`, given what the host made of the path.
pub open spec fn resolved(path: Seq<char>, canonical: ResolutionView) -> OutcomeView {
    match canonical {
        Err(cause) => Err(SourceErrorView::ResolutionFailed { cause }),
        Ok(absolute) => match file_url_of_path(absolute) {
            Some(url) => Ok(url),
            None => Err(
                SourceErrorView::ResolutionFailed { cause: "unable to create URL from "@ + path },
            ),
        },
    }
}

/// The state of a photo source: its directory, and the entries of the current
/// pass that no request has used yet. No entry is pending before the first
/// listing and after the last entry of a pass.
pub struct SourceState {
    pub directory: Seq<char>,
    pub pending: Seq<EntryView>,
}

impl SourceState {
    /// The state in which no pass is under way.
    pub open spec fn fresh(directory: Seq<char>) -> SourceState {
        SourceState { directory, pending: Seq::empty() }
    }

    /// Uses up the first pending entry.
    pub open spec fn take_entry(self) -> (SourceState, StepView) {
        let rest = SourceState { directory: self.directory, pending: self.pending.skip(1) };
        match self.pending[0] {
            EntryView::Path(path) => (rest, StepView::Resolve(path)),
            EntryView::Unreadable(cause) => (
                rest,
                StepView::Failed(SourceErrorView::ResolutionFailed { cause }),
            ),
        }
    }

    /// The first step of a request: the next pending entry, or a listing where
    /// none is pending.
    pub open spec fn begin(self) -> (SourceState, StepView) {
        if self.pending.len() > 0 {
            self.take_entry()
        } else {
            (self, StepView::ListDirectory(self.directory))
        }
    }

    /// The step after a listing: a new pass starts with its first entry; a
    /// listing that failed or is empty ends the request and starts no pass.
    pub open spec fn listed(self, listing: ListingView) -> (SourceState, StepView) {
        match listing {
            Err(cause) => (
                SourceState::fresh(self.directory),
                StepView::Failed(SourceErrorView::DirectoryUnreadable { cause }),
            ),
            Ok(entries) => if entries.len() == 0 {
                (
                    SourceState::fresh(self.directory),
                    StepView::Failed(
                        SourceErrorView::NoPhotosFound { directory: self.directory },
                    ),
                )
            } else {
                SourceState { directory: self.directory, pending: entries }.take_entry()
            },
        }
    }

    /// The entries that the next request draws from: those still pending or,
    /// where none is, those of the listing that the request takes.
    pub open spec fn pass(self, listing: ListingView) -> Seq<EntryView> {
        if self.pending.len() > 0 {
            self.pending
        } else {
            match listing {
                Ok(entries) => entries,
                Err(_) => Seq::empty(),
            }
        }
    }

    /// The state after a request that drew from a pass with an entry in it.
    pub open spec fn after_request(self, listing: ListingView) -> SourceState {
        SourceState { directory: self.directory, pending: self.pass(listing).skip(1) }
    }

    /// One whole request for a photo, served by a host that answers a listing
    /// with `listing` and the resolution of a path `p` with `canonical(p)`.
    ///
    /// The request uses the first entry of its pass, whatever becomes of that
    /// entry, and leaves the others pending. Where no entry is pending and the
    /// listing fails or is empty, the request fails and no pass is under way.
    pub open spec fn next(
        self,
        listing: ListingView,
        canonical: spec_fn(Seq<char>) -> ResolutionView,
    ) -> (SourceState, OutcomeView) {
        if self.pass(listing).len() > 0 {
            (self.after_request(listing), entry_outcome(self.pass(listing)[0], canonical))
        } else {
            (
                SourceState::fresh(self.directory),
                Err(
                    match listing {
                        Err(cause) => SourceErrorView::DirectoryUnreadable { cause },
                        Ok(_) => SourceErrorView::NoPhotosFound { directory: self.directory },
                    },
                ),
            )
        }
    }

    /// `count` requests in a row, each served by a host that answers as
    /// [`SourceState::next`] says. The results come in the order of the
    /// requests.
    pub open spec fn run(
        self,
        listing: ListingView,
        canonical: spec_fn(Seq<char>) -> ResolutionView,
        count: nat,
    ) -> (SourceState, Seq<OutcomeView>)
        decreases count,
    {
        if count == 0 {
            (self, Seq::empty())
        } else {
            let (before, outcomes) = self.run(listing, canonical, (count - 1) as nat);
            let (after, outcome) = before.next(listing, canonical);
            (after, outcomes.push(outcome))
        }
    }

    /// What a host arrives at that serves one request step by step: it takes
    /// the first step, lists the directory if it is asked to, and makes the
    /// path canonical that it is given.
    pub open spec fn next_by_steps(
        self,
        listing: ListingView,
        canonical: spec_fn(Seq<char>) -> ResolutionView,
    ) -> (SourceState, OutcomeView) {
        let (state, step) = match self.begin() {
            (asked, StepView::ListDirectory(_)) => asked.listed(listing),
            other => other,
        };
        match step {
            StepView::Resolve(path) => (state, resolved(path, canonical(path))),
            StepView::Failed(error) => (state, Err(error)),
            StepView::ListDirectory(directory) => (
                state,
                Err(SourceErrorView::NoPhotosFound { directory }),
            ),
        }
    }
}

/// What a request makes of the entry that it uses.
pub open spec fn entry_outcome(
    entry: EntryView,
    canonical: spec_fn(Seq<char>) -> ResolutionView,
) -> OutcomeView {
    match entry {
        EntryView::Path(path) => resolved(path, canonical(path)),
        EntryView::Unreadable(cause) => Err(SourceErrorView::ResolutionFailed { cause }),
    }
}

/// The entry can be turned into a reference.
pub open spec fn readable(
    entry: EntryView,
    canonical: spec_fn(Seq<char>) -> ResolutionView,
) -> bool {
    entry_outcome(entry, canonical) is Ok
}

/// `list` may answer the request for the entries of `directory` with `listing`.
pub open spec fn lists<F: FnOnce(&str) -> Result<Vec<ListedEntry>, String>>(
    list: F,
    directory: Seq<char>,
    listing: ListingView,
) -> bool {
    exists|asked: &str, answer: Result<Vec<ListedEntry>, String>|
        asked@ == directory && listing_view(answer) == listing && call_ensures(
            list,
            (asked,),
            answer,
        )
}

/// `canonicalize` may answer the request for the canonical form of `path` with
/// `canonical`.
pub open spec fn resolves<G: FnOnce(&str) -> Result<String, String>>(
    canonicalize: G,
    path: Seq<char>,
    canonical: ResolutionView,
) -> bool {
    exists|asked: &str, answer: Result<String, String>|
        asked@ == path && resolution_view(answer) == canonical && call_ensures(
            canonicalize,
            (asked,),
            answer,
        )
}

/// Yields the images of one directory, pass after pass.
pub struct FilePhotoLoader {
    base_directory: String,
    entries: Vec<ListedEntry>,
    position: usize,
}

impl View for FilePhotoLoader {
    type V = SourceState;

    closed spec fn view(&self) -> SourceState {
        SourceState {
            directory: self.base_directory@,
            pending: if self.position < self.entries.len() {
                self.entries@.map_values(|e: ListedEntry| e@).skip(self.position as int)
            } else {
                Seq::empty()
            },
        }
    }
}

impl FilePhotoLoader {
    /// A source for `base_directory`. The directory is not looked at before the
    /// first request.
    pub fn new(base_directory: String) -> (loader: Self)
        ensures
            loader@ == SourceState::fresh(base_directory@),
    {
        let loader = FilePhotoLoader { base_directory, entries: Vec::new(), position: 0 };
        loader
    }

    /// The directory whose images the source yields.
    pub fn base_directory(&self) -> (directory: &str)
        ensures
            directory@ == self@.directory,
    {
        self.base_directory.as_str()
    }

    fn take_entry(&mut self) -> (step: SourceStep)
        requires
            old(self).position < old(self).entries.len(),
        ensures
            (final(self)@, step@) == old(self)@.take_entry(),
    {
        let step = match &self.entries[self.position] {
            ListedEntry::Path(path) => SourceStep::Resolve(path.clone()),
            ListedEntry::Unreadable(cause) => SourceStep::Failed(
                SourceError::ResolutionFailed { cause: cause.clone() },
            ),
        };
        self.position = self.position + 1;
        assert(self@.pending =~= old(self)@.pending.skip(1));
        step
    }

    /// Starts a request for the next photo.
    pub fn begin_next(&mut self) -> (step: SourceStep)
        ensures
            (final(self)@, step@) == old(self)@.begin(),
    {
        if self.position < self.entries.len() {
            self.take_entry()
        } else {
            SourceStep::ListDirectory(self.base_directory.clone())
        }
    }

    /// Goes on with a request after the host listed the directory.
    pub fn accept_listing(&mut self, listing: Result<Vec<ListedEntry>, String>) -> (step:
        SourceStep)
        ensures
            (final(self)@, step@) == old(self)@.listed(listing_view(listing)),
            !(step is ListDirectory),
    {
        match listing {
            Err(cause) => {
                self.entries = Vec::new();
                self.position = 0;
                SourceStep::Failed(SourceError::DirectoryUnreadable { cause })
            },
            Ok(entries) => {
                if entries.len() == 0 {
                    self.entries = entries;
                    self.position = 0;
                    SourceStep::Failed(
                        SourceError::NoPhotosFound { directory: self.base_directory.clone() },
                    )
                } else {
                    self.entries = entries;
                    self.position = 0;
                    assert(self@.pending =~= listing_view(listing)->Ok_0);
                    self.take_entry()
                }
            },
        }
    }

    /// One whole request for a photo. The host's part is in the two functions:
    /// `list` reads the entries of a directory, `canonicalize` makes the path
    /// of one entry absolute and canonical. Each is called at most once: `list`
    /// with the base directory where no entry is pending, `canonicalize` with
    /// the path of the entry that the request uses. Whatever they answer, the
    /// request goes as [`SourceState::next`] says.
    pub fn load_next_photo_with<F, G>(&mut self, list: F, canonicalize: G) -> (photo: Result<
        PhotoReference,
        SourceError,
    >) where
        F: FnOnce(&str) -> Result<Vec<ListedEntry>, String>,
        G: FnOnce(&str) -> Result<String, String>,

        requires
            forall|directory: &str| call_requires(list, (directory,)),
            forall|path: &str| call_requires(canonicalize, (path,)),
        ensures
            exists|listing: ListingView, canonical: spec_fn(Seq<char>) -> ResolutionView|
                {
                    &&& (final(self)@, outcome_view(photo)) == #[trigger] old(self)@.next(
                        listing,
                        canonical,
                    )
                    &&& old(self)@.pending.len() == 0 ==> lists(
                        list,
                        old(self)@.directory,
                        listing,
                    )
                    &&& forall|path: Seq<char>|
                        old(self)@.pass(listing).len() > 0 && old(self)@.pass(listing)[0]
                            == EntryView::Path(path) ==> resolves(
                            canonicalize,
                            path,
                            canonical(path),
                        )
                },
    {
        let ghost mut listing: ListingView = Err(Seq::empty());
        let step = match self.begin_next() {
            SourceStep::ListDirectory(directory) => {
                let listed = list(directory.as_str());
                proof {
                    listing = listing_view(listed);
                }
                self.accept_listing(listed)
            },
            other => other,
        };
        match step {
            SourceStep::Resolve(path) => {
                let answer = canonicalize(path.as_str());
                let photo = Self::accept_resolution(path.as_str(), answer);
                proof {
                    let canonical = |p: Seq<char>| resolution_view(answer);
                    assert((self@, outcome_view(photo)) == old(self)@.next(listing, canonical));
                }
                photo
            },
            SourceStep::Failed(error) => {
                proof {
                    let canonical = |p: Seq<char>| Err::<Seq<char>, Seq<char>>(Seq::empty());
                    assert((self@, outcome_view(Err::<PhotoReference, SourceError>(error)))
                        == old(self)@.next(listing, canonical));
                }
                Err(error)
            },
            // not reached: a listing never asks for another listing
            SourceStep::ListDirectory(directory) => Err(SourceError::NoPhotosFound { directory }),
        }
    }

    /// Ends a request after the host made the entry at `path` canonical.
    pub fn accept_resolution(path: &str, canonical: Result<String, String>) -> (photo: Result<
        PhotoReference,
        SourceError,
    >)
        ensures
            outcome_view(photo) == resolved(path@, resolution_view(canonical)),
    {
        match canonical {
            Err(cause) => Err(SourceError::ResolutionFailed { cause }),
            Ok(absolute) => match PhotoReference::from_file_path(absolute.as_str()) {
                Some(reference) => Ok(reference),
                None => Err(
                    SourceError::ResolutionFailed {
                        cause: String::from_str("unable to create URL from ").concat(path),
                    },
                ),
            },
        }
    }
}

/// Serving a request step by step comes to the same as [`SourceState::next`].
pub proof fn lemma_steps_make_a_request(
    state: SourceState,
    listing: ListingView,
    canonical: spec_fn(Seq<char>) -> ResolutionView,
)
    ensures
        state.next_by_steps(listing, canonical) == state.next(listing, canonical),
{
}

/// Within one pass the requests yield the entries of the listing in order:
/// after `count` requests the entries from `count` on are pending.
pub proof fn lemma_pass_in_order(
    directory: Seq<char>,
    entries: Seq<EntryView>,
    canonical: spec_fn(Seq<char>) -> ResolutionView,
    count: nat,
)
    requires
        1 <= count <= entries.len(),
    ensures
        ({
            let (state, outcomes) = SourceState::fresh(directory).run(
                Ok(entries),
                canonical,
                count,
            );
            &&& state == SourceState { directory, pending: entries.skip(count as int) }
            &&& outcomes.len() == count
            &&& forall|i: int|
                0 <= i < count ==> outcomes[i] == entry_outcome(#[trigger] entries[i], canonical)
        }),
    decreases count,
{
    let fresh = SourceState::fresh(directory);
    let listing: ListingView = Ok(entries);
    if count == 1 {
        assert(fresh.run(listing, canonical, 0) == (fresh, Seq::<OutcomeView>::empty()));
    } else {
        lemma_pass_in_order(directory, entries, canonical, (count - 1) as nat);
        let before = fresh.run(listing, canonical, (count - 1) as nat).0;
        assert(before.pending.skip(1) =~= entries.skip(count as int));
    }
}

/// Cyclic restart. In a directory of one or more readable entries, as many
/// requests as there are entries yield each entry's reference once, in the
/// order of the listing. The request after those takes a new listing, and
/// whatever the order of that listing, it yields a reference that was among
/// the first ones.
pub proof fn lemma_cyclic_restart(
    directory: Seq<char>,
    first_pass: Seq<EntryView>,
    second_pass: Seq<EntryView>,
    canonical: spec_fn(Seq<char>) -> ResolutionView,
)
    requires
        first_pass.len() >= 1,
        forall|i: int| 0 <= i < first_pass.len() ==> readable(#[trigger] first_pass[i], canonical),
        second_pass.len() >= 1,
        forall|j: int|
            0 <= j < second_pass.len() ==> first_pass.contains(#[trigger] second_pass[j]),
    ensures
        ({
            let (state, outcomes) = SourceState::fresh(directory).run(
                Ok(first_pass),
                canonical,
                first_pass.len(),
            );
            let (_, again) = state.next(Ok(second_pass), canonical);
            &&& state == SourceState::fresh(directory)
            &&& outcomes.len() == first_pass.len()
            &&& forall|i: int|
                0 <= i < first_pass.len() ==> outcomes[i] is Ok && outcomes[i] == entry_outcome(
                    #[trigger] first_pass[i],
                    canonical,
                )
            &&& again is Ok
            &&& exists|i: int| 0 <= i < first_pass.len() && #[trigger] outcomes[i] == again
        }),
{
    lemma_pass_in_order(directory, first_pass, canonical, first_pass.len());
    assert(first_pass.skip(first_pass.len() as int) =~= Seq::empty());
}

/// In a directory without entries every request fails with `NoPhotosFound` and
/// starts no pass, however many are made. Once the directory has an entry,
/// the next request uses the first entry of its listing.
pub proof fn lemma_empty_directory(
    directory: Seq<char>,
    canonical: spec_fn(Seq<char>) -> ResolutionView,
    count: nat,
    later: Seq<EntryView>,
)
    requires
        later.len() >= 1,
    ensures
        ({
            let (state, outcomes) = SourceState::fresh(directory).run(
                Ok(Seq::empty()),
                canonical,
                count,
            );
            &&& state == SourceState::fresh(directory)
            &&& outcomes.len() == count
            &&& forall|i: int|
                0 <= i < count ==> #[trigger] outcomes[i] == Err::<Seq<char>, SourceErrorView>(
                    SourceErrorView::NoPhotosFound { directory },
                )
            &&& state.next(Ok(later), canonical).1 == entry_outcome(later[0], canonical)
        }),
    decreases count,
{
    if count > 0 {
        lemma_empty_directory(directory, canonical, (count - 1) as nat, later);
    }
}

/// While the directory cannot be listed every request fails with
/// `DirectoryUnreadable` and the cause that the host gave, and starts no pass.
/// Once the directory can be listed, the next request uses the first entry of
/// its listing.
pub proof fn lemma_unreadable_directory(
    directory: Seq<char>,
    cause: Seq<char>,
    canonical: spec_fn(Seq<char>) -> ResolutionView,
    count: nat,
    later: Seq<EntryView>,
)
    requires
        later.len() >= 1,
    ensures
        ({
            let (state, outcomes) = SourceState::fresh(directory).run(
                Err(cause),
                canonical,
                count,
            );
            &&& state == SourceState::fresh(directory)
            &&& outcomes.len() == count
            &&& forall|i: int|
                0 <= i < count ==> #[trigger] outcomes[i] == Err::<Seq<char>, SourceErrorView>(
                    SourceErrorView::DirectoryUnreadable { cause },
                )
            &&& state.next(Ok(later), canonical).1 == entry_outcome(later[0], canonical)
        }),
    decreases count,
{
    if count > 0 {
        lemma_unreadable_directory(directory, cause, canonical, (count - 1) as nat, later);
    }
}

/// An entry that is gone when its path is made canonical costs one request:
/// that request fails with `ResolutionFailed` and the entry is not tried
/// again. The request after it uses the entry that follows, in the same pass
/// or in a new one, and yields that entry's reference where it is readable.
pub proof fn lemma_lost_entry_is_skipped(
    state: SourceState,
    listing: ListingView,
    later: ListingView,
    canonical: spec_fn(Seq<char>) -> ResolutionView,
    lost: Seq<char>,
)
    requires
        state.pass(listing).len() > 0,
        state.pass(listing)[0] == EntryView::Path(lost),
        (canonical(lost) is Err),
        state.after_request(listing).pass(later).len() > 0,
    ensures
        ({
            let (after, failed) = state.next(listing, canonical);
            let (_, photo) = after.next(later, canonical);
            let following = after.pass(later)[0];
            &&& failed == Err::<Seq<char>, SourceErrorView>(
                SourceErrorView::ResolutionFailed { cause: canonical(lost)->Err_0 },
            )
            &&& after == state.after_request(listing)
            &&& photo == entry_outcome(following, canonical)
            &&& readable(following, canonical) ==> photo is Ok
        }),
{
}

} // verus!
