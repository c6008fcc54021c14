//! Release metadata: what a feed publishes, how a feed's reply is judged and
//! which asset of a release fits a component.

use vstd::prelude::*;
use crate::text::chain;

verus! {

/// Seconds granted to a request for release metadata or for a single binary.
pub const METADATA_TIMEOUT_SECS: u64 = 30;

/// Seconds granted to the download of a whole archive.
pub const ARCHIVE_TIMEOUT_SECS: u64 = 120;

/// One downloadable file of a release.
#[derive(Clone, Debug, PartialEq, Eq)]
pub struct AssetInfo {
    pub name: String,
    pub download_url: String,
}

/// What an [`AssetInfo`] stands for.
pub struct AssetView {
    pub name: Seq<char>,
    pub download_url: Seq<char>,
}

impl View for AssetInfo {
    type V = AssetView;

    open spec fn view(&self) -> AssetView {
        AssetView { name: self.name@, download_url: self.download_url@ }
    }
}

/// The latest published version of a component.
#[derive(Clone, Debug, PartialEq, Eq)]
pub struct ReleaseInfo {
    pub tag: String,
    pub assets: Vec<AssetInfo>,
}

/// What a [`ReleaseInfo`] stands for.
pub struct ReleaseView {
    pub tag: Seq<char>,
    pub assets: Seq<AssetView>,
}

/// The assets of a release, each by its view.
pub open spec fn assets_view(assets: Seq<AssetInfo>) -> Seq<AssetView> {
    Seq::new(assets.len(), |i: int| assets[i]@)
}

impl View for ReleaseInfo {
    type V = ReleaseView;

    open spec fn view(&self) -> ReleaseView {
        ReleaseView { tag: self.tag@, assets: assets_view(self.assets@) }
    }
}

/// Why no usable release could be had from a feed.
#[derive(Clone, Copy, Debug, PartialEq, Eq, Structural)]
pub enum FetchError {
    /// The feed could not be reached, or did not answer in time.
    Network,
    /// The feed answered with a status other than success.
    HttpStatus,
    /// The body was not release metadata.
    Decode,
    /// The release has an empty tag or no assets.
    InvalidRelease,
}

/// What came back from a request for release metadata.
#[derive(Clone, Debug, PartialEq, Eq)]
pub enum FeedReply {
    /// No answer: transport failure or timeout.
    Unreachable,
    /// An answer with its status code and, where the body could be read as
    /// release metadata, the release.
    Answered { status: u16, release: Option<ReleaseInfo> },
}

/// What a [`FeedReply`] stands for.
pub enum FeedReplyView {
    Unreachable,
    Answered { status: u16, release: Option<ReleaseView> },
}

impl View for FeedReply {
    type V = FeedReplyView;

    open spec fn view(&self) -> FeedReplyView {
        match *self {
            FeedReply::Unreachable => FeedReplyView::Unreachable,
            FeedReply::Answered { status, release } => FeedReplyView::Answered {
                status,
                release: match release {
                    Some(r) => Some(r@),
                    None => None,
                },
            },
        }
    }
}

/// A GET request for the host to perform.
#[derive(Clone, Debug, PartialEq, Eq)]
pub struct HttpRequest {
    pub url: String,
    pub user_agent: String,
    pub timeout_secs: u64,
}

/// What an [`HttpRequest`] stands for.
pub struct RequestView {
    pub url: Seq<char>,
    pub user_agent: Seq<char>,
    pub timeout_secs: u64,
}

impl View for HttpRequest {
    type V = RequestView;

    open spec fn view(&self) -> RequestView {
        RequestView {
            url: self.url@,
            user_agent: self.user_agent@,
            timeout_secs: self.timeout_secs,
        }
    }
}

/// The status codes that count as success: 200 to 299.
pub open spec fn is_success(status: u16) -> bool {
    200 <= status < 300
}

/// Executable form of [`is_success`].
pub fn status_is_success(status: u16) -> (r: bool)
    ensures
        r == is_success(status),
{
    200 <= status && status < 300
}

/// The judgement of a feed's reply: the first of the four faults that
/// applies, or the release.
pub open spec fn judge_feed(reply: FeedReplyView) -> Result<ReleaseView, FetchError> {
    match reply {
        FeedReplyView::Unreachable => Err(FetchError::Network),
        FeedReplyView::Answered { status, release } => {
            if !is_success(status) {
                Err(FetchError::HttpStatus)
            } else {
                match release {
                    None => Err(FetchError::Decode),
                    Some(r) => {
                        if r.tag.len() == 0 || r.assets.len() == 0 {
                            Err(FetchError::InvalidRelease)
                        } else {
                            Ok(r)
                        }
                    },
                }
            }
        },
    }
}

/// The view of a judgement.
pub open spec fn judged_view(r: Result<ReleaseInfo, FetchError>) -> Result<
    ReleaseView,
    FetchError,
> {
    match r {
        Ok(release) => Ok(release@),
        Err(e) => Err(e),
    }
}

/// Turns a feed's reply into a release or into the reason why there is none.
pub fn judge_feed_reply(reply: FeedReply) -> (r: Result<ReleaseInfo, FetchError>)
    ensures
        judged_view(r) == judge_feed(reply@),
{
    match reply {
        FeedReply::Unreachable => Err(FetchError::Network),
        FeedReply::Answered { status, release } => {
            if !status_is_success(status) {
                Err(FetchError::HttpStatus)
            } else {
                match release {
                    None => Err(FetchError::Decode),
                    Some(found) => {
                        if found.tag.as_str().unicode_len() == 0 || found.assets.len() == 0 {
                            Err(FetchError::InvalidRelease)
                        } else {
                            Ok(found)
                        }
                    },
                }
            }
        },
    }
}

/// The position of the first asset called `name`, if there is one.
pub open spec fn first_match(assets: Seq<AssetView>, name: Seq<char>) -> Option<int>
    decreases assets.len(),
{
    if assets.len() == 0 {
        None
    } else {
        match first_match(assets.drop_last(), name) {
            Some(i) => Some(i),
            None => if assets.last().name == name {
                Some(assets.len() - 1)
            } else {
                None
            },
        }
    }
}

/// What [`first_match`] finds: the least position with that name.
pub proof fn lemma_first_match(assets: Seq<AssetView>, name: Seq<char>)
    ensures
        match first_match(assets, name) {
            Some(i) => {
                &&& 0 <= i < assets.len()
                &&& assets[i].name == name
                &&& forall|j: int| 0 <= j < i ==> (#[trigger] assets[j]).name != name
            },
            None => forall|j: int| 0 <= j < assets.len() ==> (#[trigger] assets[j]).name != name,
        },
    decreases assets.len(),
{
    if assets.len() > 0 {
        lemma_first_match(assets.drop_last(), name);
        assert forall|j: int| 0 <= j < assets.len() - 1 implies assets.drop_last()[j]
            == assets[j] by {}
        match first_match(assets.drop_last(), name) {
            Some(i) => {
                assert forall|j: int| 0 <= j < i implies (#[trigger] assets[j]).name != name by {
                    assert(assets.drop_last()[j] == assets[j]);
                }
            },
            None => {
                assert forall|j: int| 0 <= j < assets.len() - 1 implies (#[trigger] assets[j]).name
                    != name by {
                    assert(assets.drop_last()[j] == assets[j]);
                }
            },
        }
    }
}

/// Scans the assets of a release for one whose name is exactly `name`.
/// That none is found is no fault at this layer.
pub fn select_asset(release: &ReleaseInfo, name: &str) -> (r: Option<usize>)
    ensures
        match r {
            Some(i) => {
                &&& i < release.assets@.len()
                &&& release.assets@[i as int].name@ == name@
                &&& forall|j: int| 0 <= j < i ==> (#[trigger] release.assets@[j]).name@ != name@
                &&& first_match(release@.assets, name@) == Some(i as int)
            },
            None => {
                &&& forall|j: int|
                    0 <= j < release.assets@.len() ==> (#[trigger] release.assets@[j]).name@
                        != name@
                &&& first_match(release@.assets, name@) is None
            },
        },
{
    let wanted = String::from_str(name);
    let ghost all = release@.assets;
    let mut i: usize = 0;
    while i < release.assets.len()
        invariant
            wanted@ == name@,
            all == release@.assets,
            i <= release.assets@.len(),
            first_match(all.take(i as int), name@) is None,
        decreases release.assets@.len() - i,
    {
        proof {
            assert(all.take(i + 1).drop_last() =~= all.take(i as int));
            assert(all.take(i + 1).last() == release.assets@[i as int]@);
        }
        if release.assets[i].name == wanted {
            proof {
                lemma_found_stays_found(all, i as int, name@);
                lemma_first_match(all, name@);
                assert forall|j: int| 0 <= j < i implies (#[trigger] release.assets@[j]).name@
                    != name@ by {
                    assert(all[j].name != name@);
                }
            }
            return Some(i);
        }
        i = i + 1;
    }
    proof {
        assert(all.take(i as int) =~= all);
        lemma_first_match(all, name@);
        assert forall|j: int| 0 <= j < release.assets@.len() implies (
        #[trigger] release.assets@[j]).name@ != name@ by {
            assert(all[j].name != name@);
        }
    }
    None
}

proof fn lemma_found_stays_found(assets: Seq<AssetView>, i: int, name: Seq<char>)
    requires
        0 <= i < assets.len(),
        first_match(assets.take(i + 1), name) == Some(i),
    ensures
        first_match(assets, name) == Some(i),
    decreases assets.len(),
{
    if assets.len() == i + 1 {
        assert(assets.take(i + 1) =~= assets);
    } else {
        assert(assets.drop_last().take(i + 1) =~= assets.take(i + 1));
        lemma_found_stays_found(assets.drop_last(), i, name);
    }
}

/// The request for a component's release metadata.
pub fn metadata_request(feed_url: &str, user_agent: &str) -> (r: HttpRequest)
    ensures
        r@ == (RequestView {
            url: feed_url@,
            user_agent: user_agent@,
            timeout_secs: METADATA_TIMEOUT_SECS,
        }),
{
    HttpRequest {
        url: String::from_str(feed_url),
        user_agent: String::from_str(user_agent),
        timeout_secs: METADATA_TIMEOUT_SECS,
    }
}

/// The address of the archive of a tag: `base`, the tag, `ext`.
pub open spec fn archive_url_spec(base: Seq<char>, tag: Seq<char>, ext: Seq<char>) -> Seq<char> {
    base + tag + ext
}

/// Builds the address of the archive that holds the sources of `tag`.
pub fn archive_url(base: &str, tag: &str, ext: &str) -> (r: String)
    ensures
        r@ == archive_url_spec(base@, tag@, ext@),
{
    let mut out = chain(base, tag);
    out.append(ext);
    out
}

} // verus!
