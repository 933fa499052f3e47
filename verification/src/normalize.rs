//! The media normalizer.
//!
//! Converts the backend's heterogeneous media entities into two parallel
//! ordered lists: a canonical file-type tag per entity, and the resolved
//! URL of each recognized entity — for videos and animated images the
//! variant with the highest bitrate, for photos the base URL with the
//! original-quality suffix.  An entity of an unrecognized kind gets a
//! tag but no URL, so such an entity shifts the two lists out of
//! alignment; that asymmetry is deliberate and part of the contract.  A
//! video or animated-image entity without any variant fails the whole
//! normalization.

use vstd::prelude::*;
use vstd::string::StringExecFns;
use crate::models::ScrapedExtendedMedia;
use crate::models::ScrapedTweet;
use crate::models::ScrapedVariant;

verus! {

/// The closed set of media kinds the normalizer distinguishes.
#[derive(Clone, Copy, Debug, PartialEq, Eq, Structural)]
pub enum MediaKind {
    Photo,
    Video,
    AnimatedGif,
    /// Any tag the backend may introduce later.
    Unknown,
}

/// Failures of normalization.
#[derive(Clone, Copy, Debug, PartialEq, Eq, Structural)]
pub enum NormalizeError {
    /// A video or animated-image entity offers no URL candidate at all.
    MissingVariants,
}

/// Decode the backend's kind tag, with an explicit fallback.
pub open spec fn spec_kind(tag: Seq<char>) -> MediaKind {
    if tag == "photo"@ {
        MediaKind::Photo
    } else if tag == "video"@ {
        MediaKind::Video
    } else if tag == "animated_gif"@ {
        MediaKind::AnimatedGif
    } else {
        MediaKind::Unknown
    }
}

/// The canonical file-type tag reported for each kind.
pub open spec fn spec_tag(k: MediaKind) -> Seq<char> {
    match k {
        MediaKind::Photo => "jpg"@,
        MediaKind::Video => "mp4"@,
        MediaKind::AnimatedGif => "mp4"@,
        MediaKind::Unknown => "unknown"@,
    }
}

/// A variant's bitrate for quality comparison; an absent bitrate counts
/// as zero.
pub open spec fn spec_bitrate(v: ScrapedVariant) -> int {
    match v.bitrate {
        Some(b) => b as int,
        None => 0,
    }
}

/// Index of the variant the normalizer picks: the first one whose
/// bitrate no later variant exceeds.
pub open spec fn best_variant_index(vs: Seq<ScrapedVariant>) -> int
    decreases vs.len(),
{
    if vs.len() <= 1 {
        0
    } else {
        let r = best_variant_index(vs.drop_last());
        if spec_bitrate(vs.last()) > spec_bitrate(vs[r]) {
            vs.len() - 1
        } else {
            r
        }
    }
}

/// The picked variant is a true maximum: it exists in the list and no
/// variant has a higher bitrate.
pub proof fn lemma_best_variant_is_max(vs: Seq<ScrapedVariant>)
    requires
        vs.len() > 0,
    ensures
        0 <= best_variant_index(vs) < vs.len(),
        forall|j: int|
            0 <= j < vs.len() ==> spec_bitrate(#[trigger] vs[j]) <= spec_bitrate(
                vs[best_variant_index(vs)],
            ),
    decreases vs.len(),
{
    if vs.len() > 1 {
        lemma_best_variant_is_max(vs.drop_last());
        assert(forall|j: int| 0 <= j < vs.len() - 1 ==> vs.drop_last()[j] == vs[j]);
    }
}

/// What one media entity contributes: its type tag, and its resolved URL
/// if its kind is recognized.
pub open spec fn spec_entity(m: ScrapedExtendedMedia) -> Result<
    (Seq<char>, Option<Seq<char>>),
    NormalizeError,
> {
    let k = spec_kind(m.media_type@);
    match k {
        MediaKind::Photo => Ok((spec_tag(k), Some(m.media_url_https@ + ":orig"@))),
        MediaKind::Unknown => Ok((spec_tag(k), None)),
        _ => match m.video_info {
            None => Err(NormalizeError::MissingVariants),
            Some(vi) => if vi.variants@.len() == 0 {
                Err(NormalizeError::MissingVariants)
            } else {
                Ok((spec_tag(k), Some(vi.variants@[best_variant_index(vi.variants@)].url@)))
            },
        },
    }
}

/// The two lists for a media sequence, in input order, or the error of
/// the first entity that has none of its URL candidates.
pub open spec fn spec_media_lists(ms: Seq<ScrapedExtendedMedia>) -> Result<
    (Seq<Seq<char>>, Seq<Seq<char>>),
    NormalizeError,
>
    decreases ms.len(),
{
    if ms.len() == 0 {
        Ok((Seq::empty(), Seq::empty()))
    } else {
        match spec_media_lists(ms.drop_last()) {
            Err(e) => Err(e),
            Ok(p) => match spec_entity(ms.last()) {
                Err(e) => Err(e),
                Ok(te) => Ok(
                    (
                        p.0.push(te.0),
                        match te.1 {
                            Some(u) => p.1.push(u),
                            None => p.1,
                        },
                    ),
                ),
            },
        }
    }
}

/// Alignment of the two lists: normalization yields exactly one type
/// tag per media entity and at most one URL per entity, and when every
/// entity's kind is recognized the lists are exactly index-aligned —
/// only an entity of an unrecognized kind shifts them apart.
pub proof fn lemma_list_alignment(ms: Seq<ScrapedExtendedMedia>)
    requires
        spec_media_lists(ms) is Ok,
    ensures
        spec_media_lists(ms)->Ok_0.0.len() == ms.len(),
        spec_media_lists(ms)->Ok_0.1.len() <= ms.len(),
        (forall|i: int|
            0 <= i < ms.len() ==> spec_kind(#[trigger] ms[i].media_type@)
                != MediaKind::Unknown) ==> spec_media_lists(ms)->Ok_0.1.len() == ms.len(),
    decreases ms.len(),
{
    if ms.len() > 0 {
        assert(forall|i: int| 0 <= i < ms.len() - 1 ==> ms.drop_last()[i] == ms[i]);
        lemma_list_alignment(ms.drop_last());
    }
}

/// Once a prefix fails, the whole sequence fails with the same error.
proof fn lemma_media_lists_err_prefix(ms: Seq<ScrapedExtendedMedia>, i: int)
    requires
        0 <= i <= ms.len(),
        spec_media_lists(ms.take(i)) is Err,
    ensures
        spec_media_lists(ms) == spec_media_lists(ms.take(i)),
    decreases ms.len(),
{
    if i == ms.len() {
        assert(ms.take(i) =~= ms);
    } else {
        assert(ms.drop_last().take(i) =~= ms.take(i));
        lemma_media_lists_err_prefix(ms.drop_last(), i);
    }
}

/// The media entities of a payload, an empty sequence when it has none.
pub open spec fn spec_media_of(t: ScrapedTweet) -> Seq<ScrapedExtendedMedia> {
    match t.extended_entities {
        Some(e) => e.media@,
        None => Seq::empty(),
    }
}

/// The compact output entity: author, text, and the two parallel lists.
#[derive(Debug)]
pub struct NormalizedTweet {
    /// Handle of the tweet's author.
    pub username: String,
    /// The tweet's full text.
    pub text: String,
    /// Canonical file-type tags of the media entities, in input order.
    pub types: Vec<String>,
    /// Resolved URLs of the recognized media entities, in input order.
    pub media: Vec<String>,
}

/// The mathematical value of a `NormalizedTweet`.
pub struct NormalizedView {
    pub username: Seq<char>,
    pub text: Seq<char>,
    pub types: Seq<Seq<char>>,
    pub media: Seq<Seq<char>>,
}

impl View for NormalizedTweet {
    type V = NormalizedView;

    open spec fn view(&self) -> NormalizedView {
        NormalizedView {
            username: self.username@,
            text: self.text@,
            types: self.types.deep_view(),
            media: self.media.deep_view(),
        }
    }
}

/// What normalization must produce for a payload.
pub open spec fn spec_normalize(t: ScrapedTweet) -> Result<NormalizedView, NormalizeError> {
    match spec_media_lists(spec_media_of(t)) {
        Err(e) => Err(e),
        Ok(p) => Ok(
            NormalizedView {
                username: t.user.screen_name@,
                text: t.full_text@,
                types: p.0,
                media: p.1,
            },
        ),
    }
}

/// A normalization result as a mathematical value.
pub open spec fn normalize_view(r: Result<NormalizedTweet, NormalizeError>) -> Result<
    NormalizedView,
    NormalizeError,
> {
    match r {
        Ok(n) => Ok(n@),
        Err(e) => Err(e),
    }
}

fn string_eq_lit(a: &String, b: &str) -> (r: bool)
    ensures
        r == (a@ == b@),
{
    let bs = String::from_str(b);
    *a == bs
}

/// Decode the backend's kind tag into the closed kind set.
pub fn decode_kind(tag: &String) -> (k: MediaKind)
    ensures
        k == spec_kind(tag@),
{
    if string_eq_lit(tag, "photo") {
        MediaKind::Photo
    } else if string_eq_lit(tag, "video") {
        MediaKind::Video
    } else if string_eq_lit(tag, "animated_gif") {
        MediaKind::AnimatedGif
    } else {
        MediaKind::Unknown
    }
}

fn bitrate_of(v: &ScrapedVariant) -> (b: u32)
    ensures
        b as int == spec_bitrate(*v),
{
    match v.bitrate {
        Some(b) => b,
        None => 0,
    }
}

/// Index of the first variant whose bitrate no later variant exceeds.
pub fn best_variant(vs: &Vec<ScrapedVariant>) -> (i: usize)
    requires
        vs@.len() > 0,
    ensures
        i as int == best_variant_index(vs@),
        0 <= i < vs@.len(),
{
    let mut best: usize = 0;
    let mut j: usize = 1;
    while j < vs.len()
        invariant
            1 <= j <= vs@.len(),
            0 <= best < j,
            best as int == best_variant_index(vs@.take(j as int)),
        decreases vs@.len() - j,
    {
        proof {
            assert(vs@.take(j as int + 1).drop_last() =~= vs@.take(j as int));
            assert(vs@.take(j as int + 1).last() == vs@[j as int]);
        }
        if bitrate_of(&vs[j]) > bitrate_of(&vs[best]) {
            best = j;
        }
        j = j + 1;
    }
    proof {
        assert(vs@.take(vs@.len() as int) =~= vs@);
    }
    best
}

/// Normalize a raw payload into the compact output entity, exactly as
/// `spec_normalize` says: same author and text, the two lists built from
/// the media entities in input order, and `MissingVariants` as soon as a
/// video or animated-image entity offers no URL candidate.
pub fn normalize(t: &ScrapedTweet) -> (r: Result<NormalizedTweet, NormalizeError>)
    ensures
        normalize_view(r) == spec_normalize(*t),
{
    let username = t.user.screen_name.clone();
    let text = t.full_text.clone();
    let mut types: Vec<String> = Vec::new();
    let mut media: Vec<String> = Vec::new();
    proof {
        assert(types.deep_view() =~= Seq::<Seq<char>>::empty());
        assert(media.deep_view() =~= Seq::<Seq<char>>::empty());
    }
    match &t.extended_entities {
        None => {},
        Some(entities) => {
            let ms = &entities.media;
            let mut i: usize = 0;
            proof {
                assert(ms@.take(0) =~= Seq::<ScrapedExtendedMedia>::empty());
            }
            while i < ms.len()
                invariant
                    0 <= i <= ms@.len(),
                    ms@ == spec_media_of(*t),
                    spec_media_lists(ms@.take(i as int)) == Ok::<
                        (Seq<Seq<char>>, Seq<Seq<char>>),
                        NormalizeError,
                    >((types.deep_view(), media.deep_view())),
                decreases ms@.len() - i,
            {
                let ghost types0 = types.deep_view();
                let ghost media0 = media.deep_view();
                proof {
                    assert(ms@.take(i as int + 1).drop_last() =~= ms@.take(i as int));
                    assert(ms@.take(i as int + 1).last() == ms@[i as int]);
                }
                let m = &ms[i];
                let k = decode_kind(&m.media_type);
                match k {
                    MediaKind::Photo => {
                        types.push(String::from_str("jpg"));
                        let mut u = m.media_url_https.clone();
                        u.append(":orig");
                        media.push(u);
                        proof {
                            assert(types.deep_view() =~= types0.push("jpg"@));
                            assert(media.deep_view() =~= media0.push(
                                m.media_url_https@ + ":orig"@,
                            ));
                        }
                    },
                    MediaKind::Unknown => {
                        types.push(String::from_str("unknown"));
                        proof {
                            assert(types.deep_view() =~= types0.push("unknown"@));
                        }
                    },
                    _ => {
                        match &m.video_info {
                            None => {
                                proof {
                                    lemma_media_lists_err_prefix(ms@, i as int + 1);
                                }
                                return Err(NormalizeError::MissingVariants);
                            },
                            Some(vi) => {
                                if vi.variants.len() == 0 {
                                    proof {
                                        lemma_media_lists_err_prefix(ms@, i as int + 1);
                                    }
                                    return Err(NormalizeError::MissingVariants);
                                }
                                types.push(String::from_str("mp4"));
                                let bi = best_variant(&vi.variants);
                                media.push(vi.variants[bi].url.clone());
                                proof {
                                    assert(types.deep_view() =~= types0.push("mp4"@));
                                    assert(media.deep_view() =~= media0.push(
                                        vi.variants@[best_variant_index(vi.variants@)].url@,
                                    ));
                                }
                            },
                        }
                    },
                }
                i = i + 1;
            }
            proof {
                assert(ms@.take(ms@.len() as int) =~= ms@);
            }
        },
    }
    Ok(NormalizedTweet { username, text, types, media })
}

/// Normalization is pure: the contract of `normalize` determines the
/// result's value from the payload alone, so any two results it allows
/// for the same payload agree.
pub proof fn lemma_normalize_deterministic(
    t: ScrapedTweet,
    r1: Result<NormalizedTweet, NormalizeError>,
    r2: Result<NormalizedTweet, NormalizeError>,
)
    requires
        normalize_view(r1) == spec_normalize(t),
        normalize_view(r2) == spec_normalize(t),
    ensures
        normalize_view(r1) == normalize_view(r2),
{
}

} // verus!
