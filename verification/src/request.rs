//! Storage requests and the weakly-typed `key=value` side channel they carry.
//!
//! A request names a driver, a source, a mount point, and an ordered sequence
//! of `key=value` driver options.  For the image-guest-pull path, one reserved
//! option key carries a JSON-encoded metadata record; it is parsed eagerly
//! into [`ImagePullVolumeMetadata`] at the boundary, and raw string pairs are
//! never propagated past the dispatcher.

use vstd::prelude::*;

use crate::error::StorageError;
use crate::strutil::{key_of, split_key_value, str_eq, value_of};

verus! {

/// A host-supplied storage request, consumed once by one handler.
#[derive(Debug)]
pub struct StorageRequest {
    /// The wire-level tag naming the storage strategy; the dispatch key.
    pub driver: String,
    /// Ordered `key=value` strings carrying per-driver metadata.
    pub driver_options: Vec<String>,
    /// Image reference or device source, depending on the driver.
    pub source: String,
    /// Where the produced volume is to become available.
    pub mount_point: String,
}

/// The per-call context a handler receives beside the request.
#[derive(Debug)]
pub struct StorageContext {
    /// The container the request belongs to, when the caller knows one.
    pub cid: Option<String>,
}

/// The views of a sequence of strings.
pub open spec fn views_of(s: Seq<String>) -> Seq<Seq<char>> {
    Seq::new(s.len(), |i: int| s[i]@)
}

/// The views of a sequence of string pairs.
pub open spec fn pair_views_of(s: Seq<(String, String)>) -> Seq<(Seq<char>, Seq<char>)> {
    Seq::new(s.len(), |i: int| (s[i].0@, s[i].1@))
}

/// The value of the first `key=value` entry in `opts` whose key token is
/// `key` and which carries a value at all, or nothing if there is none.
pub open spec fn option_value(opts: Seq<Seq<char>>, key: Seq<char>) -> Option<Seq<char>>
    decreases opts.len(),
{
    if opts.len() == 0 {
        None
    } else if key_of(opts[0]) == key && value_of(opts[0]) is Some {
        value_of(opts[0])
    } else {
        option_value(opts.drop_first(), key)
    }
}

/// Looks up the first driver option whose key token is `key` and which
/// carries a value.
pub fn find_option(opts: &Vec<String>, key: &str) -> (r: Option<String>)
    ensures
        match r {
            Some(v) => option_value(views_of(opts@), key@) matches Some(w) && v@ == w,
            None => option_value(views_of(opts@), key@) is None,
        },
{
    let ghost all = views_of(opts@);
    proof {
        assert(all.skip(0) =~= all);
    }
    let mut i: usize = 0;
    while i < opts.len()
        invariant
            all == views_of(opts@),
            0 <= i <= opts@.len(),
            option_value(all, key@) == option_value(all.skip(i as int), key@),
        decreases opts@.len() - i,
    {
        let (k, v) = split_key_value(opts[i].as_str());
        proof {
            assert(all.skip(i as int)[0] == opts@[i as int]@);
            assert(all.skip(i as int).drop_first() =~= all.skip(i as int + 1));
        }
        if str_eq(k.as_str(), key) {
            if let Some(value) = v {
                return Some(value);
            }
        }
        i += 1;
    }
    proof {
        assert(all.skip(opts@.len() as int) =~= Seq::<Seq<char>>::empty());
    }
    None
}

/// The auxiliary metadata of an image-guest-pull volume, parsed from the
/// reserved driver option and passed through to the image puller.
#[derive(Debug)]
pub struct ImagePullVolumeMetadata {
    /// Auxiliary key/value annotations (for example layer digests), in key
    /// order.
    pub annotations: Vec<(String, String)>,
}

/// What the reserved metadata payload decodes to: whether `s` parses as a
/// JSON object of string values and, if so, the key-sorted pairs it holds.
/// Both are functions of `s` alone.
pub uninterp spec fn metadata_pairs_of(s: Seq<char>) -> Option<Seq<(Seq<char>, Seq<char>)>>;

/// Relies on `serde_json::from_str::<BTreeMap<String, String>>`: parsing is a
/// deterministic function of the input text, and iterating the resulting map
/// yields its pairs sorted by key.
#[verifier::external_body]
fn decode_metadata_json(s: &str) -> (r: Option<Vec<(String, String)>>)
    ensures
        match r {
            Some(v) => metadata_pairs_of(s@) matches Some(m) && m == pair_views_of(v@),
            None => metadata_pairs_of(s@) is None,
        },
{
    match serde_json::from_str::<std::collections::BTreeMap<String, String>>(s) {
        Ok(m) => Some(m.into_iter().collect()),
        Err(_) => None,
    }
}

/// The reserved driver-option key whose value carries the JSON-encoded
/// image-pull metadata; it coincides with the image-guest-pull driver string.
pub fn image_guest_pull_key() -> (s: &'static str)
    ensures
        s@ == "image_guest_pull"@,
{
    "image_guest_pull"
}

/// Parses the image-pull metadata out of a request's driver options.
///
/// The absence of the reserved entry, an entry without a value, and a value
/// that does not decode as a JSON object of strings are all the same hard
/// error: the request reached the image-guest-pull path malformed.
pub fn parse_image_pull_metadata(req: &StorageRequest) -> (r: Result<
    ImagePullVolumeMetadata,
    StorageError,
>)
    ensures
        match r {
            Ok(m) => option_value(views_of(req.driver_options@), "image_guest_pull"@) matches Some(
                p,
            ) && metadata_pairs_of(p) matches Some(pairs) && pair_views_of(m.annotations@)
                == pairs,
            Err(e) => e is MissingImageMetadata && (option_value(
                views_of(req.driver_options@),
                "image_guest_pull"@,
            ) is None || (option_value(views_of(req.driver_options@), "image_guest_pull"@)
                matches Some(p) && metadata_pairs_of(p) is None)),
        },
{
    match find_option(&req.driver_options, image_guest_pull_key()) {
        Some(payload) => match decode_metadata_json(payload.as_str()) {
            Some(pairs) => Ok(ImagePullVolumeMetadata { annotations: pairs }),
            None => Err(StorageError::MissingImageMetadata),
        },
        None => Err(StorageError::MissingImageMetadata),
    }
}

} // verus!
