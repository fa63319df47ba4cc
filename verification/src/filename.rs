//! Deriving the output file name from a URL: the last non-empty path segment
//! when it contains a dot, else a timestamp-based fallback name.

use crate::stamp::ClockParts;
use crate::stamp::fallback_filename;
use crate::stamp::fallback_name_chars;
use crate::stamp::is_fallback_name;
use crate::stamp::utc_now_parts;
use crate::text::contains_char;
use crate::text::join_path;
use crate::text::joined_path;
use crate::DownloadError;
use vstd::prelude::*;

verus! {

/// The last non-empty path segment, if any.
pub open spec fn last_nonempty(segs: Seq<Seq<char>>) -> Option<Seq<char>>
    decreases segs.len(),
{
    if segs.len() == 0 {
        None
    } else if segs.last().len() > 0 {
        Some(segs.last())
    } else {
        last_nonempty(segs.drop_last())
    }
}

/// The segment that names the output file: the last non-empty path segment,
/// taken only when it contains a dot.
pub open spec fn chosen_segment(segs: Seq<Seq<char>>) -> Option<Seq<char>> {
    match last_nonempty(segs) {
        Some(s) => if s.contains('.') {
            Some(s)
        } else {
            None
        },
        None => None,
    }
}

/// Picks the file-naming segment from the URL's path segments, exactly as
/// `chosen_segment` describes.
pub fn pick_segment(segments: &Vec<String>) -> (r: Option<String>)
    ensures
        match r {
            Some(name) => chosen_segment(segments.deep_view()) == Some(name@),
            None => chosen_segment(segments.deep_view()) is None,
        },
{
    let ghost all = segments.deep_view();
    let mut i: usize = segments.len();
    proof {
        assert(all.subrange(0, i as int) =~= all);
    }
    while i > 0
        invariant
            i <= segments.len(),
            all == segments.deep_view(),
            last_nonempty(all) == last_nonempty(all.subrange(0, i as int)),
        decreases i,
    {
        i = i - 1;
        let seg = &segments[i];
        proof {
            assert(all.subrange(0, i + 1 as int).last() == all[i as int]);
            assert(all[i as int] == seg@);
        }
        if seg.as_str().unicode_len() > 0 {
            proof {
                assert(last_nonempty(all) == Some(seg@));
            }
            if contains_char(seg.as_str(), '.') {
                return Some(seg.clone());
            } else {
                return None;
            }
        }
        proof {
            assert(all.subrange(0, i + 1 as int).drop_last() =~= all.subrange(0, i as int));
        }
    }
    proof {
        assert(all.subrange(0, 0) =~= Seq::<Seq<char>>::empty());
    }
    None
}

/// The path segments of `url` under the URL grammar: no value when the string
/// is not a valid absolute URL, the (possibly empty) segment list otherwise.
pub uninterp spec fn url_path_segments(url: Seq<char>) -> Option<Seq<Seq<char>>>;

/// Relies on `url::Url::parse` and `url::Url::path_segments`: parsing is a
/// function of the URL string alone, and `path_segments` yields the
/// `/`-separated segments of the parsed URL's path, or nothing for a
/// cannot-be-a-base URL, which this wrapper renders as an empty segment list.
#[verifier::external_body]
fn url_segments(url: &str) -> (r: Option<Vec<String>>)
    ensures
        r is Some <==> url_path_segments(url@) is Some,
        r is Some ==> r->0.deep_view() == url_path_segments(url@)->0,
{
    match url::Url::parse(url) {
        Ok(parsed) => Some(match parsed.path_segments() {
            Some(segs) => segs.map(|s| s.to_string()).collect(),
            None => Vec::new(),
        }),
        Err(_) => None,
    }
}

/// Derives the output file name from the URL, with `now` supplying the
/// timestamp for the fallback name.
pub fn derive_filename_with_clock(url: &str, now: &ClockParts) -> (r: Result<
    String,
    DownloadError,
>)
    requires
        now.wf(),
    ensures
        match r {
            Ok(name) => url_path_segments(url@) is Some && match chosen_segment(
                url_path_segments(url@)->0,
            ) {
                Some(seg) => name@ == seg,
                None => name@ == fallback_name_chars(
                    (now.year as int % 10000) as nat,
                    now.month as nat,
                    now.day as nat,
                    now.hour as nat,
                    now.minute as nat,
                    now.second as nat,
                ),
            },
            Err(e) => e == DownloadError::InvalidUrl && url_path_segments(url@) is None,
        },
{
    match url_segments(url) {
        None => Err(DownloadError::InvalidUrl),
        Some(segments) => match pick_segment(&segments) {
            Some(name) => Ok(name),
            None => Ok(fallback_filename(now)),
        },
    }
}

/// Derives the output file name from the URL alone, reading the clock for the
/// fallback: a URL whose last non-empty path segment contains a dot yields
/// that segment; one without such a segment yields a fallback name; an
/// unparsable URL is rejected.
pub fn derive_filename_from_url(url: &str) -> (r: Result<String, DownloadError>)
    ensures
        match r {
            Ok(name) => url_path_segments(url@) is Some && match chosen_segment(
                url_path_segments(url@)->0,
            ) {
                Some(seg) => name@ == seg,
                None => is_fallback_name(name@),
            },
            Err(e) => e == DownloadError::InvalidUrl && url_path_segments(url@) is None,
        },
{
    let now = utc_now_parts();
    let r = derive_filename_with_clock(url, &now);
    proof {
        if r is Ok && chosen_segment(url_path_segments(url@)->0) is None {
            let y = (now.year as int % 10000) as nat;
            assert(0 <= now.year as int % 10000 < 10000) by (nonlinear_arith);
            assert(y < 10000 && 1 <= now.month as nat <= 12 && 1 <= now.day as nat <= 31
                && now.hour as nat <= 23 && now.minute as nat <= 59 && now.second as nat <= 59
                && r->Ok_0@ == fallback_name_chars(
                y,
                now.month as nat,
                now.day as nat,
                now.hour as nat,
                now.minute as nat,
                now.second as nat,
            ));
            assert(is_fallback_name(r->Ok_0@));
        }
    }
    r
}

/// Resolves the output path for a request: an explicit file name is used
/// verbatim, otherwise the name is derived from the URL; either is joined to
/// the destination directory.
pub fn resolve_output_path(url: &str, directory: &str, explicit: Option<&str>) -> (r: Result<
    String,
    DownloadError,
>)
    ensures
        match r {
            Ok(path) => match explicit {
                Some(name) => path@ == joined_path(directory@, name@),
                None => url_path_segments(url@) is Some && match chosen_segment(
                    url_path_segments(url@)->0,
                ) {
                    Some(seg) => path@ == joined_path(directory@, seg),
                    None => exists|name: Seq<char>|
                        is_fallback_name(name) && path@ == joined_path(directory@, name),
                },
            },
            Err(e) => e == DownloadError::InvalidUrl && explicit is None && url_path_segments(
                url@,
            ) is None,
        },
{
    match explicit {
        Some(name) => Ok(join_path(directory, name)),
        None => match derive_filename_from_url(url) {
            Ok(name) => {
                let path = join_path(directory, name.as_str());
                proof {
                    if chosen_segment(url_path_segments(url@)->0) is None {
                        assert(is_fallback_name(name@) && path@ == joined_path(
                            directory@,
                            name@,
                        ));
                    }
                }
                Ok(path)
            },
            Err(e) => Err(e),
        },
    }
}

} // verus!
