//! How a guess is judged against the track of the round: both texts are
//! normalized (lowercase, letters and digits only) and compared by their
//! normalized Levenshtein similarity.
use crate::text::{alphanumeric, concat2, is_alphanumeric, lowercase, to_lowercase};
use vstd::prelude::*;

verus! {

/// What a guess names of the current track.
#[derive(Debug, Clone, Copy, PartialEq, Eq, Structural)]
pub enum GuessResult {
    ArtistOnly,
    TrackOnly,
    Both,
    Neither,
}

/// Similarity, in hundredths, that a guess must exceed to name both the track and the artist.
pub const SIMILARITY_THRESHOLD_BOTH: u64 = 88;

/// Similarity, in hundredths, that a guess must exceed to name the track.
pub const SIMILARITY_THRESHOLD_TRACK: u64 = 90;

/// Similarity, in hundredths, that a guess must exceed to name the artist.
pub const SIMILARITY_THRESHOLD_ARTIST: u64 = 85;

/// The Levenshtein distance: the least number of single-character insertions,
/// deletions and substitutions that turn `a` into `b`.
pub open spec fn edit_distance(a: Seq<char>, b: Seq<char>) -> nat
    decreases a.len() + b.len(),
{
    if a.len() == 0 {
        b.len()
    } else if b.len() == 0 {
        a.len()
    } else {
        let delete = edit_distance(a.drop_last(), b) + 1;
        let insert = edit_distance(a, b.drop_last()) + 1;
        let replace = edit_distance(a.drop_last(), b.drop_last()) + (if a.last() == b.last() {
            0nat
        } else {
            1nat
        });
        if delete <= insert && delete <= replace {
            delete
        } else if insert <= replace {
            insert
        } else {
            replace
        }
    }
}

/// Calls `strsim::levenshtein`, which counts the edits between the characters
/// of the two texts with the classic dynamic program; the contract states the
/// distance by its recursive definition.
#[verifier::external_body]
fn levenshtein(a: &str, b: &str) -> (d: usize)
    ensures
        d == edit_distance(a@, b@),
{
    strsim::levenshtein(a, b)
}

/// Whether the normalized Levenshtein similarity of `a` and `b`, that is
/// 1 - distance / (length of the longer text), or 1 for two empty texts,
/// exceeds `threshold` hundredths.
pub open spec fn similar(a: Seq<char>, b: Seq<char>, threshold: int) -> bool {
    let longest = if a.len() >= b.len() {
        a.len()
    } else {
        b.len()
    };
    (a.len() == 0 && b.len() == 0) || 100 * edit_distance(a, b) < (100 - threshold) * longest
}

/// A text in lowercase with every character that is not a letter or a digit removed.
pub open spec fn normalized(s: Seq<char>) -> Seq<char> {
    lowercase(s).filter(|c: char| alphanumeric(c))
}

/// What a guess names of a track with the given name and artist.
pub open spec fn judge(guess: Seq<char>, name: Seq<char>, artist: Seq<char>) -> GuessResult {
    let g = normalized(guess);
    let n = normalized(name);
    let a = normalized(artist);
    if similar(g, n + a, SIMILARITY_THRESHOLD_BOTH as int) || similar(
        g,
        a + n,
        SIMILARITY_THRESHOLD_BOTH as int,
    ) {
        GuessResult::Both
    } else if similar(g, n, SIMILARITY_THRESHOLD_TRACK as int) {
        GuessResult::TrackOnly
    } else if similar(g, a, SIMILARITY_THRESHOLD_ARTIST as int) {
        GuessResult::ArtistOnly
    } else {
        GuessResult::Neither
    }
}

/// The text in lowercase, keeping letters and digits only.
pub fn normalize_string(input: &str) -> (r: String)
    ensures
        r@ == normalized(input@),
{
    let lower = to_lowercase(input);
    let s = lower.as_str();
    let n = s.unicode_len();
    let ghost keep = |c: char| alphanumeric(c);
    let mut out = String::new();
    let mut i: usize = 0;
    while i < n
        invariant
            i <= n,
            n == s@.len(),
            s@ == lowercase(input@),
            keep == (|c: char| alphanumeric(c)),
            out@ == s@.take(i as int).filter(keep),
        decreases n - i,
    {
        let c = s.get_char(i);
        proof {
            reveal(Seq::filter);
            assert(s@.take(i + 1).drop_last() =~= s@.take(i as int));
            assert(s@.take(i + 1).last() == c);
        }
        if is_alphanumeric(c) {
            let piece = s.substring_char(i, i + 1);
            assert(piece@ =~= seq![c]);
            out.append(piece);
        }
        i = i + 1;
    }
    assert(s@.take(n as int) =~= s@);
    out
}

/// Whether the normalized similarity of the two texts exceeds `threshold` hundredths.
pub fn similarity_exceeds(a: &str, b: &str, threshold: u64) -> (r: bool)
    requires
        threshold <= 100,
    ensures
        r == similar(a@, b@, threshold as int),
{
    let la = a.unicode_len();
    let lb = b.unicode_len();
    if la == 0 && lb == 0 {
        return true;
    }
    let distance = levenshtein(a, b);
    let longest = if la >= lb {
        la
    } else {
        lb
    };
    let allowance = (100 - threshold) as u128;
    let size = longest as u128;
    assert(allowance * size <= 100 * 0x1_0000_0000_0000_0000) by (nonlinear_arith)
        requires
            allowance <= 100,
            size < 0x1_0000_0000_0000_0000,
    ;
    (distance as u128) * 100 < allowance * size
}

/// Judges a guess against a track with the given name and artist.
pub fn judge_guess(guess: &str, name: &str, artist: &str) -> (r: GuessResult)
    ensures
        r == judge(guess@, name@, artist@),
{
    let normalized_track_name = normalize_string(name);
    let normalized_track_artist = normalize_string(artist);
    let normalized_guess = normalize_string(guess);

    let both = concat2(normalized_track_name.as_str(), normalized_track_artist.as_str());
    let both_reverse = concat2(normalized_track_artist.as_str(), normalized_track_name.as_str());
    let both_match = similarity_exceeds(
        normalized_guess.as_str(),
        both.as_str(),
        SIMILARITY_THRESHOLD_BOTH,
    ) || similarity_exceeds(
        normalized_guess.as_str(),
        both_reverse.as_str(),
        SIMILARITY_THRESHOLD_BOTH,
    );
    if both_match {
        return GuessResult::Both;
    }
    let track_matches = similarity_exceeds(
        normalized_guess.as_str(),
        normalized_track_name.as_str(),
        SIMILARITY_THRESHOLD_TRACK,
    );
    let artist_matches = similarity_exceeds(
        normalized_guess.as_str(),
        normalized_track_artist.as_str(),
        SIMILARITY_THRESHOLD_ARTIST,
    );
    if track_matches {
        GuessResult::TrackOnly
    } else if artist_matches {
        GuessResult::ArtistOnly
    } else {
        GuessResult::Neither
    }
}

} // verus!
