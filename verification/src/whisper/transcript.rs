//! The text of a transcription, made of the segments that the model
//! recognised.

use vstd::prelude::*;
use vstd::string::*;

use crate::text::text_model;

verus! {

/// The number of samples below which a recording is not worth
/// transcribing: a quarter of a second at 16 kHz.
pub const MIN_AUDIO_SAMPLES: usize = 4000;

/// Whether a recording of so many samples is too short to transcribe.
pub fn is_too_short(sample_count: usize) -> (short: bool)
    ensures
        short == (sample_count < MIN_AUDIO_SAMPLES),
{
    sample_count < MIN_AUDIO_SAMPLES
}

/// Models of a list of segments, in order. A segment whose text could not
/// be read is `None`.
pub open spec fn segment_models(segments: Seq<Option<String>>) -> Seq<Option<Seq<char>>> {
    segments.map_values(|s: Option<String>| text_model(s))
}

/// The first `n` segments put together: each readable segment, followed by
/// a space unless it is the last segment of all. A segment that could not
/// be read adds nothing, not even the space.
pub open spec fn joined(segments: Seq<Option<Seq<char>>>, n: nat) -> Seq<char>
    decreases n,
{
    if n == 0 {
        Seq::empty()
    } else {
        let before = joined(segments, (n - 1) as nat);
        match segments[n - 1] {
            Some(text) => if n < segments.len() {
                before + text + seq![' ']
            } else {
                before + text
            },
            None => before,
        }
    }
}

/// A text without the white space at its two ends, as `str::trim` of the
/// standard library gives it.
pub uninterp spec fn trimmed_of(text: Seq<char>) -> Seq<char>;

/// Calls `str::trim` of the standard library and copies the result. The
/// contract gives the result a name and claims nothing else of it: what
/// counts as white space follows the Unicode tables.
#[verifier::external_body]
fn trim(text: &str) -> (trimmed: String)
    ensures
        trimmed@ == trimmed_of(text@),
{
    text.trim().to_string()
}

/// Puts the segments together, with a space after each but the last.
pub fn concat_segments(segments: &Vec<Option<String>>) -> (text: String)
    ensures
        text@ == joined(segment_models(segments@), segments@.len()),
{
    let ghost all = segment_models(segments@);
    let mut text = String::new();
    let mut i: usize = 0;
    while i < segments.len()
        invariant
            i <= segments.len(),
            all == segment_models(segments@),
            text@ == joined(all, i as nat),
        decreases segments.len() - i,
    {
        match &segments[i] {
            Some(segment) => {
                assert(all[i as int] == Some(segment@));
                text.append(segment.as_str());
                if i < segments.len() - 1 {
                    proof {
                        reveal_strlit(" ");
                        assert(" "@ =~= seq![' ']);
                    }
                    text.append(" ");
                }
            },
            None => {
                assert(all[i as int] is None);
            },
        }
        i += 1;
    }
    text
}

/// The text of a transcription: the segments put together, without white
/// space at the ends.
pub fn transcript_text(segments: &Vec<Option<String>>) -> (text: String)
    ensures
        text@ == trimmed_of(joined(segment_models(segments@), segments@.len())),
{
    let raw = concat_segments(segments);
    trim(raw.as_str())
}

} // verus!
