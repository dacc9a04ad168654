//! Small things that several parts of the front end need.

use vstd::prelude::*;
pub use crate::sorting::{g_cmp_options, g_cmp_str_options, Sorting};
use crate::text::{
    append_decimal, append_two_digits, chars_of, decimal, last_index_of, split, two_digits,
    unsigned_value, value_within,
};

verus! {

/// The format in which audio is played or stored.
#[derive(Clone, Copy, Debug, PartialEq, Eq, Structural)]
pub struct AudioFormat {
    /// Samples per second.
    pub rate: u32,
    /// Bits per sample; 0 stands for floating point.
    pub bits: u8,
    /// Number of channels.
    pub chans: u8,
}

/// The number of bits that the second field of a format stands for: `f`
/// stands for floating point, written 0.
pub open spec fn format_bits(field: Seq<char>) -> Option<int> {
    if field == "f"@ {
        Some(0)
    } else {
        value_within(unsigned_value(field), 0, u8::MAX as int)
    }
}

/// The format that a string of the form rate:bits:channels stands for.
/// Fields behind the third are not looked at.
pub open spec fn parsed_audio_format(s: Seq<char>) -> Option<AudioFormat> {
    let fields = split(s, ':');
    if fields.len() < 3 {
        None
    } else {
        match (
            value_within(unsigned_value(fields[0]), 0, u32::MAX as int),
            format_bits(fields[1]),
            value_within(unsigned_value(fields[2]), 0, u8::MAX as int),
        ) {
            (Some(rate), Some(bits), Some(chans)) => Some(
                AudioFormat { rate: rate as u32, bits: bits as u8, chans: chans as u8 },
            ),
            _ => None,
        }
    }
}

/// `mpd::status::AudioFormat::from_str`: the first three fields between
/// colons, read as sample rate, bits and channels, where `f` for the bits
/// stands for 0. Fewer than three fields, or one that is no number of its
/// range, give nothing.
#[verifier::external_body]
pub(crate) fn parse_audio_format(s: &str) -> (format: Option<AudioFormat>)
    ensures
        format == parsed_audio_format(s@),
{
    match s.parse::<mpd::status::AudioFormat>() {
        Ok(f) => Some(AudioFormat { rate: f.rate, bits: f.bits, chans: f.chans }),
        Err(_) => None,
    }
}

/// A path without its last component: what stands before the last `/`, and
/// the whole path where it holds none.
pub open spec fn without_filename(path: Seq<char>) -> Seq<char> {
    match path.index_of_last('/') {
        Some(at) => path.take(at),
        None => path,
    }
}

/// The folder of a song, given the song's path in the daemon's library.
pub fn strip_filename_linux(path: &str) -> (folder: &str)
    ensures
        folder@ == without_filename(path@),
{
    match last_index_of(path, '/') {
        Some(at) => {
            let folder = path.substring_char(0, at);
            assert(folder@ =~= path@.take(at as int));
            folder
        },
        None => path,
    }
}

/// A duration of whole seconds as the front end shows it: minutes and
/// seconds; hours before them from one hour on; days before those from one
/// day on. All but the days have two digits.
pub open spec fn duration_text(total_seconds: nat) -> Seq<char> {
    let days = total_seconds / 86400;
    let hours = (total_seconds % 86400) / 3600;
    let minutes = (total_seconds % 3600) / 60;
    let seconds = total_seconds % 60;
    let clock = two_digits(minutes) + seq![':'] + two_digits(seconds);
    if days > 0 {
        decimal(days) + " days "@ + two_digits(hours) + seq![':'] + clock
    } else if hours > 0 {
        two_digits(hours) + seq![':'] + clock
    } else {
        clock
    }
}

/// Writes a duration of whole seconds as the front end shows it.
pub fn format_secs_as_duration(total_seconds: u64) -> (text: String)
    ensures
        text@ == duration_text(total_seconds as nat),
{
    let days = total_seconds / 86400;
    let hours = (total_seconds % 86400) / 3600;
    let minutes = (total_seconds % 3600) / 60;
    let seconds = total_seconds % 60;
    let mut text = String::new();
    proof {
        reveal_strlit(":");
        assert(":"@ =~= seq![':']);
    }
    if days > 0 {
        append_decimal(&mut text, days);
        text.append(" days ");
    }
    if days > 0 || hours > 0 {
        append_two_digits(&mut text, hours);
        text.append(":");
    }
    let ghost head = text@;
    append_two_digits(&mut text, minutes);
    text.append(":");
    append_two_digits(&mut text, seconds);
    proof {
        let clock = two_digits(minutes as nat) + seq![':'] + two_digits(seconds as nat);
        assert(text@ =~= head + clock);
        if days > 0 {
            assert(head =~= decimal(days as nat) + " days "@ + two_digits(hours as nat) + seq![':']);
            assert(head + clock =~= decimal(days as nat) + " days "@ + two_digits(hours as nat)
                + seq![':'] + clock);
        } else if hours > 0 {
            assert(head =~= two_digits(hours as nat) + seq![':']);
            assert(head + clock =~= two_digits(hours as nat) + seq![':'] + clock);
        } else {
            assert(head =~= Seq::<char>::empty());
            assert(head + clock =~= clock);
        }
    }
    text
}

/// An audio format, sorted out for display.
#[derive(Clone, Copy, Debug, PartialEq, Eq, Structural)]
pub enum PrettyFormat {
    /// Direct Stream Digital: the sample rate in bits per second, its
    /// multiple of the rate of a compact disc, and the number of channels.
    Dsd { multiple: u64, sample_rate: u64, chans: u8 },
    /// Pulse-code modulation: bits per sample, samples per second, and the
    /// number of channels.
    Pcm { bits: u8, rate: u32, chans: u8 },
}

/// How a format is shown. A format of one bit at 352800 samples or more is
/// taken for Direct Stream Digital, whose rate counts in bits: eight times
/// the samples.
pub open spec fn pretty_format(format: AudioFormat) -> PrettyFormat {
    if format.bits == 1 && format.rate >= 352800 {
        PrettyFormat::Dsd {
            multiple: ((format.rate * 8) / 44100) as u64,
            sample_rate: (format.rate * 8) as u64,
            chans: format.chans,
        }
    } else {
        PrettyFormat::Pcm { bits: format.bits, rate: format.rate, chans: format.chans }
    }
}

/// Sorts a format out for display. The numbers are written by the front
/// end: the rate of Direct Stream Digital in MHz behind its multiple, that
/// of pulse-code modulation in kHz behind the bits, the channels last.
pub fn prettify_audio_format(format: &AudioFormat) -> (pretty: PrettyFormat)
    ensures
        pretty == pretty_format(*format),
{
    if format.bits == 1 && format.rate >= 352800 {
        let rate: u64 = format.rate as u64;
        let sample_rate: u64 = rate * 8;
        PrettyFormat::Dsd { multiple: sample_rate / 44100, sample_rate, chans: format.chans }
    } else {
        PrettyFormat::Pcm { bits: format.bits, rate: format.rate, chans: format.chans }
    }
}

/// What marks the identifier of a development build.
pub open spec fn devel_suffix() -> Seq<char> {
    ".Devel"@
}

/// An application identifier without the mark of a development build at its
/// end, however often it stands there.
pub open spec fn without_devel(id: Seq<char>) -> Seq<char>
    decreases id.len(),
{
    if devel_suffix().len() > 0 && devel_suffix().is_suffix_of(id) {
        without_devel(id.take(id.len() - devel_suffix().len()))
    } else {
        id
    }
}

/// The identifier under which the application's settings are kept: a
/// development build shares them with the release.
pub fn settings_id(application_id: &str) -> (id: &str)
    ensures
        id@ == without_devel(application_id@),
{
    let chars = chars_of(application_id);
    let mut end: usize = chars.len();
    proof {
        reveal_strlit(".Devel");
        assert(application_id@.take(end as int) =~= application_id@);
    }
    while end >= 6 && chars[end - 6] == '.' && chars[end - 5] == 'D' && chars[end - 4] == 'e'
        && chars[end - 3] == 'v' && chars[end - 2] == 'e' && chars[end - 1] == 'l'
        invariant
            chars@ == application_id@,
            end <= chars.len(),
            devel_suffix().len() == 6,
            devel_suffix() =~= seq!['.', 'D', 'e', 'v', 'e', 'l'],
            without_devel(application_id@) == without_devel(application_id@.take(end as int)),
        decreases end,
    {
        proof {
            let now = application_id@.take(end as int);
            assert(now.subrange(now.len() - 6, now.len() as int) =~= devel_suffix());
            assert(now.take(now.len() - 6) =~= application_id@.take(end - 6));
        }
        end -= 6;
    }
    proof {
        let now = application_id@.take(end as int);
        if devel_suffix().is_suffix_of(now) {
            let tail = now.subrange(now.len() - 6, now.len() as int);
            assert(tail == devel_suffix());
            assert(tail[0] == '.' && tail[1] == 'D' && tail[2] == 'e' && tail[3] == 'v' && tail[4]
                == 'e' && tail[5] == 'l');
            assert(false);
        }
    }
    let id = application_id.substring_char(0, end);
    assert(id@ =~= application_id@.take(end as int));
    id
}

} // verus!
