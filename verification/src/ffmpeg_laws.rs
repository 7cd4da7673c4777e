//! What the ffmpeg command lines promise, whatever the file names: conversion and
//! padding cap the bitrate of each format and resample sources faster than 48 kHz,
//! the Vorbis encoder is named for OGG only, and the re-encode sets exactly the
//! chosen bitrate.
use vstd::prelude::*;
use crate::ffmpeg::{delay_filter, spec_convert_args, spec_debloat_args, spec_silence_args, AudioFormat};
use crate::text::{decimal, is_digit, lemma_decimal_digits};

verus! {

broadcast use vstd::seq_lib::group_seq_properties;

/// The options of an ffmpeg command line `-y -i <input> ... <output>`: what stands
/// between the input and the output path.
pub open spec fn options(args: Seq<Seq<char>>) -> Seq<Seq<char>> {
    args.subrange(3, args.len() - 1)
}

/// `a` is directly followed by `b` somewhere in `s`.
pub open spec fn has_pair(s: Seq<Seq<char>>, a: Seq<char>, b: Seq<char>) -> bool {
    exists|i: int| 0 <= i < s.len() - 1 && #[trigger] s[i] == a && s[i + 1] == b
}

/// The bitrate cap of a format as ffmpeg reads it: 192k for MP3, 208k for OGG.
pub open spec fn cap_text(f: AudioFormat) -> Seq<char> {
    match f {
        AudioFormat::Mp3 => "192k"@,
        AudioFormat::Ogg => "208k"@,
    }
}

/// The command line reads `-y -i <input> <options> <output>`.
pub open spec fn framed(a: Seq<Seq<char>>, input: Seq<char>, output: Seq<char>) -> bool {
    &&& a.len() >= 4
    &&& a[0] == "-y"@
    &&& a[1] == "-i"@
    &&& a[2] == input
    &&& a.last() == output
}


/// The lengths and telling characters of the option texts.
proof fn lemma_option_texts()
    ensures
        "-y"@.len() == 2 && "-i"@.len() == 2,
        "-b:a"@.len() == 4 && "-b:a"@[0] == '-' && "-b:a"@[1] == 'b',
        "-c:a"@.len() == 4 && "-c:a"@[0] == '-' && "-c:a"@[1] == 'c',
        "-maxrate"@.len() == 8 && "-maxrate"@[0] == '-',
        "-bufsize"@.len() == 8,
        "192k"@.len() == 4 && "208k"@.len() == 4,
        "libvorbis"@.len() == 9 && "libvorbis"@[0] == 'l',
        "-ar"@.len() == 3 && "-ar"@[0] == '-' && "-ar"@[2] == 'r',
        "-af"@.len() == 3 && "-af"@[2] == 'f',
        "48000"@.len() == 5,
{
    assert("-y"@.len() == 2) by { reveal_strlit("-y"); }
    assert("-i"@.len() == 2) by { reveal_strlit("-i"); }
    assert("-b:a"@.len() == 4 && "-b:a"@[0] == '-' && "-b:a"@[1] == 'b') by { reveal_strlit("-b:a"); }
    assert("-c:a"@.len() == 4 && "-c:a"@[0] == '-' && "-c:a"@[1] == 'c') by { reveal_strlit("-c:a"); }
    assert("-maxrate"@.len() == 8 && "-maxrate"@[0] == '-') by { reveal_strlit("-maxrate"); }
    assert("-bufsize"@.len() == 8) by { reveal_strlit("-bufsize"); }
    assert("192k"@.len() == 4) by { reveal_strlit("192k"); }
    assert("208k"@.len() == 4) by { reveal_strlit("208k"); }
    assert("libvorbis"@.len() == 9 && "libvorbis"@[0] == 'l') by { reveal_strlit("libvorbis"); }
    assert("-ar"@.len() == 3 && "-ar"@[0] == '-' && "-ar"@[2] == 'r') by { reveal_strlit("-ar"); }
    assert("-af"@.len() == 3 && "-af"@[2] == 'f') by { reveal_strlit("-af"); }
    assert("48000"@.len() == 5) by { reveal_strlit("48000"); }
}

/// Converting to a format caps its average bitrate (`-b:a`, `-maxrate`, `-bufsize`
/// at 192k for MP3, 208k for OGG); a source faster than 48 kHz is resampled to
/// 48 kHz and no other is; the Vorbis encoder is named exactly for OGG.
pub proof fn lemma_convert_command(input: Seq<char>, output: Seq<char>, f: AudioFormat, sample_rate: u32)
    ensures
        ({
            let a = spec_convert_args(input, output, f, sample_rate);
            let o = options(a);
            &&& framed(a, input, output)
            &&& has_pair(o, "-b:a"@, cap_text(f))
            &&& has_pair(o, "-maxrate"@, cap_text(f))
            &&& has_pair(o, "-bufsize"@, cap_text(f))
            &&& sample_rate > 48000 ==> has_pair(o, "-ar"@, "48000"@)
            &&& sample_rate <= 48000 ==> !o.contains("-ar"@)
            &&& o.contains("libvorbis"@) <==> f == AudioFormat::Ogg
            &&& f == AudioFormat::Ogg ==> has_pair(o, "-c:a"@, "libvorbis"@)
        }),
{
    lemma_option_texts();
    let a = spec_convert_args(input, output, f, sample_rate);
    let o = options(a);
    let c = cap_text(f);
    if sample_rate > 48000 {
        match f {
            AudioFormat::Mp3 => {
                let t = seq!["-b:a"@, c, "-maxrate"@, c, "-bufsize"@, c, "-ar"@, "48000"@];
                assert(o =~= t);
                assert(!t.contains("libvorbis"@));
            },
            AudioFormat::Ogg => {
                let t = seq![
                    "-b:a"@, c, "-maxrate"@, c, "-bufsize"@, c, "-c:a"@, "libvorbis"@, "-ar"@, "48000"@,
                ];
                assert(o =~= t);
                assert(o[6] == "-c:a"@ && o[7] == "libvorbis"@);
            },
        }
        assert(o[o.len() - 2] == "-ar"@ && o[o.len() - 1] == "48000"@);
    } else {
        match f {
            AudioFormat::Mp3 => {
                let t = seq!["-b:a"@, c, "-maxrate"@, c, "-bufsize"@, c];
                assert(o =~= t);
                assert(!t.contains("libvorbis"@));
                assert(!t.contains("-ar"@));
            },
            AudioFormat::Ogg => {
                let t = seq!["-b:a"@, c, "-maxrate"@, c, "-bufsize"@, c, "-c:a"@, "libvorbis"@];
                assert(o =~= t);
                assert(o[6] == "-c:a"@ && o[7] == "libvorbis"@);
                assert(!t.contains("-ar"@));
            },
        }
    }
    assert(o[0] == "-b:a"@ && o[1] == c);
    assert(o[2] == "-maxrate"@ && o[3] == c);
    assert(o[4] == "-bufsize"@ && o[5] == c);
    assert(framed(a, input, output));
    assert(has_pair(o, "-b:a"@, cap_text(f)));
    assert(has_pair(o, "-maxrate"@, cap_text(f)));
    assert(has_pair(o, "-bufsize"@, cap_text(f)));
    assert(sample_rate > 48000 ==> has_pair(o, "-ar"@, "48000"@));
    assert(sample_rate <= 48000 ==> !o.contains("-ar"@));
    assert(o.contains("libvorbis"@) <==> f == AudioFormat::Ogg);
    assert(f == AudioFormat::Ogg ==> has_pair(o, "-c:a"@, "libvorbis"@));
}

proof fn lemma_delay_filter_shape(ms: u64)
    ensures
        delay_filter(ms).len() >= 10,
{
    reveal_strlit("adelay=");
    reveal_strlit("|");
    lemma_decimal_digits(ms as nat);
}

/// Padding with silence keeps the caps and the resampling of conversion, names
/// the Vorbis encoder exactly for OGG, and delays the sound by the filter
/// `adelay=<ms>|<ms>`.
pub proof fn lemma_silence_command(
    input: Seq<char>,
    tmp: Seq<char>,
    ms: u64,
    f: AudioFormat,
    sample_rate: u32,
)
    ensures
        ({
            let a = spec_silence_args(input, tmp, ms, f, sample_rate);
            let o = options(a);
            &&& framed(a, input, tmp)
            &&& has_pair(o, "-b:a"@, cap_text(f))
            &&& has_pair(o, "-maxrate"@, cap_text(f))
            &&& has_pair(o, "-bufsize"@, cap_text(f))
            &&& sample_rate > 48000 ==> has_pair(o, "-ar"@, "48000"@)
            &&& sample_rate <= 48000 ==> !o.contains("-ar"@)
            &&& o.contains("libvorbis"@) <==> f == AudioFormat::Ogg
            &&& has_pair(o, "-af"@, "adelay="@ + decimal(ms as nat) + "|"@ + decimal(ms as nat))
        }),
{
    lemma_option_texts();
    lemma_delay_filter_shape(ms);
    let a = spec_silence_args(input, tmp, ms, f, sample_rate);
    let o = options(a);
    let d = delay_filter(ms);
    let c = cap_text(f);
    assert(d.len() != "-ar"@.len() && d.len() != "libvorbis"@.len());
    assert(d != "-ar"@ && d != "libvorbis"@);
    if sample_rate > 48000 {
        match f {
            AudioFormat::Mp3 => {
                let t = seq!["-b:a"@, c, "-maxrate"@, c, "-bufsize"@, c, "-ar"@, "48000"@, "-af"@, d];
                assert(o =~= t);
                assert(!t.contains("libvorbis"@));
            },
            AudioFormat::Ogg => {
                let t = seq![
                    "-b:a"@, c, "-maxrate"@, c, "-bufsize"@, c, "-c:a"@, "libvorbis"@, "-ar"@, "48000"@,
                    "-af"@, d,
                ];
                assert(o =~= t);
                assert(o[7] == "libvorbis"@);
            },
        }
        assert(o[o.len() - 4] == "-ar"@ && o[o.len() - 3] == "48000"@);
    } else {
        match f {
            AudioFormat::Mp3 => {
                let t = seq!["-b:a"@, c, "-maxrate"@, c, "-bufsize"@, c, "-af"@, d];
                assert(o =~= t);
                assert(!t.contains("libvorbis"@));
                assert(!t.contains("-ar"@));
            },
            AudioFormat::Ogg => {
                let t = seq!["-b:a"@, c, "-maxrate"@, c, "-bufsize"@, c, "-c:a"@, "libvorbis"@, "-af"@, d];
                assert(o =~= t);
                assert(o[7] == "libvorbis"@);
                assert(!t.contains("-ar"@));
            },
        }
    }
    assert(o[0] == "-b:a"@ && o[1] == c);
    assert(o[2] == "-maxrate"@ && o[3] == c);
    assert(o[4] == "-bufsize"@ && o[5] == c);
    assert(o[o.len() - 2] == "-af"@ && o[o.len() - 1] == d);
    assert(d.len() != "-ar"@.len() && d.len() != "libvorbis"@.len());
    assert(framed(a, input, tmp));
    assert(has_pair(o, "-b:a"@, cap_text(f)));
    assert(has_pair(o, "-maxrate"@, cap_text(f)));
    assert(has_pair(o, "-bufsize"@, cap_text(f)));
    assert(sample_rate > 48000 ==> has_pair(o, "-ar"@, "48000"@));
    assert(sample_rate <= 48000 ==> !o.contains("-ar"@));
    assert(o.contains("libvorbis"@) <==> f == AudioFormat::Ogg);
    assert(has_pair(o, "-af"@, "adelay="@ + decimal(ms as nat) + "|"@ + decimal(ms as nat)));
}

/// Re-encoding sets exactly the chosen constant bitrate, with no cap or
/// resampling options, and names the Vorbis encoder (`-c:a libvorbis`) exactly for
/// OGG: an MP3 re-encode names no codec at all.
pub proof fn lemma_debloat_command(input: Seq<char>, tmp: Seq<char>, kbps: u64, f: AudioFormat)
    ensures
        ({
            let a = spec_debloat_args(input, tmp, kbps, f);
            let o = options(a);
            &&& framed(a, input, tmp)
            &&& has_pair(o, "-b:a"@, decimal(kbps as nat) + "k"@)
            &&& !o.contains("-maxrate"@)
            &&& !o.contains("-ar"@)
            &&& o.contains("-c:a"@) <==> f == AudioFormat::Ogg
            &&& o.contains("libvorbis"@) <==> f == AudioFormat::Ogg
            &&& f == AudioFormat::Ogg ==> has_pair(o, "-c:a"@, "libvorbis"@)
        }),
{
    lemma_option_texts();
    lemma_decimal_digits(kbps as nat);
    let a = spec_debloat_args(input, tmp, kbps, f);
    let o = options(a);
    let r = decimal(kbps as nat) + "k"@;
    assert(r[0] == decimal(kbps as nat)[0]);
    assert(is_digit(r[0]));
    assert(r != "-c:a"@ && r != "-maxrate"@ && r != "-ar"@ && r != "libvorbis"@ && r != "-b:a"@) by {
        assert("-c:a"@[0] == '-' && "-maxrate"@[0] == '-' && "-ar"@[0] == '-' && "-b:a"@[0] == '-');
        assert("libvorbis"@[0] == 'l');
    }
    assert("-b:a"@[1] != "-c:a"@[1]);
    match f {
        AudioFormat::Mp3 => {
            let t = seq!["-b:a"@, r];
            assert(o =~= t);
            assert(!t.contains("-maxrate"@) && !t.contains("-ar"@));
            assert(!t.contains("-c:a"@) && !t.contains("libvorbis"@));
        },
        AudioFormat::Ogg => {
            let t = seq!["-b:a"@, r, "-c:a"@, "libvorbis"@];
            assert(o =~= t);
            assert(!t.contains("-maxrate"@) && !t.contains("-ar"@));
            assert(o[2] == "-c:a"@ && o[3] == "libvorbis"@);
        },
    }
    assert(o[0] == "-b:a"@ && o[1] == r);
    assert(framed(a, input, tmp));
    assert(has_pair(o, "-b:a"@, decimal(kbps as nat) + "k"@));
    assert(!o.contains("-maxrate"@));
    assert(!o.contains("-ar"@));
    assert(o.contains("-c:a"@) <==> f == AudioFormat::Ogg);
    assert(o.contains("libvorbis"@) <==> f == AudioFormat::Ogg);
    assert(f == AudioFormat::Ogg ==> has_pair(o, "-c:a"@, "libvorbis"@));
}


} // verus!
