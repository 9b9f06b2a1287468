//! Where a recording is written: its timestamped file name, its path, and the
//! temporary files used while it is finalized.

use vstd::prelude::*;
use vstd::string::*;
use crate::text::decimal;

verus! {

/// The local wall-clock time at which a recording starts.
#[derive(Debug, Clone, Copy, PartialEq, Eq, Structural)]
pub struct LocalDateTime {
    pub year: i32,
    pub month: u32,
    pub day: u32,
    pub hour: u32,
    pub minute: u32,
    pub second: u32,
}

/// Whether `c` names a numeric field of a date and time in chrono's format
/// language: `Y` (year), `m` (month), `d` (day), `H` (hour), `M` (minute),
/// `S` (second).
pub open spec fn is_numeric_specifier(c: char) -> bool {
    c == 'Y' || c == 'm' || c == 'd' || c == 'H' || c == 'M' || c == 'S'
}

/// A format made of literal text and numeric date and time fields only: every
/// `%` is followed by one of the numeric specifiers.
pub open spec fn plain_numeric_format(f: Seq<char>) -> bool
    decreases f.len(),
{
    if f.len() == 0 {
        true
    } else if f[0] == '%' {
        f.len() >= 2 && is_numeric_specifier(f[1]) && plain_numeric_format(f.skip(2))
    } else {
        plain_numeric_format(f.skip(1))
    }
}

/// What chrono renders for the given calendar date and time under format
/// `fmt`, or `None` when chrono rejects the date or the time.
pub uninterp spec fn chrono_format(
    year: i32,
    month: u32,
    day: u32,
    hour: u32,
    minute: u32,
    second: u32,
    fmt: Seq<char>,
) -> Option<Seq<char>>;

/// The format of the time stamp in a recording's name.
pub open spec fn stamp_format() -> Seq<char> {
    "%Y%m%d_%H%M%S"@
}

/// What chrono renders for the given date and time as a recording's stamp.
pub open spec fn compact_timestamp(
    year: i32,
    month: u32,
    day: u32,
    hour: u32,
    minute: u32,
    second: u32,
) -> Option<Seq<char>> {
    chrono_format(year, month, day, hour, minute, second, stamp_format())
}

/// Whether `year` is a leap year of the Gregorian calendar.
pub open spec fn is_leap_year(year: int) -> bool {
    (year % 4 == 0 && year % 100 != 0) || year % 400 == 0
}

/// The number of days of `month` in `year`.
pub open spec fn days_in_month(year: int, month: int) -> int {
    if month == 2 {
        if is_leap_year(year) { 29 } else { 28 }
    } else if month == 4 || month == 6 || month == 9 || month == 11 {
        30
    } else {
        31
    }
}

/// Whether the values name an existing calendar date and time of day.
pub open spec fn is_calendar_time(year: int, month: u32, day: u32, hour: u32, minute: u32, second: u32) -> bool {
    &&& 1 <= month <= 12
    &&& 1 <= day <= days_in_month(year, month as int)
    &&& hour < 24
    &&& minute < 60
    &&& second < 60
}

/// `n` in decimal, padded with leading zeros to `width` characters.
pub open spec fn zero_padded(n: nat, width: nat) -> Seq<char> {
    if decimal(n).len() >= width {
        decimal(n)
    } else {
        Seq::new((width - decimal(n).len()) as nat, |_i: int| '0') + decimal(n)
    }
}

/// `YYYYMMDD_HHMMSS` for a four-digit year.
pub open spec fn stamp_text(year: nat, month: u32, day: u32, hour: u32, minute: u32, second: u32) -> Seq<char> {
    zero_padded(year, 4) + zero_padded(month as nat, 2) + zero_padded(day as nat, 2) + "_"@
        + zero_padded(hour as nat, 2) + zero_padded(minute as nat, 2) + zero_padded(second as nat, 2)
}

/// Calls `chrono::NaiveDate::from_ymd_opt` and `NaiveDate::and_hms_opt` to
/// build the date and time, then renders it with `NaiveDateTime::format`
/// under `fmt`.  Trusted: the result is what chrono gives for these seven
/// values.  For the stamp format `%Y%m%d_%H%M%S` and a year from 0 to 9999,
/// chrono gives a text exactly when the values name an existing date and time
/// of day (`from_ymd_opt` and `from_hms_opt` reject the rest), and that text
/// is the year in four digits and each other field in two, zero-padded
/// (`write_year` and `write_two`).  Other years and other formats are left to
/// `chrono_format`.  Formats are limited to numeric fields, which a date and
/// time can always render, so the rendering cannot fail.
#[verifier::external_body]
fn format_local_time(
    year: i32,
    month: u32,
    day: u32,
    hour: u32,
    minute: u32,
    second: u32,
    fmt: &str,
) -> (r: Option<String>)
    requires
        plain_numeric_format(fmt@),
    ensures
        r.deep_view() == chrono_format(year, month, day, hour, minute, second, fmt@),
        fmt@ == stamp_format() && 0 <= year <= 9999 ==> (r is Some <==> is_calendar_time(
            year as int,
            month,
            day,
            hour,
            minute,
            second,
        )),
        fmt@ == stamp_format() && 0 <= year <= 9999 && r is Some ==> r->0@ == stamp_text(
            year as nat,
            month,
            day,
            hour,
            minute,
            second,
        ),
{
    let date = chrono::NaiveDate::from_ymd_opt(year, month, day)?;
    let moment = date.and_hms_opt(hour, minute, second)?;
    Some(moment.format(fmt).to_string())
}

/// The stamp format has numeric fields only.
proof fn lemma_stamp_format_is_numeric()
    ensures
        plain_numeric_format(stamp_format()),
{
    reveal_strlit("%Y%m%d_%H%M%S");
    let f = stamp_format();
    assert(f.skip(2) =~= seq!['%', 'm', '%', 'd', '_', '%', 'H', '%', 'M', '%', 'S']);
    assert(f.skip(2).skip(2) =~= seq!['%', 'd', '_', '%', 'H', '%', 'M', '%', 'S']);
    assert(f.skip(2).skip(2).skip(2) =~= seq!['_', '%', 'H', '%', 'M', '%', 'S']);
    assert(f.skip(2).skip(2).skip(2).skip(1) =~= seq!['%', 'H', '%', 'M', '%', 'S']);
    assert(f.skip(2).skip(2).skip(2).skip(1).skip(2) =~= seq!['%', 'M', '%', 'S']);
    assert(f.skip(2).skip(2).skip(2).skip(1).skip(2).skip(2) =~= seq!['%', 'S']);
    assert(f.skip(2).skip(2).skip(2).skip(1).skip(2).skip(2).skip(2) =~= Seq::<char>::empty());
    reveal_with_fuel(plain_numeric_format, 8);
}

/// The path that `std::path::Path::with_extension` gives for `path` and
/// `extension` (rendered back as a string), under the path syntax of the
/// platform the crate is built for.
pub uninterp spec fn path_with_extension(path: Seq<char>, extension: Seq<char>) -> Seq<char>;

/// Calls `std::path::Path::with_extension`.  Trusted: the result is that
/// path, rendered as a string; how the file name's extension is found and
/// replaced is left to `path_with_extension`.  An extension holding a path
/// separator makes it panic, so such extensions are excluded.
#[verifier::external_body]
fn with_extension(path: &str, extension: &str) -> (r: String)
    requires
        forall|i: int| 0 <= i < extension@.len() ==> extension@[i] != '/' && extension@[i] != '\\',
    ensures
        r@ == path_with_extension(path@, extension@),
{
    std::path::Path::new(path).with_extension(extension).to_string_lossy().into_owned()
}

/// The path that `std::path::Path::join` gives for `base` and `name`
/// (rendered back as a string), under the path syntax of the platform the
/// crate is built for.
pub uninterp spec fn joined_path(base: Seq<char>, name: Seq<char>) -> Seq<char>;

/// Calls `std::path::Path::join`.  Trusted: the result is that path,
/// rendered as a string; the separator and the handling of absolute names are
/// left to `joined_path`.
#[verifier::external_body]
fn join_path(base: &str, name: &str) -> (r: String)
    ensures
        r@ == joined_path(base@, name@),
{
    std::path::Path::new(base).join(name).to_string_lossy().into_owned()
}

/// The file name of a recording started at the time rendered as `stamp`.
pub open spec fn file_name_for(stamp: Seq<char>) -> Seq<char> {
    "tapeit_"@ + stamp + ".mp4"@
}

/// The name of a recording started at `now`.
pub open spec fn recording_file_name_spec(now: LocalDateTime) -> Option<Seq<char>> {
    match compact_timestamp(now.year, now.month, now.day, now.hour, now.minute, now.second) {
        Some(stamp) => Some(file_name_for(stamp)),
        None => None,
    }
}

/// The path of a recording started at `now` in directory `output_dir`.
pub open spec fn recording_output_path_spec(output_dir: Seq<char>, now: LocalDateTime) -> Option<Seq<char>> {
    match recording_file_name_spec(now) {
        Some(name) => Some(joined_path(output_dir, name)),
        None => None,
    }
}

/// `tapeit_<stamp>.mp4`.
pub fn file_name_for_stamp(stamp: &str) -> (r: String)
    ensures
        r@ == file_name_for(stamp@),
{
    let mut r = String::from_str("tapeit_");
    r.append(stamp);
    r.append(".mp4");
    r
}

/// The file name of a recording started at `now`: for a four-digit year,
/// `tapeit_YYYYMMDD_HHMMSS.mp4` when `now` is an existing date and time of
/// day, and nothing otherwise.
pub fn recording_file_name(now: &LocalDateTime) -> (r: Option<String>)
    ensures
        r.deep_view() == recording_file_name_spec(*now),
        0 <= now.year <= 9999 ==> (r is Some <==> is_calendar_time(
            now.year as int,
            now.month,
            now.day,
            now.hour,
            now.minute,
            now.second,
        )),
        0 <= now.year <= 9999 && r is Some ==> r->0@ == file_name_for(
            stamp_text(now.year as nat, now.month, now.day, now.hour, now.minute, now.second),
        ),
{
    proof {
        lemma_stamp_format_is_numeric();
    }
    match format_local_time(now.year, now.month, now.day, now.hour, now.minute, now.second, "%Y%m%d_%H%M%S") {
        Some(stamp) => Some(file_name_for_stamp(stamp.as_str())),
        None => None,
    }
}

/// The path of a recording started at `now` in `output_dir`.
pub fn recording_output_path(output_dir: &str, now: &LocalDateTime) -> (r: Option<String>)
    ensures
        r.deep_view() == recording_output_path_spec(output_dir@, *now),
{
    match recording_file_name(now) {
        Some(name) => Some(join_path(output_dir, name.as_str())),
        None => None,
    }
}

/// Where the video stream of a recording is written while it may still be
/// muxed with audio.
pub fn temp_video_path(output_path: &str) -> (r: String)
    ensures
        r@ == path_with_extension(output_path@, "tmp.mp4"@),
{
    proof {
        reveal_strlit("tmp.mp4");
    }
    with_extension(output_path, "tmp.mp4")
}

/// Where captured audio is written as WAV before muxing.
pub fn temp_wav_path(output_path: &str) -> (r: String)
    ensures
        r@ == path_with_extension(output_path@, "tmp.wav"@),
{
    proof {
        reveal_strlit("tmp.wav");
    }
    with_extension(output_path, "tmp.wav")
}

/// Where the capture worker has FFmpeg write the video: a temporary file when
/// audio will be muxed in afterwards, the output itself otherwise.
pub fn video_output_path(output_path: &str, has_audio: bool) -> (r: String)
    ensures
        r@ == (if has_audio { path_with_extension(output_path@, "tmp.mp4"@) } else { output_path@ }),
{
    if has_audio {
        temp_video_path(output_path)
    } else {
        String::from_str(output_path)
    }
}

} // verus!
