//! Model downloads: where a model comes from and goes to, how far a download got, and what
//! counts as a usable model file.
use vstd::prelude::*;

use crate::config::{model_filename, model_path_for, model_path_for_size, ModelSize};
use crate::insertion::string_views;
use crate::text::{
    copy_string, decimal, decimal_string, str_concat3, chars_of, index_of, index_of_char, is_ascii_digit, lines, lower_all, lower_chars, split_chars,
    split_lines, split_on, starts_with, starts_with_chars, str_concat, trim, trim_chars, views,
};

verus! {

/// Where models are downloaded from.
pub const MODEL_BASE_URL: &'static str = "https://huggingface.co/ggerganov/whisper.cpp/resolve/main/";

/// A model file larger than this many bytes counts as installed.
pub const INSTALLED_MODEL_MIN_BYTES: u64 = 1000;

/// A download smaller than this many bytes is taken for a network error.
pub const VALID_MODEL_MIN_BYTES: u64 = 1000000;

/// How far a download got.
#[derive(Debug, Clone)]
pub struct DownloadProgress {
    pub bytes_downloaded: u64,
    pub total_bytes: Option<u64>,
}

/// Where the model of size `size` is downloaded from.
pub fn model_url(size: ModelSize) -> (r: String)
    ensures
        r@ == MODEL_BASE_URL@ + model_filename(size),
{
    str_concat(MODEL_BASE_URL, size.filename())
}

/// Where a download of the model of size `size` is kept until it is complete: the model's own
/// path with `.part` added.
pub fn partial_model_path(size: ModelSize) -> (r: String)
    ensures
        exists|b: Option<Seq<char>>| r@ == model_path_for(b, size) + ".part"@,
{
    let path = model_path_for_size(size);
    str_concat(path.as_str(), ".part")
}

/// Whether a model file of `len` bytes counts as installed.
pub fn model_file_installed(len: u64) -> (r: bool)
    ensures
        r == (len > INSTALLED_MODEL_MIN_BYTES),
{
    len > INSTALLED_MODEL_MIN_BYTES
}

/// Whether a finished download of `len` bytes is large enough to be a model.
pub fn download_large_enough(len: u64) -> (r: bool)
    ensures
        r == (len >= VALID_MODEL_MIN_BYTES),
{
    len >= VALID_MODEL_MIN_BYTES
}

/// The number the decimal digits `s` spell.
pub open spec fn digits_value(s: Seq<char>) -> nat
    decreases s.len(),
{
    if s.len() == 0 {
        0
    } else {
        digits_value(s.drop_last()) * 10 + ((s.last() as u32) - 48) as nat
    }
}

/// `s` without one leading `+`.
pub open spec fn without_plus(s: Seq<char>) -> Seq<char> {
    if s.len() > 0 && s[0] == '+' {
        s.drop_first()
    } else {
        s
    }
}

/// Whether `d` is one or more ASCII digits.
pub open spec fn all_digits(d: Seq<char>) -> bool {
    d.len() > 0 && forall|k: int| 0 <= k < d.len() ==> is_ascii_digit(#[trigger] d[k])
}

/// What `str::parse::<u64>` gives: an optional `+` and then one or more ASCII digits whose
/// value fits in 64 bits.
pub open spec fn parse_u64_of(s: Seq<char>) -> Option<u64> {
    let d = without_plus(s);
    if all_digits(d) && digits_value(d) <= u64::MAX {
        Some(digits_value(d) as u64)
    } else {
        None
    }
}

/// The value of a run of digits does not shrink when more digits follow.
pub proof fn lemma_digits_value_grows(s: Seq<char>, i: int)
    requires
        0 <= i <= s.len(),
        forall|k: int| 0 <= k < s.len() ==> is_ascii_digit(#[trigger] s[k]),
    ensures
        digits_value(s.take(i)) <= digits_value(s),
    decreases s.len() - i,
{
    if i < s.len() {
        lemma_digits_value_grows(s, i + 1);
        assert(s.take(i + 1).drop_last() =~= s.take(i));
    } else {
        assert(s.take(i) =~= s);
    }
}

/// The value of `s` as `str::parse::<u64>` reads it.
pub fn parse_u64(s: &Vec<char>) -> (r: Option<u64>)
    ensures
        r == parse_u64_of(s@),
{
    let start: usize = if s.len() > 0 && s[0] == '+' {
        1
    } else {
        0
    };
    let ghost d = without_plus(s@);
    assert(d =~= s@.skip(start as int));
    if start >= s.len() {
        return None;
    }
    let mut value: u64 = 0;
    let mut i: usize = start;
    while i < s.len()
        invariant
            start <= i <= s@.len(),
            d == s@.skip(start as int),
            d == without_plus(s@),
            forall|k: int| 0 <= k < i - start ==> is_ascii_digit(#[trigger] d[k]),
            value as nat == digits_value(d.take(i - start)),
        decreases s@.len() - i,
    {
        let c = s[i];
        assert(d[i - start] == c);
        let code: u32 = c as u32;
        if !(48 <= code && code <= 57) {
            assert(!is_ascii_digit(d[i - start]));
            assert(!all_digits(d));
            return None;
        }
        let digit: u64 = (code - 48) as u64;
        proof {
            assert(d.take(i - start + 1).drop_last() =~= d.take(i - start));
            assert(d.take(i - start + 1).last() == c);
        }
        let next = value.checked_mul(10);
        if next.is_none() {
            proof {
                assert(value * 10 > u64::MAX);
                assert(digits_value(d.take(i - start + 1)) == value * 10 + digit);
                if all_digits(d) {
                    lemma_digits_value_grows(d, i - start + 1);
                }
            }
            return None;
        }
        let next = next.unwrap().checked_add(digit);
        if next.is_none() {
            proof {
                if all_digits(d) {
                    lemma_digits_value_grows(d, i - start + 1);
                }
            }
            return None;
        }
        value = next.unwrap();
        i = i + 1;
    }
    assert(d.take(i - start) =~= d);
    Some(value)
}

/// The content length that the first `Content-Length:` header line (any ASCII case) among
/// `ls` gives: the text between its first and second colon, trimmed, read as a number.
pub open spec fn first_content_length(ls: Seq<Seq<char>>) -> Option<u64>
    decreases ls.len(),
{
    if ls.len() == 0 {
        None
    } else if starts_with(lower_all(ls[0]), "content-length:"@) {
        let pieces = split_on(ls[0], ":"@);
        if pieces.len() >= 2 {
            parse_u64_of(trim(pieces[1]))
        } else {
            None
        }
    } else {
        first_content_length(ls.drop_first())
    }
}

/// The content length in the headers `curl -sI` printed, if the first content-length header
/// holds a number.
pub fn parse_content_length(headers: &str) -> (r: Option<u64>)
    ensures
        r == first_content_length(lines(headers@)),
{
    let s = chars_of(headers);
    let ls = split_lines(&s);
    let ghost all = views(ls@);
    let prefix = chars_of("content-length:");
    let colon = chars_of(":");
    proof {
        reveal_strlit(":");
    }
    let mut i: usize = 0;
    assert(all.skip(0) =~= all);
    while i < ls.len()
        invariant
            i <= ls@.len(),
            all == views(ls@),
            all == lines(headers@),
            prefix@ == "content-length:"@,
            colon@ == ":"@,
            colon@.len() == 1,
            first_content_length(all) == first_content_length(all.skip(i as int)),
        decreases ls@.len() - i,
    {
        let line = &ls[i];
        proof {
            assert(all.skip(i as int)[0] == ls@[i as int]@);
            assert(all.skip(i as int).drop_first() =~= all.skip(i + 1));
        }
        let lower = lower_chars(line);
        if starts_with_chars(&lower, &prefix) {
            let pieces = split_chars(line, &colon);
            if pieces.len() < 2 {
                return None;
            }
            let value = trim_chars(&pieces[1]);
            return parse_u64(&value);
        }
        i = i + 1;
    }
    None
}


/// The `curl` arguments that download `url` into `part_path`, following redirects, resuming a
/// partial file, failing on HTTP errors and retrying transient failures.
pub open spec fn download_args_for(part_path: Seq<char>, url: Seq<char>) -> Seq<Seq<char>> {
    seq![
        "-L"@,
        "-C"@,
        "-"@,
        "--silent"@,
        "--show-error"@,
        "--fail"@,
        "--retry"@,
        "3"@,
        "--retry-delay"@,
        "2"@,
        "-o"@,
        part_path,
        url,
    ]
}

/// The `curl` arguments that download `url` into `part_path`.
pub fn download_args(part_path: &str, url: &str) -> (r: Vec<String>)
    ensures
        string_views(r@) == download_args_for(part_path@, url@),
{
    let mut a: Vec<String> = Vec::new();
    a.push(copy_string("-L"));
    a.push(copy_string("-C"));
    a.push(copy_string("-"));
    a.push(copy_string("--silent"));
    a.push(copy_string("--show-error"));
    a.push(copy_string("--fail"));
    a.push(copy_string("--retry"));
    a.push(copy_string("3"));
    a.push(copy_string("--retry-delay"));
    a.push(copy_string("2"));
    a.push(copy_string("-o"));
    a.push(copy_string(part_path));
    a.push(copy_string(url));
    proof {
        assert(string_views(a@) =~= download_args_for(part_path@, url@));
    }
    a
}

/// The `curl` arguments that ask for the headers of `url`.
pub fn content_length_args(url: &str) -> (r: Vec<String>)
    ensures
        string_views(r@) == seq!["-sI"@, "--max-time"@, "10"@, url@],
{
    let mut a: Vec<String> = Vec::new();
    a.push(copy_string("-sI"));
    a.push(copy_string("--max-time"));
    a.push(copy_string("10"));
    a.push(copy_string(url));
    proof {
        assert(string_views(a@) =~= seq!["-sI"@, "--max-time"@, "10"@, url@]);
    }
    a
}

/// What one poll of a running download decides.
#[derive(Debug, Clone, Copy, PartialEq, Eq, Structural)]
pub enum DownloadTick {
    /// The user canceled: stop `curl` and give up.
    Canceled,
    /// `curl` finished successfully.
    Finished,
    /// `curl` failed.
    Failed,
    /// `curl` is still running: report progress and poll again.
    Running,
}

/// What one poll decides, given whether the user asked to cancel and how `curl` exited
/// (`None` while it runs, otherwise whether it succeeded). Canceling wins.
pub fn download_tick(should_cancel: bool, exit_status: Option<bool>) -> (r: DownloadTick)
    ensures
        should_cancel ==> r == DownloadTick::Canceled,
        !should_cancel ==> r == match exit_status {
            None => DownloadTick::Running,
            Some(true) => DownloadTick::Finished,
            Some(false) => DownloadTick::Failed,
        },
{
    if should_cancel {
        return DownloadTick::Canceled;
    }
    match exit_status {
        None => DownloadTick::Running,
        Some(true) => DownloadTick::Finished,
        Some(false) => DownloadTick::Failed,
    }
}

/// The error a download that ended with `tick` reports.
pub open spec fn tick_error_text(tick: DownloadTick) -> Seq<char> {
    match tick {
        DownloadTick::Canceled => "download canceled"@,
        _ => "download failed — check your internet connection and try again"@,
    }
}

/// The error for a download that was canceled or failed.
pub fn download_tick_error(tick: DownloadTick) -> (r: String)
    requires
        tick == DownloadTick::Canceled || tick == DownloadTick::Failed,
    ensures
        r@ == tick_error_text(tick),
{
    match tick {
        DownloadTick::Canceled => copy_string("download canceled"),
        _ => copy_string("download failed — check your internet connection and try again"),
    }
}

/// Whether a finished download of `len` bytes is kept: it is refused, and its file removed, when
/// it is too small to be a model.
pub fn check_download_size(len: u64) -> (r: Result<(), String>)
    ensures
        len >= VALID_MODEL_MIN_BYTES <==> r is Ok,
        r matches Err(m) ==> m@ == "downloaded file is too small ("@ + decimal(len as nat)
            + " bytes) — likely a network error"@,
{
    if len >= VALID_MODEL_MIN_BYTES {
        Ok(())
    } else {
        let n = decimal_string(len);
        Err(str_concat3("downloaded file is too small (", n.as_str(), " bytes) — likely a network error"))
    }
}

} // verus!
