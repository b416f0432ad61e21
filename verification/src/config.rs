//! Server configuration: storage back end, request logging and the largest
//! accepted file, whose size is written as a number of bytes with an optional
//! `b`/`k`/`m`/`g` suffix.

use vstd::prelude::*;
use crate::text::{
    char_is_ascii_alphabetic, char_to_ascii_lower, chars_of, decimal_digits, is_ascii_alphabetic,
    parse_u64, parse_u64_chars, push_char, push_chars, push_decimal, to_ascii_lower, trim,
    trim_range, lemma_decimal_digits_shape, lemma_parse_u64_decimal_digits, lemma_trim_unchanged,
    is_ascii_digit, all_whitespace, lemma_trim_push, lemma_trim_surrounding_ws, to_ascii_upper,
    trim_start, is_whitespace,
};

verus! {

pub const KIB: u64 = 1024;

pub const MIB: u64 = 1048576;

pub const GIB: u64 = 1073741824;

/// Configuration of the local-disk storage back end.
#[derive(Debug)]
pub struct LocalStorageConfig {
    /// The root directory of the local storage
    pub path: String,
}

impl Default for LocalStorageConfig {
    fn default() -> (r: Self)
        ensures
            r.path@ == "./storage"@,
    {
        LocalStorageConfig { path: String::from_str("./storage") }
    }
}

/// Configuration of the S3 storage back end.
#[derive(Debug)]
pub struct S3StorageConfig {
    pub bucket: String,
    pub region: Option<String>,
    pub endpoint_url: Option<String>,
}

impl Default for S3StorageConfig {
    fn default() -> (r: Self)
        ensures
            r.bucket@ == "sync-server"@,
            r.region is None,
            r.endpoint_url is None,
    {
        S3StorageConfig { bucket: String::from_str("sync-server"), region: None, endpoint_url: None }
    }
}

/// Why S3 storage cannot be reached with the configured settings.
#[derive(Clone, Copy, Debug, PartialEq, Eq, Structural)]
pub enum S3ConfigError {
    /// `endpoint_url` must be given when using S3.
    MissingEndpointUrl,
    /// `region` must be given when using S3.
    MissingRegion,
}

impl S3StorageConfig {
    /// The endpoint and region to reach the bucket with; both must be
    /// configured, and a missing endpoint is reported first.
    pub fn connection_settings(&self) -> (r: Result<(String, String), S3ConfigError>)
        ensures
            match (self.endpoint_url, self.region) {
                (None, _) => r == Err::<(String, String), S3ConfigError>(
                    S3ConfigError::MissingEndpointUrl,
                ),
                (Some(_), None) => r == Err::<(String, String), S3ConfigError>(
                    S3ConfigError::MissingRegion,
                ),
                (Some(e), Some(g)) => r matches Ok((e2, g2)) && e2@ == e@ && g2@ == g@,
            },
    {
        let endpoint = match &self.endpoint_url {
            None => return Err(S3ConfigError::MissingEndpointUrl),
            Some(e) => String::from_str(e.as_str()),
        };
        let region = match &self.region {
            None => return Err(S3ConfigError::MissingRegion),
            Some(g) => String::from_str(g.as_str()),
        };
        Ok((endpoint, region))
    }
}

/// Where file contents are kept.
#[derive(Debug)]
pub enum StorageBackend {
    Local(LocalStorageConfig),
    S3(S3StorageConfig),
}

impl Default for StorageBackend {
    fn default() -> (r: Self)
        ensures
            r matches StorageBackend::Local(l) && l.path@ == "./storage"@,
    {
        StorageBackend::Local(LocalStorageConfig::default())
    }
}

/// Why a file-size text was refused.
#[derive(Debug, PartialEq, Eq)]
pub enum FileSizeError {
    /// Nothing but white space was given.
    Empty,
    /// The text ends in a letter that is not one of `b`, `k`, `m`, `g`.
    InvalidSuffix(String),
    /// The part before the suffix is not a decimal number that fits in 64 bits.
    InvalidNumber(String),
    /// The number times its unit does not fit in 64 bits; holds the trimmed text.
    Overflow(String),
}

/// The meaning of a [`FileSizeError`] over character sequences.
pub enum FileSizeErrorView {
    Empty,
    InvalidSuffix(Seq<char>),
    InvalidNumber(Seq<char>),
    Overflow(Seq<char>),
}

impl View for FileSizeError {
    type V = FileSizeErrorView;

    open spec fn view(&self) -> FileSizeErrorView {
        match self {
            FileSizeError::Empty => FileSizeErrorView::Empty,
            FileSizeError::InvalidSuffix(s) => FileSizeErrorView::InvalidSuffix(s@),
            FileSizeError::InvalidNumber(s) => FileSizeErrorView::InvalidNumber(s@),
            FileSizeError::Overflow(s) => FileSizeErrorView::Overflow(s@),
        }
    }
}

/// The number of bytes a unit letter stands for, in either case.
pub open spec fn unit_multiplier(c: char) -> Option<u64> {
    let l = to_ascii_lower(c);
    if l == 'b' {
        Some(1)
    } else if l == 'k' {
        Some(KIB)
    } else if l == 'm' {
        Some(MIB)
    } else if l == 'g' {
        Some(GIB)
    } else {
        None
    }
}

/// `number` read as a decimal count of units of `mult` bytes; `whole` is the
/// trimmed text that an overflow reports.
pub open spec fn scaled_size(number: Seq<char>, mult: u64, whole: Seq<char>) -> Result<
    u64,
    FileSizeErrorView,
> {
    match parse_u64(number) {
        None => Err(FileSizeErrorView::InvalidNumber(number)),
        Some(n) => if n * mult <= u64::MAX {
            Ok((n * mult) as u64)
        } else {
            Err(FileSizeErrorView::Overflow(whole))
        },
    }
}

/// What a file-size text means: surrounding white space is ignored; a final
/// ASCII letter is a unit (`b` bytes, `k` KiB, `m` MiB, `g` GiB, any case) and
/// the text before it, trimmed again, is the count; without a final letter the
/// whole text is a count of bytes.
pub open spec fn parse_file_size(s: Seq<char>) -> Result<u64, FileSizeErrorView> {
    let t = trim(s);
    if t.len() == 0 {
        Err(FileSizeErrorView::Empty)
    } else if is_ascii_alphabetic(t.last()) {
        match unit_multiplier(t.last()) {
            None => Err(FileSizeErrorView::InvalidSuffix(seq![t.last()])),
            Some(m) => scaled_size(trim(t.drop_last()), m, t),
        }
    } else {
        scaled_size(t, 1, t)
    }
}

/// The text a size is written as: in the largest of g, m, k that divides it
/// (when the quotient is positive), else a plain count of bytes.
pub open spec fn file_size_text(v: u64) -> Seq<char> {
    if v % GIB == 0 && v / GIB > 0 {
        decimal_digits((v / GIB) as nat).push('g')
    } else if v % MIB == 0 && v / MIB > 0 {
        decimal_digits((v / MIB) as nat).push('m')
    } else if v % KIB == 0 && v / KIB > 0 {
        decimal_digits((v / KIB) as nat).push('k')
    } else {
        decimal_digits(v as nat)
    }
}

/// A byte size that can be read from a number (bytes) or a human-readable
/// string such as `"1k"`, `"1M"`, `"1024k"`, `"1g"` (case-insensitive
/// `b`/`k`/`m`/`g` suffixes; `k`=KiB, `m`=MiB, `g`=GiB).
#[derive(Clone, Copy, Debug, PartialEq, Eq, Structural, PartialOrd, Ord)]
pub struct FileSize(pub u64);

impl Default for FileSize {
    /// 512 KiB.
    fn default() -> (r: Self)
        ensures
            r.0 == 524288,
    {
        FileSize(524288)
    }
}

fn unit_multiplier_of(c: char) -> (r: Option<u64>)
    ensures
        r == unit_multiplier(c),
{
    let l = char_to_ascii_lower(c);
    if l == 'b' {
        Some(1)
    } else if l == 'k' {
        Some(KIB)
    } else if l == 'm' {
        Some(MIB)
    } else if l == 'g' {
        Some(GIB)
    } else {
        None
    }
}

fn string_of_range(chars: &Vec<char>, from: usize, to: usize) -> (s: String)
    requires
        from <= to <= chars.len(),
    ensures
        s@ == chars@.subrange(from as int, to as int),
{
    let mut s = String::new();
    push_chars(&mut s, chars, from, to);
    s
}

/// The count in `chars[from..to]` times `mult`; `whole` bounds the trimmed text.
fn scale_range(chars: &Vec<char>, from: usize, to: usize, mult: u64, whole_from: usize, whole_to: usize) -> (r: Result<u64, FileSizeError>)
    requires
        from <= to <= chars.len(),
        whole_from <= whole_to <= chars.len(),
    ensures
        match r {
            Ok(v) => scaled_size(chars@.subrange(from as int, to as int), mult, chars@.subrange(whole_from as int, whole_to as int)) == Ok::<u64, FileSizeErrorView>(v),
            Err(e) => scaled_size(chars@.subrange(from as int, to as int), mult, chars@.subrange(whole_from as int, whole_to as int)) == Err::<u64, FileSizeErrorView>(e@),
        },
{
    match parse_u64_chars(chars, from, to) {
        None => Err(FileSizeError::InvalidNumber(string_of_range(chars, from, to))),
        Some(n) => match n.checked_mul(mult) {
            Some(v) => Ok(v),
            None => Err(FileSizeError::Overflow(string_of_range(chars, whole_from, whole_to))),
        },
    }
}

impl FileSize {
    /// Reads a size written as a count of bytes, or of `b`/`k`/`m`/`g` units.
    pub fn parse(s: &str) -> (r: Result<FileSize, FileSizeError>)
        ensures
            match r {
                Ok(fs) => parse_file_size(s@) == Ok::<u64, FileSizeErrorView>(fs.0),
                Err(e) => parse_file_size(s@) == Err::<u64, FileSizeErrorView>(e@),
            },
    {
        let chars = chars_of(s);
        let (a, b) = trim_range(&chars, 0, chars.len());
        assert(chars@.subrange(0, chars@.len() as int) == s@);
        let ghost t = chars@.subrange(a as int, b as int);
        if a == b {
            return Err(FileSizeError::Empty);
        }
        let last = chars[b - 1];
        assert(t.last() == last);
        let r = if char_is_ascii_alphabetic(last) {
            match unit_multiplier_of(last) {
                None => {
                    let mut suffix = String::new();
                    push_char(&mut suffix, last);
                    assert(suffix@ == seq![last]);
                    Err(FileSizeError::InvalidSuffix(suffix))
                },
                Some(m) => {
                    let (na, nb) = trim_range(&chars, a, b - 1);
                    assert(t.drop_last() == chars@.subrange(a as int, b - 1));
                    scale_range(&chars, na, nb, m, a, b)
                },
            }
        } else {
            scale_range(&chars, a, b, 1, a, b)
        };
        match r {
            Ok(v) => Ok(FileSize(v)),
            Err(e) => Err(e),
        }
    }

    /// Writes the size in the largest of `g`, `m`, `k` that divides it, else
    /// as a plain count of bytes.
    pub fn to_human(&self) -> (r: String)
        ensures
            r@ == file_size_text(self.0),
            self.0 > 0 && self.0 % GIB == 0 ==> r@ == decimal_digits((self.0 / GIB) as nat).push(
                'g',
            ),
            self.0 > 0 && self.0 % MIB == 0 && self.0 % GIB != 0 ==> r@ == decimal_digits(
                (self.0 / MIB) as nat,
            ).push('m'),
            self.0 > 0 && self.0 % KIB == 0 && self.0 % MIB != 0 ==> r@ == decimal_digits(
                (self.0 / KIB) as nat,
            ).push('k'),
            self.0 == 0 || self.0 % KIB != 0 ==> r@ == decimal_digits(self.0 as nat),
    {
        let v = self.0;
        let mut out = String::new();
        if v % GIB == 0 && v / GIB > 0 {
            push_decimal(&mut out, v / GIB);
            push_char(&mut out, 'g');
        } else if v % MIB == 0 && v / MIB > 0 {
            push_decimal(&mut out, v / MIB);
            push_char(&mut out, 'm');
        } else if v % KIB == 0 && v / KIB > 0 {
            push_decimal(&mut out, v / KIB);
            push_char(&mut out, 'k');
        } else {
            push_decimal(&mut out, v);
        }
        out
    }
}

/// The whole server configuration.
#[derive(Debug)]
pub struct Config {
    pub log_http_requests: bool,
    pub max_file_size: FileSize,
    pub storage_backend: StorageBackend,
}

impl Default for Config {
    /// No request logging, files up to 512 KiB, local storage in `./storage`.
    fn default() -> (r: Self)
        ensures
            !r.log_http_requests,
            r.max_file_size.0 == 524288,
            r.storage_backend matches StorageBackend::Local(l) && l.path@ == "./storage"@,
    {
        Config {
            log_http_requests: false,
            max_file_size: FileSize::default(),
            storage_backend: StorageBackend::default(),
        }
    }
}

proof fn lemma_unit_text(q: u64, unit: char, mult: u64)
    requires
        q >= 1,
        q * mult <= u64::MAX,
        unit == 'g' || unit == 'm' || unit == 'k',
        unit_multiplier(unit) == Some(mult),
    ensures
        parse_file_size(decimal_digits(q as nat).push(unit)) == Ok::<u64, FileSizeErrorView>(
            (q * mult) as u64,
        ),
{
    let d = decimal_digits(q as nat);
    lemma_decimal_digits_shape(q as nat);
    lemma_parse_u64_decimal_digits(q);
    let s = d.push(unit);
    assert(is_ascii_digit(d[0]));
    assert(is_ascii_digit(d.last()));
    assert(s[0] == d[0]);
    lemma_trim_unchanged(s);
    assert(s.drop_last() == d);
    lemma_trim_unchanged(d);
}

/// A size written by [`FileSize::to_human`] reads back through
/// [`FileSize::parse`] as the same size.
pub proof fn lemma_file_size_round_trip(v: u64)
    ensures
        parse_file_size(file_size_text(v)) == Ok::<u64, FileSizeErrorView>(v),
{
    if v % GIB == 0 && v / GIB > 0 {
        lemma_unit_text(v / GIB, 'g', GIB);
    } else if v % MIB == 0 && v / MIB > 0 {
        lemma_unit_text(v / MIB, 'm', MIB);
    } else if v % KIB == 0 && v / KIB > 0 {
        lemma_unit_text(v / KIB, 'k', KIB);
    } else {
        let d = decimal_digits(v as nat);
        lemma_decimal_digits_shape(v as nat);
        lemma_parse_u64_decimal_digits(v);
        assert(is_ascii_digit(d[0]));
        assert(is_ascii_digit(d.last()));
        lemma_trim_unchanged(d);
    }
}

/// White space around a file-size text is ignored: the text padded with
/// white space on either side reads exactly as the text itself.
pub proof fn lemma_file_size_ignores_surrounding_ws(a: Seq<char>, s: Seq<char>, b: Seq<char>)
    requires
        all_whitespace(a),
        all_whitespace(b),
    ensures
        parse_file_size(a + s + b) == parse_file_size(s),
{
    lemma_trim_surrounding_ws(a, s, b);
}

/// The case of a unit letter never changes the outcome: a count followed by
/// `b`, `k`, `m` or `g` reads as the same count followed by the upper-case
/// letter, except that an overflow reports the trimmed text as written.
pub proof fn lemma_unit_case_ignored(num: Seq<char>, c: char)
    requires
        c == 'b' || c == 'k' || c == 'm' || c == 'g',
    ensures
        match parse_file_size(num.push(c)) {
            Ok(v) => parse_file_size(num.push(to_ascii_upper(c))) == Ok::<u64, FileSizeErrorView>(v),
            Err(FileSizeErrorView::Overflow(w)) => parse_file_size(num.push(to_ascii_upper(c)))
                == Err::<u64, FileSizeErrorView>(
                FileSizeErrorView::Overflow(w.update(w.len() - 1, to_ascii_upper(c))),
            ),
            Err(e) => parse_file_size(num.push(to_ascii_upper(c))) == Err::<u64, FileSizeErrorView>(e),
        },
{
    let u = to_ascii_upper(c);
    assert(is_ascii_alphabetic(c) && is_ascii_alphabetic(u));
    assert(to_ascii_lower(u) == c);
    assert(!is_whitespace(c) && !is_whitespace(u));
    lemma_trim_push(num, c);
    lemma_trim_push(num, u);
    let t1 = trim_start(num).push(c);
    let t2 = trim_start(num).push(u);
    assert(t1.drop_last() == trim_start(num));
    assert(t2.drop_last() == trim_start(num));
    assert(t1.update(t1.len() - 1, u) == t2);
    assert(unit_multiplier(c) == unit_multiplier(u));
}

/// A count followed by the unit `b` reads as that many bytes, as the count
/// alone does.
pub proof fn lemma_byte_suffix(n: u64)
    ensures
        parse_file_size(decimal_digits(n as nat).push('b')) == Ok::<u64, FileSizeErrorView>(n),
        parse_file_size(decimal_digits(n as nat)) == Ok::<u64, FileSizeErrorView>(n),
{
    let d = decimal_digits(n as nat);
    lemma_decimal_digits_shape(n as nat);
    lemma_parse_u64_decimal_digits(n);
    assert(is_ascii_digit(d[0]));
    assert(is_ascii_digit(d.last()));
    lemma_trim_unchanged(d);
    let s = d.push('b');
    assert(s[0] == d[0]);
    lemma_trim_unchanged(s);
    assert(s.drop_last() == d);
}

/// How a size is written: a positive size is written in the largest of
/// `g`, `m`, `k` that divides it, as the quotient in decimal followed by the
/// unit letter; zero and sizes that are not a whole number of KiB are
/// written as a plain count of bytes.
pub proof fn lemma_file_size_text_largest_unit(v: u64)
    ensures
        v > 0 && v % GIB == 0 ==> file_size_text(v) == decimal_digits((v / GIB) as nat).push('g'),
        v > 0 && v % MIB == 0 && v % GIB != 0 ==> file_size_text(v) == decimal_digits(
            (v / MIB) as nat,
        ).push('m'),
        v > 0 && v % KIB == 0 && v % MIB != 0 ==> file_size_text(v) == decimal_digits(
            (v / KIB) as nat,
        ).push('k'),
        v == 0 || v % KIB != 0 ==> file_size_text(v) == decimal_digits(v as nat),
{
}

} // verus!
