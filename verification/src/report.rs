//! The text the server writes about finished reconstructions: the lines of
//! its CSV report and the names of the saved images.

use vstd::prelude::*;
use vstd::string::*;

use crate::text::{decimal, digit_char, push_decimal_usize, push_signed_decimal, signed_decimal};

verus! {

/// The lowercase hexadecimal digit of `d` (below 16).
pub open spec fn hex_char(d: nat) -> char {
    if d < 10 {
        digit_char(d)
    } else if d == 10 {
        'a'
    } else if d == 11 {
        'b'
    } else if d == 12 {
        'c'
    } else if d == 13 {
        'd'
    } else if d == 14 {
        'e'
    } else {
        'f'
    }
}

/// The last `n` hexadecimal digits of `v`, most significant first, with
/// leading zeros.
pub open spec fn hex_digits(v: nat, n: nat) -> Seq<char>
    decreases n,
{
    if n == 0 {
        seq![]
    } else {
        hex_digits(v / 16, (n - 1) as nat).push(hex_char(v % 16))
    }
}

/// The hyphenated lowercase form of a UUID whose 128 bits, read big-endian,
/// are `v`: 32 hexadecimal digits in groups of 8, 4, 4, 4 and 12.
pub open spec fn hyphenated_uuid(v: nat) -> Seq<char> {
    let d = hex_digits(v, 32);
    d.subrange(0, 8) + seq!['-'] + d.subrange(8, 12) + seq!['-'] + d.subrange(12, 16) + seq!['-']
        + d.subrange(16, 20) + seq!['-'] + d.subrange(20, 32)
}

/// The text of `uuid::Uuid::from_u128(value)` as its `Display` impl writes
/// it. The contract claims that this is the hyphenated lowercase form, as
/// the crate's formatter writes it from the big-endian bytes of `value`.
#[verifier::external_body]
fn uuid_text(value: u128) -> (s: String)
    ensures
        s@ == hyphenated_uuid(value as nat),
{
    uuid::Uuid::from_u128(value).to_string()
}

/// What `chrono::DateTime::to_rfc3339` writes for the UTC instant that
/// `chrono::DateTime::from_timestamp(secs, nanos)` builds, or `None` where
/// that instant is out of chrono's range.
pub uninterp spec fn chrono_rfc3339(secs: i64, nanos: u32) -> Option<Seq<char>>;

/// `chrono::DateTime::from_timestamp(secs, nanos)` written by
/// `DateTime::to_rfc3339`. The contract only ties the text, or its absence
/// when `from_timestamp` returns `None`, to the name `chrono_rfc3339`; the
/// calendar arithmetic of the format is left unsaid.
#[verifier::external_body]
fn rfc3339_text(secs: i64, nanos: u32) -> (r: Option<String>)
    ensures
        match r {
            Some(s) => chrono_rfc3339(secs, nanos) == Some(s@),
            None => chrono_rfc3339(secs, nanos) is None,
        },
{
    match chrono::DateTime::from_timestamp(secs, nanos) {
        Some(t) => Some(t.to_rfc3339()),
        None => None,
    }
}

/// A finished reconstruction as the report records it. Instants are UTC
/// Unix timestamps: whole seconds and the nanoseconds past them.
#[derive(Debug)]
pub struct ReportRecord {
    pub user_id: u128,
    pub algorithm_id: String,
    pub start_secs: i64,
    pub start_nanos: u32,
    pub end_secs: i64,
    pub end_nanos: u32,
    pub reconstruction_time_ms: i64,
    pub image_pixels: (usize, usize),
    pub iterations: usize,
}

/// The report line of `rec` with its start and end instants written as
/// `start` and `end`:
/// `user_id,algorithm_id,start,end,ms,"(height,width)",iterations,image_filename`.
pub open spec fn report_line_of(
    rec: ReportRecord,
    start: Seq<char>,
    end: Seq<char>,
    image_filename: Seq<char>,
) -> Seq<char> {
    hyphenated_uuid(rec.user_id as nat) + seq![','] + rec.algorithm_id@ + seq![','] + start + seq![',']
        + end + seq![','] + signed_decimal(rec.reconstruction_time_ms as int) + seq![',', '"', '(']
        + decimal(rec.image_pixels.0 as nat) + seq![','] + decimal(rec.image_pixels.1 as nat) + seq![
        ')',
        '"',
        ',',
    ] + decimal(rec.iterations as nat) + seq![','] + image_filename
}

/// `s` holds no comma.
pub open spec fn comma_free(s: Seq<char>) -> bool {
    forall|j: int| 0 <= j < s.len() ==> #[trigger] s[j] != ','
}

proof fn lemma_hex_digits_shape(v: nat, n: nat)
    ensures
        hex_digits(v, n).len() == n,
        comma_free(hex_digits(v, n)),
    decreases n,
{
    if n > 0 {
        lemma_hex_digits_shape(v / 16, (n - 1) as nat);
        let d = hex_digits(v / 16, (n - 1) as nat);
        assert forall|j: int| 0 <= j < d.push(hex_char(v % 16)).len() implies #[trigger] d.push(
            hex_char(v % 16),
        )[j] != ',' by {
            if j < d.len() {
                assert(d[j] != ',');
            }
        }
    }
}

/// The text of a UUID is 36 characters long and holds no comma, so it is
/// exactly the first field of a report line.
pub proof fn lemma_uuid_text_shape(v: nat)
    ensures
        hyphenated_uuid(v).len() == 36,
        comma_free(hyphenated_uuid(v)),
{
    lemma_hex_digits_shape(v, 32);
    let d = hex_digits(v, 32);
    let u = hyphenated_uuid(v);
    assert forall|j: int| 0 <= j < u.len() implies #[trigger] u[j] != ',' by {
        if j < 8 {
            assert(u[j] == d[j]);
        } else if j == 8 || j == 13 || j == 18 || j == 23 {
        } else if j < 13 {
            assert(u[j] == d[j - 1]);
        } else if j < 18 {
            assert(u[j] == d[j - 2]);
        } else if j < 23 {
            assert(u[j] == d[j - 3]);
        } else {
            assert(u[j] == d[j - 4]);
        }
    }
}

/// The fields of a report line lie where the format puts them: the UUID
/// text up to the first comma, then the record's algorithm id up to the
/// second comma (for an id without commas, that is exactly the second
/// field), then the start instant and, after the next comma, the end
/// instant.
pub proof fn lemma_report_line_fields(
    rec: ReportRecord,
    start: Seq<char>,
    end: Seq<char>,
    image_filename: Seq<char>,
)
    ensures
        ({
            let line = report_line_of(rec, start, end, image_filename);
            let a = rec.algorithm_id@.len() as int;
            let sl = start.len() as int;
            let el = end.len() as int;
            &&& line.subrange(0, 36) == hyphenated_uuid(rec.user_id as nat)
            &&& comma_free(line.subrange(0, 36))
            &&& line[36] == ','
            &&& line.subrange(37, 37 + a) == rec.algorithm_id@
            &&& line[37 + a] == ','
            &&& line.subrange(38 + a, 38 + a + sl) == start
            &&& line[38 + a + sl] == ','
            &&& line.subrange(39 + a + sl, 39 + a + sl + el) == end
            &&& line[39 + a + sl + el] == ','
        }),
{
    lemma_uuid_text_shape(rec.user_id as nat);
    let line = report_line_of(rec, start, end, image_filename);
    let u = hyphenated_uuid(rec.user_id as nat);
    let a = rec.algorithm_id@.len() as int;
    let sl = start.len() as int;
    let el = end.len() as int;
    let head = u + seq![','] + rec.algorithm_id@ + seq![','] + start + seq![','] + end + seq![','];
    let tail = signed_decimal(rec.reconstruction_time_ms as int) + seq![',', '"', '(']
        + decimal(rec.image_pixels.0 as nat) + seq![','] + decimal(rec.image_pixels.1 as nat) + seq![
        ')',
        '"',
        ',',
    ] + decimal(rec.iterations as nat) + seq![','] + image_filename;
    assert(line =~= head + tail);
    assert(line.subrange(0, 36) =~= u);
    assert(line.subrange(37, 37 + a) =~= rec.algorithm_id@);
    assert(line.subrange(38 + a, 38 + a + sl) =~= start);
    assert(line.subrange(39 + a + sl, 39 + a + sl + el) =~= end);
}

/// The first line of the report file, naming its columns.
pub fn report_header() -> (h: String)
    ensures
        h@ == "user_id,algorithm_id,start_time,end_time,reconstruction_ms,image_pixels,iterations,image_filename"@,
{
    let mut h = String::new();
    h.append(
        "user_id,algorithm_id,start_time,end_time,reconstruction_ms,image_pixels,iterations,image_filename",
    );
    h
}

/// The header is written when the report file does not exist yet or is
/// empty.
pub fn needs_report_header(file_exists: bool, file_len: u64) -> (r: bool)
    ensures
        r == (!file_exists || file_len == 0),
{
    !file_exists || file_len == 0
}

/// The report line of a finished reconstruction, or `None` when one of its
/// instants lies outside the range of dates chrono writes.
pub fn report_line(rec: &ReportRecord, image_filename: &str) -> (r: Option<String>)
    ensures
        match r {
            Some(line) => {
                &&& chrono_rfc3339(rec.start_secs, rec.start_nanos) is Some
                &&& chrono_rfc3339(rec.end_secs, rec.end_nanos) is Some
                &&& line@ == report_line_of(
                    *rec,
                    chrono_rfc3339(rec.start_secs, rec.start_nanos).unwrap(),
                    chrono_rfc3339(rec.end_secs, rec.end_nanos).unwrap(),
                    image_filename@,
                )
            },
            None => chrono_rfc3339(rec.start_secs, rec.start_nanos) is None || chrono_rfc3339(
                rec.end_secs,
                rec.end_nanos,
            ) is None,
        },
        r matches Some(line) ==> {
            &&& comma_free(line@.subrange(0, 36))
            &&& line@[36] == ','
            &&& line@.subrange(37, 37 + rec.algorithm_id@.len() as int) == rec.algorithm_id@
            &&& line@[37 + rec.algorithm_id@.len() as int] == ','
        },
{
    let start = match rfc3339_text(rec.start_secs, rec.start_nanos) {
        Some(s) => s,
        None => return None,
    };
    let end = match rfc3339_text(rec.end_secs, rec.end_nanos) {
        Some(s) => s,
        None => return None,
    };
    proof {
        reveal_strlit(",");
        reveal_strlit(",\"(");
        reveal_strlit(")\",");
    }
    let mut line = uuid_text(rec.user_id);
    line.append(",");
    line.append(rec.algorithm_id.as_str());
    line.append(",");
    line.append(start.as_str());
    line.append(",");
    line.append(end.as_str());
    line.append(",");
    push_signed_decimal(&mut line, rec.reconstruction_time_ms);
    line.append(",\"(");
    push_decimal_usize(&mut line, rec.image_pixels.0);
    line.append(",");
    push_decimal_usize(&mut line, rec.image_pixels.1);
    line.append(")\",");
    push_decimal_usize(&mut line, rec.iterations);
    line.append(",");
    line.append(image_filename);
    assert(line@ =~= report_line_of(*rec, start@, end@, image_filename@));
    proof {
        lemma_report_line_fields(*rec, start@, end@, image_filename@);
    }
    Some(line)
}

/// The image name the report records: the saved file's name, or
/// `save_failed` when the image could not be saved.
pub fn recorded_image_name(saved: Option<String>) -> (name: String)
    ensures
        match saved {
            Some(n) => name@ == n@,
            None => name@ == seq!['s', 'a', 'v', 'e', '_', 'f', 'a', 'i', 'l', 'e', 'd'],
        },
{
    match saved {
        Some(n) => n,
        None => {
            proof {
                reveal_strlit("save_failed");
            }
            let mut name = String::new();
            name.append("save_failed");
            assert(name@ =~= seq!['s', 'a', 'v', 'e', '_', 'f', 'a', 'i', 'l', 'e', 'd']);
            name
        },
    }
}

/// The name of a saved image: `img_<user_id>_<algorithm_id>_<end>.png`,
/// with the end of the reconstruction as a Unix timestamp in seconds.
pub open spec fn image_file_name_of(user_id: u128, algorithm_id: Seq<char>, end_secs: i64) -> Seq<char> {
    seq!['i', 'm', 'g', '_'] + hyphenated_uuid(user_id as nat) + seq!['_'] + algorithm_id + seq!['_']
        + signed_decimal(end_secs as int) + seq!['.', 'p', 'n', 'g']
}

/// The file name under which the reconstructed image is saved.
pub fn image_file_name(user_id: u128, algorithm_id: &str, end_secs: i64) -> (name: String)
    ensures
        name@ == image_file_name_of(user_id, algorithm_id@, end_secs),
{
    proof {
        reveal_strlit("img_");
        reveal_strlit("_");
        reveal_strlit(".png");
    }
    let id = uuid_text(user_id);
    let mut name = String::new();
    name.append("img_");
    name.append(id.as_str());
    name.append("_");
    name.append(algorithm_id);
    name.append("_");
    push_signed_decimal(&mut name, end_secs);
    name.append(".png");
    assert(name@ =~= image_file_name_of(user_id, algorithm_id@, end_secs));
    name
}

} // verus!
