//! The text the backend derives: lowercase hexadecimal, the hyphenated form
//! of a UUID, filesystem paths under the upload directory, and the
//! `Content-Disposition` header of a download.

use vstd::prelude::*;
use vstd::string::*;
use vstd::arithmetic::power2::pow2;
use crate::outside::uuid_to_text;

verus! {

/// The lowercase hexadecimal digit of `n`, for `0 <= n < 16`.
pub open spec fn hex_digit(n: int) -> char {
    seq!['0', '1', '2', '3', '4', '5', '6', '7', '8', '9', 'a', 'b', 'c', 'd', 'e', 'f'][n]
}

/// Two lowercase hexadecimal digits per byte, high nibble first.
pub open spec fn hex_lower(bytes: Seq<u8>) -> Seq<char> {
    Seq::new(
        2 * bytes.len(),
        |i: int|
            if i % 2 == 0 {
                hex_digit(bytes[i / 2] as int / 16)
            } else {
                hex_digit(bytes[i / 2] as int % 16)
            },
    )
}

/// The sixteen bytes of a UUID, most significant first.
pub open spec fn uuid_bytes(v: u128) -> Seq<u8> {
    Seq::new(16, |i: int| ((v as nat / pow2((8 * (15 - i)) as nat)) % 256) as u8)
}

/// A version-4 UUID of the RFC 4122 variant: version nibble 4 (bits 76 to
/// 79) and variant bits `10` (bits 62 and 63).
pub open spec fn is_v4_uuid(v: u128) -> bool {
    &&& (v >> 76u128) & 0xfu128 == 4
    &&& (v >> 62u128) & 0x3u128 == 2
}

/// The hyphenated lowercase form of a UUID: 8-4-4-4-12 hexadecimal digits.
pub open spec fn uuid_text(v: u128) -> Seq<char> {
    let h = hex_lower(uuid_bytes(v));
    h.subrange(0, 8) + seq!['-'] + h.subrange(8, 12) + seq!['-'] + h.subrange(12, 16) + seq!['-']
        + h.subrange(16, 20) + seq!['-'] + h.subrange(20, 32)
}

/// A relative path component appended to a base path: a separator goes
/// between them unless the base is empty or already ends with one.
pub open spec fn path_join(base: Seq<char>, part: Seq<char>) -> Seq<char> {
    if base.len() == 0 {
        part
    } else if base.last() == '/' {
        base + part
    } else {
        base + seq!['/'] + part
    }
}

/// The directory that holds a user's files.
pub open spec fn user_dir(upload_dir: Seq<char>, user_id: u128) -> Seq<char> {
    path_join(upload_dir, uuid_text(user_id))
}

/// Where a stored file lives: its id under its owner's directory.
pub open spec fn stored_file_path(upload_dir: Seq<char>, user_id: u128, file_id: u128) -> Seq<char> {
    path_join(user_dir(upload_dir, user_id), uuid_text(file_id))
}

/// The `Content-Disposition` value that makes a browser save the download
/// under `name`.
pub open spec fn attachment_header(name: Seq<char>) -> Seq<char> {
    seq!['a', 't', 't', 'a', 'c', 'h', 'm', 'e', 'n', 't', ';', ' ', 'f', 'i', 'l', 'e', 'n', 'a', 'm', 'e', '=', '"']
        + name + seq!['"']
}

/// Appends the relative component `part` to `base`, as `PathBuf::push` does
/// on Unix for a component that is not absolute.
pub fn join_path(base: &str, part: &str) -> (res: String)
    ensures
        res@ == path_join(base@, part@),
{
    let n = base.unicode_len();
    if n == 0 {
        return String::from_str(part);
    }
    let mut res = String::from_str(base);
    if base.get_char(n - 1) != '/' {
        proof {
            reveal_strlit("/");
        }
        res.append("/");
    }
    res.append(part);
    res
}

/// The directory that holds the files of `user_id` under `upload_dir`.
pub fn user_directory(upload_dir: &str, user_id: u128) -> (res: String)
    ensures
        res@ == user_dir(upload_dir@, user_id),
{
    let id = uuid_to_text(user_id);
    join_path(upload_dir, id.as_str())
}

/// The path of the file `file_id` inside the directory `dir`.
pub fn file_path_in(dir: &str, file_id: u128) -> (res: String)
    ensures
        res@ == path_join(dir@, uuid_text(file_id)),
{
    let id = uuid_to_text(file_id);
    join_path(dir, id.as_str())
}

/// `attachment; filename="<name>"`.
pub fn content_disposition(name: &str) -> (res: String)
    ensures
        res@ == attachment_header(name@),
{
    let mut res = String::from_str("attachment; filename=\"");
    res.append(name);
    res.append("\"");
    proof {
        reveal_strlit("attachment; filename=\"");
        reveal_strlit("\"");
    }
    res
}

/// The lowercase hexadecimal text of bytes has two digits per byte, each
/// one of `0123456789abcdef`, and tells the bytes apart: two byte sequences
/// with the same text are equal.
pub proof fn hex_lower_is_two_lowercase_digits_per_byte(a: Seq<u8>, b: Seq<u8>)
    ensures
        hex_lower(a).len() == 2 * a.len(),
        forall|i: int|
            0 <= i < hex_lower(a).len() ==> {
                let c = #[trigger] hex_lower(a)[i];
                ('0' <= c <= '9') || ('a' <= c <= 'f')
            },
        hex_lower(a) == hex_lower(b) ==> a == b,
{
    assert forall|i: int| 0 <= i < hex_lower(a).len() implies {
        let c = #[trigger] hex_lower(a)[i];
        ('0' <= c <= '9') || ('a' <= c <= 'f')
    } by {
        let byte = a[i / 2] as int;
        assert(0 <= byte / 16 < 16 && 0 <= byte % 16 < 16);
    }
    if hex_lower(a) == hex_lower(b) {
        assert(hex_lower(b).len() == 2 * b.len());
        assert(a.len() == b.len());
        assert forall|k: int| 0 <= k < a.len() implies a[k] == b[k] by {
            assert(hex_lower(a)[2 * k] == hex_lower(b)[2 * k]);
            assert(hex_lower(a)[2 * k + 1] == hex_lower(b)[2 * k + 1]);
            assert((2 * k) / 2 == k && (2 * k) % 2 == 0);
            assert((2 * k + 1) / 2 == k && (2 * k + 1) % 2 == 1);
            let x = a[k] as int;
            let y = b[k] as int;
            assert(hex_digit(x / 16) == hex_digit(y / 16));
            assert(hex_digit(x % 16) == hex_digit(y % 16));
            assert(x / 16 == y / 16);
            assert(x % 16 == y % 16);
            assert(x == 16 * (x / 16) + x % 16);
            assert(y == 16 * (y / 16) + y % 16);
        }
        assert(a =~= b);
    }
}

/// The text of a UUID has 36 characters, with hyphens at positions 8, 13,
/// 18 and 23 and lowercase hexadecimal digits elsewhere.
pub proof fn uuid_text_is_hyphenated(v: u128)
    ensures
        uuid_text(v).len() == 36,
        uuid_text(v)[8] == '-' && uuid_text(v)[13] == '-' && uuid_text(v)[18] == '-' && uuid_text(v)[23] == '-',
        forall|i: int|
            0 <= i < 36 && i != 8 && i != 13 && i != 18 && i != 23 ==> {
                let c = #[trigger] uuid_text(v)[i];
                ('0' <= c <= '9') || ('a' <= c <= 'f')
            },
{
    let h = hex_lower(uuid_bytes(v));
    hex_lower_is_two_lowercase_digits_per_byte(uuid_bytes(v), uuid_bytes(v));
    assert(h.len() == 32);
    assert forall|i: int| 0 <= i < 36 && i != 8 && i != 13 && i != 18 && i != 23 implies {
        let c = #[trigger] uuid_text(v)[i];
        ('0' <= c <= '9') || ('a' <= c <= 'f')
    } by {
        if i < 8 {
            assert(uuid_text(v)[i] == h[i]);
        } else if i < 13 {
            assert(uuid_text(v)[i] == h[i - 1]);
        } else if i < 18 {
            assert(uuid_text(v)[i] == h[i - 2]);
        } else if i < 23 {
            assert(uuid_text(v)[i] == h[i - 3]);
        } else {
            assert(uuid_text(v)[i] == h[i - 4]);
        }
    }
}

/// Joining keeps the base as a prefix and the part as a suffix, with one
/// separator between them exactly when the base is not empty and does not
/// already end with one.
pub proof fn path_join_keeps_base_and_part(base: Seq<char>, part: Seq<char>)
    ensures
        path_join(base, part).subrange(0, base.len() as int) == base,
        path_join(base, part).len() == base.len() + part.len() + if base.len() > 0 && base.last() != '/' {
            1int
        } else {
            0int
        },
        path_join(base, part).subrange(path_join(base, part).len() - part.len(), path_join(base, part).len() as int)
            == part,
        base.len() > 0 && base.last() != '/' ==> path_join(base, part)[base.len() as int] == '/',
{
    let j = path_join(base, part);
    assert(j.subrange(0, base.len() as int) =~= base);
    assert(j.subrange(j.len() - part.len(), j.len() as int) =~= part);
}

/// A stored file lives under its owner's directory, which lives under the
/// upload directory: the path starts with the upload directory, and ends
/// with a separator and the file's id.
pub proof fn stored_file_path_is_under_the_owners_directory(upload_dir: Seq<char>, user_id: u128, file_id: u128)
    ensures
        stored_file_path(upload_dir, user_id, file_id).subrange(0, upload_dir.len() as int) == upload_dir,
        stored_file_path(upload_dir, user_id, file_id).subrange(0, user_dir(upload_dir, user_id).len() as int)
            == user_dir(upload_dir, user_id),
        ({
            let p = stored_file_path(upload_dir, user_id, file_id);
            &&& p.subrange(p.len() - 36, p.len() as int) == uuid_text(file_id)
            &&& p[p.len() - 37] == '/'
        }),
{
    let d = user_dir(upload_dir, user_id);
    let p = stored_file_path(upload_dir, user_id, file_id);
    uuid_text_is_hyphenated(user_id);
    uuid_text_is_hyphenated(file_id);
    path_join_keeps_base_and_part(upload_dir, uuid_text(user_id));
    path_join_keeps_base_and_part(d, uuid_text(file_id));
    assert(d.len() > 0);
    assert(d.last() == uuid_text(user_id)[35]);
    assert(d.last() != '/');
    assert(p.subrange(0, upload_dir.len() as int) =~= p.subrange(0, d.len() as int).subrange(
        0,
        upload_dir.len() as int,
    ));
}

/// The download header is `attachment; filename="` then the name then `"`.
pub proof fn attachment_header_quotes_the_name(name: Seq<char>)
    ensures
        attachment_header(name) == "attachment; filename=\""@ + name + "\""@,
{
    reveal_strlit("attachment; filename=\"");
    reveal_strlit("\"");
    assert(attachment_header(name) =~= "attachment; filename=\""@ + name + "\""@);
}

/// The value of a lowercase hexadecimal digit.
pub open spec fn hex_value(c: char) -> int {
    if '0' <= c <= '9' {
        c as int - '0' as int
    } else {
        c as int - 'a' as int + 10
    }
}

/// Reading the text back gives the bytes: each byte is sixteen times the
/// value of its first digit plus the value of its second.
pub proof fn hex_lower_reads_back(a: Seq<u8>)
    ensures
        forall|i: int|
            0 <= i < a.len() ==> hex_value(#[trigger] hex_lower(a)[2 * i]) * 16 + hex_value(hex_lower(a)[2 * i + 1])
                == a[i] as int,
{
    assert forall|i: int| 0 <= i < a.len() implies hex_value(#[trigger] hex_lower(a)[2 * i]) * 16 + hex_value(
        hex_lower(a)[2 * i + 1],
    ) == a[i] as int by {
        assert((2 * i) / 2 == i && (2 * i) % 2 == 0);
        assert((2 * i + 1) / 2 == i && (2 * i + 1) % 2 == 1);
        let x = a[i] as int;
        let hi = x / 16;
        let lo = x % 16;
        assert(0 <= hi < 16 && 0 <= lo < 16);
        assert(x == 16 * hi + lo);
        assert(hex_value(hex_digit(hi)) == hi);
        assert(hex_value(hex_digit(lo)) == lo);
    }
}

} // verus!
