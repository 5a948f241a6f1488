use vstd::prelude::*;
use vstd::utf8::{valid_utf8, decode_utf8, encode_utf8};

verus! {

// ---------------------------------------------------------------------------
// Trusted items: decoding bytes that a read returned
// ---------------------------------------------------------------------------

/// The text that `String::from_utf8_lossy` makes of `bytes`: the decoding of
/// the bytes, with each invalid sequence replaced by U+FFFD.
pub uninterp spec fn lossy_text(bytes: Seq<u8>) -> Seq<char>;

/// The `Display` text of the error that `String::from_utf8` reports for
/// `bytes`, which says where the first invalid sequence lies.
pub uninterp spec fn utf8_error_text(bytes: Seq<u8>) -> Seq<char>;

/// Calls std's `String::from_utf8_lossy` and takes the result as an owned
/// `String`. Its documentation says that valid UTF-8 comes back unchanged;
/// what it makes of other bytes is given the name `lossy_text`.
#[verifier::external_body]
fn decode_lossy(bytes: &[u8]) -> (r: String)
    ensures
        r@ == lossy_text(bytes@),
        valid_utf8(bytes@) ==> r@ == decode_utf8(bytes@),
{
    String::from_utf8_lossy(bytes).into_owned()
}

/// Calls std's `String::from_utf8`. Its documentation says that it succeeds
/// exactly on valid UTF-8, with a string holding those bytes, and otherwise
/// fails with an error; the error's `Display` text is given the name
/// `utf8_error_text`.
#[verifier::external_body]
fn decode_strict(bytes: Vec<u8>) -> (r: Result<String, String>)
    ensures
        r is Ok <==> valid_utf8(bytes@),
        r matches Ok(s) ==> s@ == decode_utf8(bytes@),
        r matches Err(m) ==> m@ == utf8_error_text(bytes@),
{
    match String::from_utf8(bytes) {
        Ok(s) => Ok(s),
        Err(e) => Err(format!("{}", e)),
    }
}

// ---------------------------------------------------------------------------
// What the checks decide
// ---------------------------------------------------------------------------

/// Whether `s` begins with `prefix`.
pub open spec fn starts_with(s: Seq<char>, prefix: Seq<char>) -> bool {
    prefix.len() <= s.len() && s.subrange(0, prefix.len() as int) == prefix
}

/// The message of a read-back that differs from what was written.
pub open spec fn mismatch_message(path: Seq<char>, expected: Seq<char>, got: Seq<char>) -> Seq<char> {
    "Stress test mismatch in "@ + path + ": expected '"@ + expected + "', got '"@ + got + "'"@
}

/// The message of a shared-file read that is not UTF-8.
pub open spec fn invalid_utf8_message(bytes: Seq<u8>) -> Seq<char> {
    "Invalid UTF-8 read in shared test: "@ + utf8_error_text(bytes)
}

/// The message of a shared-file read that does not begin as every write does.
pub open spec fn corruption_message(path: Seq<char>, got: Seq<char>) -> Seq<char> {
    "Shared file stress test corruption in "@ + path + ": got '"@ + got + "'"@
}

/// What an independent-files task decides about the bytes `read` back from
/// `path` after writing `expected` there.
pub open spec fn task_read_verdict(path: Seq<char>, expected: Seq<char>, read: Seq<u8>) -> Result<(), Seq<char>> {
    if read == encode_utf8(expected) {
        Ok(())
    } else {
        Err(mismatch_message(path, expected, lossy_text(read)))
    }
}

/// What a shared-file task decides about the bytes `read` back from the
/// shared file at `path`.
pub open spec fn shared_read_verdict(path: Seq<char>, read: Seq<u8>) -> Result<(), Seq<char>> {
    if !valid_utf8(read) {
        Err(invalid_utf8_message(read))
    } else if !starts_with(decode_utf8(read), "shared_content_task_"@) {
        Err(corruption_message(path, decode_utf8(read)))
    } else {
        Ok(())
    }
}

/// `starts_with` is being a prefix: `s` starts with `prefix` exactly when
/// `s` is `prefix` followed by something.
pub proof fn lemma_starts_with_is_prefix(s: Seq<char>, prefix: Seq<char>, rest: Seq<char>)
    ensures
        starts_with(prefix + rest, prefix),
        starts_with(s, prefix) ==> s == prefix + s.subrange(prefix.len() as int, s.len() as int),
{
    assert((prefix + rest).subrange(0, prefix.len() as int) =~= prefix);
    if starts_with(s, prefix) {
        assert(s =~= prefix + s.subrange(prefix.len() as int, s.len() as int));
    }
}

/// An independent-files read passes exactly when it gives back the UTF-8
/// bytes of what was written; otherwise the error names the path, what was
/// expected and the text of what came back.
pub proof fn lemma_task_read_verdict(path: Seq<char>, expected: Seq<char>, read: Seq<u8>)
    ensures
        task_read_verdict(path, expected, read) is Ok <==> read == encode_utf8(expected),
        read != encode_utf8(expected) ==> task_read_verdict(path, expected, read) == Err::<(), Seq<char>>(
            "Stress test mismatch in "@ + path + ": expected '"@ + expected + "', got '"@ + lossy_text(read)
                + "'"@,
        ),
{
}

/// A shared-file read passes exactly when its bytes are valid UTF-8 and
/// their text begins with `shared_content_task_`. Bytes that are not UTF-8
/// are always reported as such, whatever their text looks like; UTF-8 that
/// begins otherwise is reported as corruption, with the text that was read.
pub proof fn lemma_shared_read_verdict(path: Seq<char>, read: Seq<u8>)
    ensures
        shared_read_verdict(path, read) is Ok <==> valid_utf8(read) && ("shared_content_task_"@).len()
            <= decode_utf8(read).len() && decode_utf8(read).subrange(
            0,
            ("shared_content_task_"@).len() as int,
        ) == "shared_content_task_"@,
        !valid_utf8(read) ==> shared_read_verdict(path, read) == Err::<(), Seq<char>>(
            "Invalid UTF-8 read in shared test: "@ + utf8_error_text(read),
        ),
        valid_utf8(read) && !(shared_read_verdict(path, read) is Ok) ==> shared_read_verdict(path, read)
            == Err::<(), Seq<char>>(
            "Shared file stress test corruption in "@ + path + ": got '"@ + decode_utf8(read) + "'"@,
        ),
{
}

// ---------------------------------------------------------------------------
// Carrying them out
// ---------------------------------------------------------------------------

/// Whether two byte strings are equal.
pub fn bytes_equal(a: &[u8], b: &[u8]) -> (r: bool)
    ensures
        r == (a@ == b@),
{
    if a.len() != b.len() {
        return false;
    }
    let mut k: usize = 0;
    while k < a.len()
        invariant
            a@.len() == b@.len(),
            k <= a@.len(),
            forall|j: int| 0 <= j < k ==> a@[j] == b@[j],
        decreases a.len() - k,
    {
        if a[k] != b[k] {
            return false;
        }
        k = k + 1;
    }
    assert(a@ =~= b@);
    true
}

/// Whether `s` begins with `prefix`, compared character by character.
pub fn str_starts_with(s: &str, prefix: &str) -> (r: bool)
    ensures
        r == starts_with(s@, prefix@),
{
    let n = prefix.unicode_len();
    if s.unicode_len() < n {
        return false;
    }
    let mut k: usize = 0;
    while k < n
        invariant
            n == prefix@.len(),
            n <= s@.len(),
            k <= n,
            forall|j: int| 0 <= j < k ==> s@[j] == prefix@[j],
        decreases n - k,
    {
        if s.get_char(k) != prefix.get_char(k) {
            assert(s@.subrange(0, n as int)[k as int] != prefix@[k as int]);
            return false;
        }
        k = k + 1;
    }
    assert(s@.subrange(0, n as int) =~= prefix@);
    true
}

/// The text of the bytes that a read returned, as the tasks print it.
pub fn read_text(bytes: &[u8]) -> (r: String)
    ensures
        r@ == lossy_text(bytes@),
        valid_utf8(bytes@) ==> r@ == decode_utf8(bytes@),
{
    decode_lossy(bytes)
}

/// Whether a read gave back exactly the bytes of `written`.
pub fn read_matches(read: &[u8], written: &str) -> (r: bool)
    ensures
        r == (read@ == encode_utf8(written@)),
{
    bytes_equal(read, written.as_bytes())
}

/// Checks the bytes that an independent-files task read back from `path`
/// against what it wrote there.
pub fn check_task_read(path: &str, expected: &str, read: &[u8]) -> (r: Result<(), String>)
    ensures
        match (r, task_read_verdict(path@, expected@, read@)) {
            (Ok(()), Ok(())) => true,
            (Err(m), Err(e)) => m@ == e,
            _ => false,
        },
{
    if read_matches(read, expected) {
        Ok(())
    } else {
        let got = read_text(read);
        let mut m = String::from_str("Stress test mismatch in ");
        m.append(path);
        m.append(": expected '");
        m.append(expected);
        m.append("', got '");
        m.append(got.as_str());
        m.append("'");
        assert(m@ =~= mismatch_message(path@, expected@, lossy_text(read@)));
        Err(m)
    }
}

/// Checks the bytes that a shared-file task read back from the shared file
/// at `path`: they must be UTF-8 and begin as every shared write does.
pub fn check_shared_read(path: &str, read: Vec<u8>) -> (r: Result<(), String>)
    ensures
        match (r, shared_read_verdict(path@, read@)) {
            (Ok(()), Ok(())) => true,
            (Err(m), Err(e)) => m@ == e,
            _ => false,
        },
{
    let ghost bytes = read@;
    match decode_strict(read) {
        Err(text) => {
            let mut m = String::from_str("Invalid UTF-8 read in shared test: ");
            m.append(text.as_str());
            assert(m@ =~= invalid_utf8_message(bytes));
            Err(m)
        },
        Ok(s) => {
            if str_starts_with(s.as_str(), "shared_content_task_") {
                Ok(())
            } else {
                let mut m = String::from_str("Shared file stress test corruption in ");
                m.append(path);
                m.append(": got '");
                m.append(s.as_str());
                m.append("'");
                assert(m@ =~= corruption_message(path@, decode_utf8(bytes)));
                Err(m)
            }
        },
    }
}

} // verus!
