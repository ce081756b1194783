//! Channel-name validation for the management API's model-definition
//! endpoint: trims the name, requires it non-empty, restricts it to ASCII
//! alphanumerics, `-` and `_` to avoid path injection, and lowercases it.

use vstd::prelude::*;
use vstd::string::StringExecFns;

verus! {

/// The Unicode White_Space code points, the set `str::trim` removes.
pub open spec fn is_space_char(c: char) -> bool {
    let u = c as u32;
    (9 <= u <= 13) || u == 32 || u == 0x85 || u == 0xA0 || u == 0x1680
        || (0x2000 <= u <= 0x200A) || u == 0x2028 || u == 0x2029 || u == 0x202F
        || u == 0x205F || u == 0x3000
}

pub open spec fn trim_front(s: Seq<char>) -> Seq<char>
    decreases s.len(),
{
    if s.len() > 0 && is_space_char(s[0]) {
        trim_front(s.drop_first())
    } else {
        s
    }
}

pub open spec fn trim_back(s: Seq<char>) -> Seq<char>
    decreases s.len(),
{
    if s.len() > 0 && is_space_char(s.last()) {
        trim_back(s.drop_last())
    } else {
        s
    }
}

/// The string with leading and trailing whitespace removed.
pub open spec fn trim_spec(s: Seq<char>) -> Seq<char> {
    trim_back(trim_front(s))
}

/// Characters a channel name may hold, before lowercasing.
pub open spec fn valid_channel_char(c: char) -> bool {
    let u = c as u32;
    (48 <= u <= 57) || (65 <= u <= 90) || (97 <= u <= 122) || c == '-' || c == '_'
}

/// ASCII lowercasing at the code level.
pub open spec fn lower_code(u: u32) -> int {
    if 65 <= u <= 90 {
        u + 32
    } else {
        u as int
    }
}

proof fn lemma_trim_front_skip(s: Seq<char>, k: int)
    requires
        0 <= k <= s.len(),
        forall|j: int| 0 <= j < k ==> is_space_char(#[trigger] s[j]),
        k == s.len() || !is_space_char(s[k]),
    ensures
        trim_front(s) == s.skip(k),
    decreases k,
{
    if k == 0 {
        assert(s.skip(0) =~= s);
    } else {
        assert(is_space_char(s[0]));
        let t = s.drop_first();
        assert(forall|j: int| 0 <= j < k - 1 ==> is_space_char(#[trigger] t[j]));
        lemma_trim_front_skip(t, k - 1);
        assert(t.skip(k - 1) =~= s.skip(k));
    }
}

proof fn lemma_trim_back_take(s: Seq<char>, e: int)
    requires
        0 <= e <= s.len(),
        forall|j: int| e <= j < s.len() ==> is_space_char(#[trigger] s[j]),
        e == 0 || !is_space_char(s[e - 1]),
    ensures
        trim_back(s) == s.take(e),
    decreases s.len() - e,
{
    if e == s.len() {
        if s.len() == 0 || !is_space_char(s.last()) {
            assert(s.take(e) =~= s);
        } else {
            assert(!is_space_char(s[e - 1]));
            assert(false);
        }
    } else {
        assert(is_space_char(s.last()));
        let t = s.drop_last();
        assert(forall|j: int| e <= j < t.len() ==> is_space_char(#[trigger] t[j]));
        lemma_trim_back_take(t, e);
        assert(t.take(e) =~= s.take(e));
    }
}

fn is_space(c: char) -> (b: bool)
    ensures
        b == is_space_char(c),
{
    let u = c as u32;
    (9 <= u && u <= 13) || u == 32 || u == 0x85 || u == 0xA0 || u == 0x1680
        || (0x2000 <= u && u <= 0x200A) || u == 0x2028 || u == 0x2029 || u == 0x202F
        || u == 0x205F || u == 0x3000
}

/// Relies on String::from_utf8: a vector of ASCII bytes decodes to the
/// string of exactly those characters.
#[verifier::external_body]
fn ascii_string(bytes: Vec<u8>) -> (r: String)
    requires
        forall|i: int| 0 <= i < bytes@.len() ==> bytes@[i] < 128,
    ensures
        r@.len() == bytes@.len(),
        forall|i: int| 0 <= i < bytes@.len() ==> r@[i] as u32 == bytes@[i] as u32,
{
    String::from_utf8(bytes).unwrap_or_default()
}

/// Validates and canonicalizes a channel name: `Ok` holds the trimmed name
/// lowercased exactly when the trimmed name is non-empty and every character
/// is an ASCII alphanumeric, `-` or `_`; otherwise the matching error.
pub fn sanitize_channel(channel: &str) -> (r: Result<String, String>)
    ensures
        ({
            let t = trim_spec(channel@);
            match r {
                Ok(out) => {
                    &&& t.len() > 0
                    &&& forall|i: int| 0 <= i < t.len() ==> valid_channel_char(#[trigger] t[i])
                    &&& out@.len() == t.len()
                    &&& forall|i: int| 0 <= i < t.len() ==> (#[trigger] out@[i]) as u32 == lower_code(t[i] as u32)
                },
                Err(e) => {
                    (t.len() == 0 && e@ == "channel is required"@) || (t.len() > 0 && (exists|i: int|
                        0 <= i < t.len() && !valid_channel_char(#[trigger] t[i])) && e@
                        == "channel contains invalid characters"@)
                },
            }
        }),
{
    let len = channel.unicode_len();
    let mut start: usize = 0;
    while start < len && is_space(channel.get_char(start))
        invariant
            start <= len,
            len == channel@.len(),
            forall|j: int| 0 <= j < start ==> is_space_char(#[trigger] channel@[j]),
        decreases len - start,
    {
        start = start + 1;
    }
    let mut end: usize = len;
    while end > start && is_space(channel.get_char(end - 1))
        invariant
            start <= end <= len,
            len == channel@.len(),
            forall|j: int| 0 <= j < start ==> is_space_char(#[trigger] channel@[j]),
            start == len || !is_space_char(channel@[start as int]),
            forall|j: int| end <= j < len ==> is_space_char(#[trigger] channel@[j]),
        decreases end,
    {
        end = end - 1;
    }
    let ghost t = trim_spec(channel@);
    proof {
        lemma_trim_front_skip(channel@, start as int);
        let f = channel@.skip(start as int);
        assert(forall|j: int| end - start <= j < f.len() ==> is_space_char(#[trigger] f[j]));
        if end > start {
            assert(!is_space_char(f[end - start - 1]));
        }
        lemma_trim_back_take(f, end - start);
        assert(t =~= channel@.subrange(start as int, end as int));
    }
    if start == end {
        return Err(String::from_str("channel is required"));
    }
    let mut bytes: Vec<u8> = Vec::new();
    let mut i: usize = start;
    while i < end
        invariant
            start <= i <= end <= len,
            len == channel@.len(),
            t == trim_spec(channel@),
            t == channel@.subrange(start as int, end as int),
            bytes@.len() == i - start,
            forall|j: int| 0 <= j < bytes@.len() ==> bytes@[j] < 128,
            forall|j: int| 0 <= j < bytes@.len() ==> valid_channel_char(#[trigger] t[j]),
            forall|j: int| 0 <= j < bytes@.len() ==> (#[trigger] bytes@[j]) as u32 == lower_code(t[j] as u32),
        decreases end - i,
    {
        let c = channel.get_char(i);
        proof {
            assert(t[i - start] == channel@[i as int]);
        }
        let u = c as u32;
        let ok = (48 <= u && u <= 57) || (65 <= u && u <= 90) || (97 <= u && u <= 122) || u == 45
            || u == 95;
        proof {
            assert(('-') as u32 == 45 && ('_') as u32 == 95);
        }
        if !ok {
            proof {
                let w = i - start;
                assert(t[w] == c);
                assert(!valid_channel_char(t[w]));
                assert(0 <= w < t.len() && !valid_channel_char(#[trigger] t[w]));
                assert(exists|j: int| 0 <= j < t.len() && !valid_channel_char(#[trigger] t[j]));
            }
            return Err(String::from_str("channel contains invalid characters"));
        }
        let lowered: u32 = if 65 <= u && u <= 90 {
            u + 32
        } else {
            u
        };
        bytes.push(lowered as u8);
        i = i + 1;
    }
    let out = ascii_string(bytes);
    Ok(out)
}

/// The management API URL serving model definitions for a channel.
pub fn model_definitions_url(channel: &str) -> (r: String)
    ensures
        r@ == "http://127.0.0.1:8318/v0/management/model-definitions/"@ + channel@,
{
    let mut r = String::from_str("http://127.0.0.1:8318/v0/management/model-definitions/");
    r.append(channel);
    r
}

} // verus!
