use vstd::prelude::*;
use vstd::string::*;
use vstd::utf8::*;

verus! {

/// The byte views of a list of TXT entries.
pub open spec fn bytes_of(txt: Seq<Vec<u8>>) -> Seq<Seq<u8>> {
    txt.map_values(|b: Vec<u8>| b@)
}

/// The character views of a list of strings.
pub open spec fn chars_of(texts: Seq<String>) -> Seq<Seq<char>> {
    texts.map_values(|s: String| s@)
}

/// The TXT entries that are valid UTF-8, decoded, in the order received.
pub open spec fn decoded_texts(txt: Seq<Seq<u8>>) -> Seq<Seq<char>>
    decreases txt.len(),
{
    if txt.len() == 0 {
        seq![]
    } else {
        let rest = decoded_texts(txt.drop_last());
        if valid_utf8(txt.last()) {
            rest.push(decode_utf8(txt.last()))
        } else {
            rest
        }
    }
}

/// The entries written one after the other, separated by `;`.
pub open spec fn joined(texts: Seq<Seq<char>>) -> Seq<char>
    decreases texts.len(),
{
    if texts.len() == 0 {
        seq![]
    } else if texts.len() == 1 {
        texts[0]
    } else {
        joined(texts.drop_last()) + seq![';'] + texts.last()
    }
}

/// Relies on `String::from_utf8`: `Ok` exactly when the bytes are valid
/// UTF-8, holding the characters they encode.
#[verifier::external_body]
fn text_of_bytes(bytes: Vec<u8>) -> (r: Option<String>)
    ensures
        r is Some <==> valid_utf8(bytes@),
        r matches Some(s) ==> s@ == decode_utf8(bytes@),
{
    String::from_utf8(bytes).ok()
}

/// Decodes each TXT entry as text, skipping the entries that are not valid
/// UTF-8.
pub fn valid_texts(txt: &Vec<Vec<u8>>) -> (r: Vec<String>)
    ensures
        chars_of(r@) == decoded_texts(bytes_of(txt@)),
{
    let mut r: Vec<String> = Vec::new();
    let mut i: usize = 0;
    while i < txt.len()
        invariant
            i <= txt.len(),
            chars_of(r@) == decoded_texts(bytes_of(txt@.subrange(0, i as int))),
        decreases txt.len() - i,
    {
        let entry = txt[i].clone();
        let decoded = text_of_bytes(entry);
        let ghost before = r@;
        proof {
            let pre = bytes_of(txt@.subrange(0, i as int + 1));
            assert(pre.drop_last() =~= bytes_of(txt@.subrange(0, i as int)));
            assert(pre.last() == txt@[i as int]@);
        }
        match decoded {
            Some(s) => {
                r.push(s);
                assert(chars_of(r@) =~= chars_of(before).push(r@.last()@));
            },
            None => {},
        }
        i = i + 1;
    }
    assert(txt@.subrange(0, txt@.len() as int) =~= txt@);
    r
}

/// Writes the entries one after the other, separated by `;`.
pub fn join_texts(texts: &Vec<String>) -> (r: String)
    ensures
        r@ == joined(chars_of(texts@)),
{
    let mut r = String::new();
    let mut i: usize = 0;
    while i < texts.len()
        invariant
            i <= texts.len(),
            r@ == joined(chars_of(texts@.subrange(0, i as int))),
        decreases texts.len() - i,
    {
        let ghost pre = chars_of(texts@.subrange(0, i as int + 1));
        proof {
            assert(pre.drop_last() =~= chars_of(texts@.subrange(0, i as int)));
        }
        if i > 0 {
            proof {
                reveal_strlit(";");
            }
            r.append(";");
        }
        r.append(texts[i].as_str());
        assert(r@ =~= joined(pre));
        i = i + 1;
    }
    assert(texts@.subrange(0, texts@.len() as int) =~= texts@);
    r
}

/// The custom payload of a device: the TXT entries that are valid text,
/// in the order received, separated by `;`.
pub fn custom_payload(txt: &Vec<Vec<u8>>) -> (r: String)
    ensures
        r@ == joined(decoded_texts(bytes_of(txt@))),
{
    let texts = valid_texts(txt);
    join_texts(&texts)
}

/// The entry reads `key=value`.
pub open spec fn has_key(entry: Seq<char>, key: Seq<char>) -> bool {
    entry.len() > key.len() && entry.subrange(0, key.len() as int) == key && entry[key.len() as int]
        == '='
}

/// The value of the first entry at or after `i` that carries `key`, or the
/// empty string where none does.
pub open spec fn value_from(texts: Seq<Seq<char>>, key: Seq<char>, i: int) -> Seq<char>
    decreases texts.len() - i,
{
    if i < 0 || i >= texts.len() {
        seq![]
    } else if has_key(texts[i], key) {
        texts[i].subrange(key.len() + 1 as int, texts[i].len() as int)
    } else {
        value_from(texts, key, i + 1)
    }
}

/// The value of the first entry `key=value` among the texts, or the empty
/// string where none carries `key`.
pub open spec fn value_of(texts: Seq<Seq<char>>, key: Seq<char>) -> Seq<char> {
    value_from(texts, key, 0)
}

/// Whether `entry` reads `key=value`.
pub fn entry_has_key(entry: &str, key: &str) -> (r: bool)
    ensures
        r == has_key(entry@, key@),
{
    let n = entry.unicode_len();
    let k = key.unicode_len();
    if n <= k {
        return false;
    }
    let mut j: usize = 0;
    while j < k
        invariant
            k < n,
            n == entry@.len(),
            k == key@.len(),
            j <= k,
            forall|m: int| 0 <= m < j ==> entry@[m] == key@[m],
        decreases k - j,
    {
        if entry.get_char(j) != key.get_char(j) {
            assert(entry@.subrange(0, k as int)[j as int] != key@[j as int]);
            return false;
        }
        j = j + 1;
    }
    assert(entry@.subrange(0, k as int) =~= key@);
    entry.get_char(k) == '='
}

/// The value of the first entry `key=value` among the texts, or the empty
/// string where none carries `key`.
pub fn lookup_value(texts: &Vec<String>, key: &str) -> (r: String)
    ensures
        r@ == value_of(chars_of(texts@), key@),
{
    let ghost ts = chars_of(texts@);
    let mut i: usize = 0;
    while i < texts.len()
        invariant
            i <= texts.len(),
            ts == chars_of(texts@),
            value_from(ts, key@, 0) == value_from(ts, key@, i as int),
        decreases texts.len() - i,
    {
        let entry = texts[i].as_str();
        if entry_has_key(entry, key) {
            let n = entry.unicode_len();
            let k = key.unicode_len();
            let v = entry.substring_char(k + 1, n);
            return String::from_str(v);
        }
        i = i + 1;
    }
    String::new()
}

/// The numeric value of a string of decimal digits.
pub open spec fn digits_value(s: Seq<char>) -> nat
    decreases s.len(),
{
    if s.len() == 0 {
        0
    } else {
        digits_value(s.drop_last()) * 10 + ((s.last() as u32) - ('0' as u32)) as nat
    }
}

pub open spec fn is_digit(c: char) -> bool {
    '0' <= c && c <= '9'
}

pub open spec fn all_digits(s: Seq<char>) -> bool {
    forall|i: int| 0 <= i < s.len() ==> is_digit(#[trigger] s[i])
}

/// A count of seconds written in decimal: its value where the text is a
/// non-empty run of digits whose value fits in 64 bits, else zero.
pub open spec fn seconds_of(s: Seq<char>) -> u64 {
    if s.len() > 0 && all_digits(s) && digits_value(s) <= u64::MAX {
        digits_value(s) as u64
    } else {
        0
    }
}

proof fn lemma_digits_value_grows(s: Seq<char>, i: int)
    requires
        0 <= i <= s.len(),
        all_digits(s),
    ensures
        digits_value(s.subrange(0, i)) <= digits_value(s),
    decreases s.len() - i,
{
    if i < s.len() {
        lemma_digits_value_grows(s, i + 1);
        let p = s.subrange(0, i + 1);
        assert(p.drop_last() =~= s.subrange(0, i));
        assert(is_digit(s[i]));
    }
    assert(s.subrange(0, s.len() as int) =~= s);
}

/// Reads a count of seconds written in decimal; zero where the text is
/// empty, holds a character other than a digit, or exceeds 64 bits.
pub fn parse_seconds(text: &str) -> (r: u64)
    ensures
        r == seconds_of(text@),
{
    let n = text.unicode_len();
    if n == 0 {
        return 0;
    }
    let mut acc: u64 = 0;
    let mut i: usize = 0;
    while i < n
        invariant
            n == text@.len(),
            i <= n,
            forall|m: int| 0 <= m < i ==> is_digit(#[trigger] text@[m]),
            acc as nat == digits_value(text@.subrange(0, i as int)),
        decreases n - i,
    {
        let c = text.get_char(i);
        if c < '0' || c > '9' {
            assert(!all_digits(text@));
            return 0;
        }
        let d = (c as u32 - '0' as u32) as u64;
        let ghost pre = text@.subrange(0, i as int + 1);
        assert(pre.drop_last() =~= text@.subrange(0, i as int));
        assert(digits_value(pre) == acc * 10 + d);
        if acc > (u64::MAX - d) / 10 {
            proof {
                assert(acc * 10 + d > u64::MAX) by (nonlinear_arith)
                    requires
                        acc > (u64::MAX - d) / 10,
                        d <= 9,
                ;
                if all_digits(text@) {
                    lemma_digits_value_grows(text@, i as int + 1);
                }
            }
            return 0;
        }
        acc = acc * 10 + d;
        i = i + 1;
    }
    assert(text@.subrange(0, n as int) =~= text@);
    acc
}

} // verus!
